use vstd::prelude::*;
use vstd::string::StringExecFns;

use crate::json::{json_text, print_json, Json};

verus! {

/// `json` is a response: an object with the members `data`, `message` and
/// `status`, in this order, the last two being texts.
pub open spec fn is_envelope(json: Json, status: Seq<char>, message: Seq<char>, data: Json) -> bool {
    &&& json matches Json::Object(entries)
    &&& entries@.len() == 3
    &&& entries@[0].0@ == "data"@
    &&& entries@[0].1 == data
    &&& entries@[1].0@ == "message"@
    &&& entries@[1].1.text() == Some(message)
    &&& entries@[2].0@ == "status"@
    &&& entries@[2].1.text() == Some(status)
}

/// `json` is an object with one member, a text.
pub open spec fn is_single_text(json: Json, key: Seq<char>, value: Seq<char>) -> bool {
    &&& json matches Json::Object(entries)
    &&& entries@.len() == 1
    &&& entries@[0].0@ == key
    &&& entries@[0].1.text() == Some(value)
}

fn envelope(status: &str, message: &str, data: Json) -> (json: Json)
    ensures
        is_envelope(json, status@, message@, data),
{
    let mut entries: Vec<(String, Json)> = Vec::new();
    entries.push((String::from_str("data"), data));
    entries.push((String::from_str("message"), Json::Text(String::from_str(message))));
    entries.push((String::from_str("status"), Json::Text(String::from_str(status))));
    Json::Object(entries)
}

/// The response to a request that failed: status `error`, the reason as
/// message, no data.
pub fn error_envelope(message: &str) -> (json: Json)
    ensures
        is_envelope(json, "error"@, message@, Json::Null),
{
    envelope("error", message, Json::Null)
}

/// The response to a request that succeeded: status `success`, a fixed
/// message, and the result as data.
pub fn ok_envelope(data: Json) -> (json: Json)
    ensures
        is_envelope(json, "success"@, "operation successful"@, data),
{
    envelope("success", "operation successful", data)
}

/// The text of the response to a request that failed.
pub fn error_message(message: &str) -> (text: String)
    ensures
        exists|json: Json| #[trigger]
            is_envelope(json, "error"@, message@, Json::Null) && text@ == json_text(json),
{
    let json: Json = error_envelope(message);
    let text: String = print_json(&json);
    assert(is_envelope(json, "error"@, message@, Json::Null));
    text
}

/// The text of the response to a request that succeeded.
pub fn ok_message(data: Json) -> (text: String)
    ensures
        exists|json: Json| #[trigger]
            is_envelope(json, "success"@, "operation successful"@, data) && text@ == json_text(
                json,
            ),
{
    let json: Json = ok_envelope(data);
    let text: String = print_json(&json);
    assert(is_envelope(json, "success"@, "operation successful"@, data));
    text
}

/// The request that probes whether a server is alive, as a value.
pub fn probe_request_value() -> (json: Json)
    ensures
        is_single_text(json, "method"@, "health_check"@),
{
    let mut entries: Vec<(String, Json)> = Vec::new();
    entries.push((String::from_str("method"), Json::Text(String::from_str("health_check"))));
    Json::Object(entries)
}

/// The text of the request that probes whether a server is alive.
pub fn probe_request() -> (text: String)
    ensures
        exists|json: Json| #[trigger]
            is_single_text(json, "method"@, "health_check"@) && text@ == json_text(json),
{
    let json: Json = probe_request_value();
    let text: String = print_json(&json);
    assert(is_single_text(json, "method"@, "health_check"@));
    text
}

/// What a live server answers to the probe: that its health is ok.
pub fn probe_response() -> (json: Json)
    ensures
        is_single_text(json, "health"@, "ok"@),
{
    let mut entries: Vec<(String, Json)> = Vec::new();
    entries.push((String::from_str("health"), Json::Text(String::from_str("ok"))));
    Json::Object(entries)
}

/// The member `health` of a probe response is the text `ok`, and the member
/// `data` of a success response is what was handed in.
pub proof fn lemma_envelope_members(json: Json, status: Seq<char>, message: Seq<char>, data: Json)
    requires
        is_envelope(json, status, message, data),
    ensures
        json.field("data"@) == Some(data),
{
    let entries = json->Object_0;
    assert(crate::json::member(entries@, "data"@) == Some(entries@[0].1));
}

} // verus!
