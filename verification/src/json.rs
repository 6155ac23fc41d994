//! JSON values as the protocol reads and writes them.

use vstd::prelude::*;

use crate::text::text_eq;

verus! {

/// A JSON value. A number that is a whole number within 64 signed bits is an
/// `Integer`; any other number is kept as the text that stands for it. The
/// members of an object come in the order of their keys.
#[derive(Debug, PartialEq)]
pub enum Json {
    Null,
    Bool(bool),
    Integer(i64),
    Decimal(String),
    Text(String),
    Array(Vec<Json>),
    Object(Vec<(String, Json)>),
}

/// A JSON number: a whole number within 64 signed bits, or the text of any
/// other number.
#[derive(Debug, Clone, PartialEq, Eq)]
pub enum Number {
    Integer(i64),
    Decimal(String),
}

#[verifier::external_type_specification]
#[verifier::external_body]
pub struct ExValue(serde_json::Value);

/// What parsing a text as JSON gives: the value, or the parser's complaint.
pub uninterp spec fn parsed_json(text: Seq<char>) -> Result<Json, String>;

/// The compact text that stands for a JSON value.
pub uninterp spec fn json_text(json: Json) -> Seq<char>;

/// Turns a value of `serde_json` into a value of the library, variant by
/// variant; of a number it keeps `Number::as_i64` where that gives a value,
/// else the number's text. Nothing is claimed of the result.
#[verifier::external_body]
fn json_of_value(value: &serde_json::Value) -> Json {
    match value {
        serde_json::Value::Null => Json::Null,
        serde_json::Value::Bool(b) => Json::Bool(*b),
        serde_json::Value::Number(n) => match n.as_i64() {
            Some(i) => Json::Integer(i),
            None => Json::Decimal(n.to_string()),
        },
        serde_json::Value::String(s) => Json::Text(s.clone()),
        serde_json::Value::Array(items) => Json::Array(items.iter().map(json_of_value).collect()),
        serde_json::Value::Object(map) => Json::Object(
            map.iter().map(|(k, v)| (k.clone(), json_of_value(v))).collect(),
        ),
    }
}

/// Turns a value of the library into a value of `serde_json`, variant by
/// variant; a `Decimal` whose text is no number becomes null. Nothing is
/// claimed of the result.
#[verifier::external_body]
fn value_of_json(json: &Json) -> serde_json::Value {
    match json {
        Json::Null => serde_json::Value::Null,
        Json::Bool(b) => serde_json::Value::Bool(*b),
        Json::Integer(i) => serde_json::Value::from(*i),
        Json::Decimal(t) => t.parse().map_or(serde_json::Value::Null, serde_json::Value::Number),
        Json::Text(s) => serde_json::Value::String(s.clone()),
        Json::Array(items) => serde_json::Value::Array(items.iter().map(value_of_json).collect()),
        Json::Object(entries) => serde_json::Value::Object(
            entries.iter().map(|(k, v)| (k.clone(), value_of_json(v))).collect(),
        ),
    }
}

/// `serde_json::from_str` for a `Value`, the error turned into its message.
/// The result is a function of the text alone; the contract gives it a name
/// and claims nothing else.
#[verifier::external_body]
pub(crate) fn parse_json(text: &str) -> (r: Result<Json, String>)
    ensures
        r == parsed_json(text@),
{
    match serde_json::from_str::<serde_json::Value>(text) {
        Ok(value) => Ok(json_of_value(&value)),
        Err(error) => Err(error.to_string()),
    }
}

/// `Value::to_string`: the compact JSON text of a value. The result is a
/// function of the value alone; the contract gives it a name and claims
/// nothing else.
#[verifier::external_body]
pub(crate) fn print_json(json: &Json) -> (text: String)
    ensures
        text@ == json_text(*json),
{
    value_of_json(json).to_string()
}

/// The member of an object under `key`: the first one, if several have it.
pub open spec fn member(entries: Seq<(String, Json)>, key: Seq<char>) -> Option<Json>
    decreases entries.len(),
{
    if entries.len() == 0 {
        None
    } else if entries[0].0@ == key {
        Some(entries[0].1)
    } else {
        member(entries.drop_first(), key)
    }
}

impl Json {
    /// The member under `key`, if the value is an object that has one.
    pub open spec fn field(self, key: Seq<char>) -> Option<Json> {
        match self {
            Json::Object(entries) => member(entries@, key),
            _ => None,
        }
    }

    /// The text, if the value is one.
    pub open spec fn text(self) -> Option<Seq<char>> {
        match self {
            Json::Text(s) => Some(s@),
            _ => None,
        }
    }

    /// The member under `key`, if the value is an object that has one.
    pub fn get(&self, key: &str) -> (found: Option<&Json>)
        ensures
            match found {
                Some(json) => self.field(key@) == Some(*json),
                None => self.field(key@) is None,
            },
    {
        match self {
            Json::Object(entries) => {
                let mut i: usize = 0;
                assert(entries@.skip(0) =~= entries@);
                while i < entries.len()
                    invariant
                        i <= entries@.len(),
                        self.field(key@) == member(entries@, key@),
                        member(entries@, key@) == member(entries@.skip(i as int), key@),
                    decreases entries@.len() - i,
                {
                    if text_eq(entries[i].0.as_str(), key) {
                        assert(entries@.skip(i as int).len() > 0);
                        assert(entries@.skip(i as int)[0] == entries@[i as int]);
                        assert(member(entries@.skip(i as int), key@) == Some(entries@[i as int].1));
                        return Some(&entries[i].1);
                    }
                    proof {
                        assert(entries@.skip(i as int)[0] == entries@[i as int]);
                        assert(entries@.skip(i as int).drop_first() =~= entries@.skip(i as int + 1));
                    }
                    i += 1;
                }
                assert(entries@.skip(i as int).len() == 0);
                None
            },
            _ => None,
        }
    }

    /// The text, if the value is one.
    pub fn as_str(&self) -> (found: Option<&str>)
        ensures
            match found {
                Some(s) => self.text() == Some(s@),
                None => self.text() is None,
            },
    {
        match self {
            Json::Text(s) => Some(s.as_str()),
            _ => None,
        }
    }

    /// The whole number, if the value is one.
    pub fn as_i64(&self) -> (found: Option<i64>)
        ensures
            found == match *self {
                Json::Integer(i) => Some(i),
                _ => None::<i64>,
            },
    {
        match self {
            Json::Integer(i) => Some(*i),
            _ => None,
        }
    }
}

} // verus!
