use vstd::prelude::*;
use vstd::string::StringExecFns;

use crate::error::Error;
use crate::json::{parse_json, parsed_json, Json};
use crate::app::application::App;
use crate::commands::websocket::frame::{
    find_colors, find_relative_colors, get_image_args, get_region, held, is_find_colors_reply,
    is_find_relative_colors_reply, is_image_query, is_region, save, ImageQuery,
};
use crate::commands::websocket::input::{is_input_method, is_token_for, token_for};
use crate::commands::websocket::utils::{is_invalid, is_missing};
use crate::input::token::Token;
use crate::text::text_eq;
use crate::types::point::Point;
use crate::types::size::Size;
use crate::websocket::message::{is_single_text, probe_response};
use crate::error::error_text;
use crate::websocket::message::{error_message, is_envelope, ok_message};

verus! {

/// The methods that a client can call.
#[derive(Debug, Clone, Copy, PartialEq, Eq, Structural)]
pub enum Method {
    HealthCheck,
    FindImage,
    FindImages,
    FindRelativeColors,
    FindColors,
    RecognizeText,
    SaveFrame,
    ClickLeft,
    ClickRight,
    PressLeft,
    PressRight,
    ReleaseLeft,
    ReleaseRight,
    MoveAbsolute,
    MoveRelative,
    GetMouseLocation,
    ScrollVertical,
    ScrollHorizontal,
    PressKey,
    ReleaseKey,
    ClickKey,
    InputText,
}

/// The name under which a client calls a method. Names are case-sensitive.
pub open spec fn method_name(method: Method) -> Seq<char> {
    match method {
        Method::HealthCheck => "health_check"@,
        Method::FindImage => "find_image"@,
        Method::FindImages => "find_images"@,
        Method::FindRelativeColors => "find_relative_colors"@,
        Method::FindColors => "find_colors"@,
        Method::RecognizeText => "recognize_text"@,
        Method::SaveFrame => "save_frame"@,
        Method::ClickLeft => "click_left"@,
        Method::ClickRight => "click_right"@,
        Method::PressLeft => "press_left"@,
        Method::PressRight => "press_right"@,
        Method::ReleaseLeft => "release_left"@,
        Method::ReleaseRight => "release_right"@,
        Method::MoveAbsolute => "move_absolute"@,
        Method::MoveRelative => "move_relative"@,
        Method::GetMouseLocation => "get_mouse_location"@,
        Method::ScrollVertical => "scroll_vertical"@,
        Method::ScrollHorizontal => "scroll_horizontal"@,
        Method::PressKey => "press_key"@,
        Method::ReleaseKey => "release_key"@,
        Method::ClickKey => "click_key"@,
        Method::InputText => "input_text"@,
    }
}

/// Looks a method up by its name.
pub fn get_method_handler(method: &str) -> (r: Option<Method>)
    ensures
        match r {
            Some(found) => method@ == method_name(found),
            None => forall|any: Method| method_name(any) != method@,
        },
{
    if text_eq(method, "health_check") {
        return Some(Method::HealthCheck);
    }
    if text_eq(method, "find_image") {
        return Some(Method::FindImage);
    }
    if text_eq(method, "find_images") {
        return Some(Method::FindImages);
    }
    if text_eq(method, "find_relative_colors") {
        return Some(Method::FindRelativeColors);
    }
    if text_eq(method, "find_colors") {
        return Some(Method::FindColors);
    }
    if text_eq(method, "recognize_text") {
        return Some(Method::RecognizeText);
    }
    if text_eq(method, "save_frame") {
        return Some(Method::SaveFrame);
    }
    if text_eq(method, "click_left") {
        return Some(Method::ClickLeft);
    }
    if text_eq(method, "click_right") {
        return Some(Method::ClickRight);
    }
    if text_eq(method, "press_left") {
        return Some(Method::PressLeft);
    }
    if text_eq(method, "press_right") {
        return Some(Method::PressRight);
    }
    if text_eq(method, "release_left") {
        return Some(Method::ReleaseLeft);
    }
    if text_eq(method, "release_right") {
        return Some(Method::ReleaseRight);
    }
    if text_eq(method, "move_absolute") {
        return Some(Method::MoveAbsolute);
    }
    if text_eq(method, "move_relative") {
        return Some(Method::MoveRelative);
    }
    if text_eq(method, "get_mouse_location") {
        return Some(Method::GetMouseLocation);
    }
    if text_eq(method, "scroll_vertical") {
        return Some(Method::ScrollVertical);
    }
    if text_eq(method, "scroll_horizontal") {
        return Some(Method::ScrollHorizontal);
    }
    if text_eq(method, "press_key") {
        return Some(Method::PressKey);
    }
    if text_eq(method, "release_key") {
        return Some(Method::ReleaseKey);
    }
    if text_eq(method, "click_key") {
        return Some(Method::ClickKey);
    }
    if text_eq(method, "input_text") {
        return Some(Method::InputText);
    }
    None
}

/// What a connection's peer sent.
#[derive(Debug, PartialEq)]
pub enum Incoming {
    /// A text frame.
    Text(String),
    /// A close control frame.
    Close,
    /// Any other frame.
    Other,
}

/// What to do about what the peer sent.
#[derive(Debug, PartialEq)]
pub enum Step {
    /// Send this text and go on reading.
    Reply(String),
    /// Carry the method out with these arguments, send the response that
    /// `respond` makes of the result, and go on reading.
    Call(Method, Json),
    /// Leave the loop.
    Stop,
}

/// A request: the method that is called, and the arguments it is called
/// with.
pub type Request = (Method, Json);

/// The error is that of a text that is no request, told in `detail`.
pub open spec fn is_parse_error(error: Error, detail: Seq<char>) -> bool {
    error matches Error::ProtocolParseError(told) && told@ == detail
}

/// The error is that of a method that is not in the table.
pub open spec fn is_unsupported_method(error: Error, name: Seq<char>) -> bool {
    error matches Error::UnsupportedMethod(told) && told@ == name
}

/// What is told to a client whose request is no JSON.
pub open spec fn invalid_json_notice(complaint: Seq<char>) -> Seq<char> {
    "Invalid JSON: "@ + complaint
}

/// What a parsed text asks for, or why it is no request: a text that is no
/// JSON, a value without a text under `method`, or a method that is not in
/// the table. Without a member `args` the arguments are null.
pub open spec fn is_request_from(parsed: Result<Json, String>, r: Result<Request, Error>) -> bool {
    match parsed {
        Err(complaint) => r matches Err(e) && is_parse_error(e, invalid_json_notice(complaint@)),
        Ok(value) => match value.field("method"@) {
            Some(Json::Text(name)) => if exists|method: Method| method_name(method) == name@ {
                r matches Ok(request) && method_name(request.0) == name@ && request.1
                    == match value.field("args"@) {
                    Some(given) => given,
                    None => Json::Null,
                }
            } else {
                r matches Err(e) && is_unsupported_method(e, name@)
            },
            _ => r matches Err(e) && is_parse_error(e, "Missing 'method' field"@),
        },
    }
}

/// What the text of a request asks for.
pub open spec fn is_request_of(text: Seq<char>, r: Result<Request, Error>) -> bool {
    is_request_from(parsed_json(text), r)
}

/// Takes the member under `key` out of an object.
fn take_member(value: Json, key: &str) -> (found: Option<Json>)
    ensures
        found == value.field(key@),
{
    let ghost target = value.field(key@);
    match value {
        Json::Object(mut entries) => {
            while entries.len() > 0
                invariant
                    target == value.field(key@),
                    target == crate::json::member(entries@, key@),
                decreases entries@.len(),
            {
                let ghost before = entries@;
                let entry: (String, Json) = entries.remove(0);
                assert(entry == before[0]);
                assert(entries@ =~= before.drop_first());
                if text_eq(entry.0.as_str(), key) {
                    return Some(entry.1);
                }
            }
            None
        },
        _ => None,
    }
}

/// What a text asks for, once it is parsed: the method it names and the
/// arguments it brings, or why it is no request.
pub fn request_of(parsed: Result<Json, String>) -> (r: Result<Request, Error>)
    ensures
        is_request_from(parsed, r),
{
    let value: Json = match parsed {
        Ok(value) => value,
        Err(complaint) => {
            return Err(
                Error::ProtocolParseError(
                    String::from_str("Invalid JSON: ").concat(complaint.as_str()),
                ),
            );
        },
    };
    let found: Option<Method> = match value.get("method") {
        Some(Json::Text(name)) => {
            let found = get_method_handler(name.as_str());
            if found.is_none() {
                return Err(Error::UnsupportedMethod(name.clone()));
            }
            found
        },
        _ => None,
    };
    match found {
        Some(method) => {
            let args: Json = match take_member(value, "args") {
                Some(given) => given,
                None => Json::Null,
            };
            Ok((method, args))
        },
        None => Err(Error::ProtocolParseError(String::from_str("Missing 'method' field"))),
    }
}

/// Reads a request: the method it names and the arguments it brings.
pub fn read_request(text: &str) -> (r: Result<Request, Error>)
    ensures
        is_request_of(text@, r),
{
    request_of(parse_json(text))
}

/// What is to be done about a request: a call is carried out, and a text
/// that is no request is answered with the reason.
pub open spec fn is_step_for(request: Result<Request, Error>, step: Step) -> bool {
    match request {
        Ok(call) => step == Step::Call(call.0, call.1),
        Err(e) => step matches Step::Reply(text) && is_error_text(text@, error_text(e)),
    }
}

/// What to do about a request, once it is read. A text that is no request is
/// answered with the reason, and the connection stays open.
pub fn step_for(request: Result<Request, Error>) -> (step: Step)
    ensures
        is_step_for(request, step),
        step != Step::Stop,
{
    match request {
        Ok((method, args)) => Step::Call(method, args),
        Err(e) => {
            let notice: String = e.message();
            Step::Reply(error_message(notice.as_str()))
        },
    }
}

/// `text` is the text of an error response with the given message.
pub open spec fn is_error_text(text: Seq<char>, message: Seq<char>) -> bool {
    exists|json: Json| #[trigger]
        crate::websocket::message::is_envelope(json, "error"@, message, Json::Null) && text
            == crate::json::json_text(json)
}

/// What to do about what the peer sent: a text frame is read as a request, a
/// close frame ends the loop, and any other frame is answered with a plain
/// notice.
pub fn next_step(message: Incoming) -> (step: Step)
    ensures
        match message {
            Incoming::Close => step == Step::Stop,
            Incoming::Other => step matches Step::Reply(text) && text@
                == "unsupported message type"@,
            Incoming::Text(text) => step != Step::Stop && exists|
                request: Result<Request, Error>,
            | #[trigger] is_request_of(text@, request) && is_step_for(request, step),
        },
{
    match message {
        Incoming::Close => Step::Stop,
        Incoming::Other => Step::Reply(String::from_str("unsupported message type")),
        Incoming::Text(text) => {
            let request: Result<Request, Error> = read_request(text.as_str());
            let ghost read = request;
            let step: Step = step_for(request);
            assert(is_request_of(text@, read) && is_step_for(read, step));
            step
        },
    }
}

/// `text` is the text of a success response with the given data.
pub open spec fn is_success_text(text: Seq<char>, data: Json) -> bool {
    exists|json: Json| #[trigger]
        is_envelope(json, "success"@, "operation successful"@, data) && text
            == crate::json::json_text(json)
}

/// The response to a call: the result as the data of a success response, or
/// the error's message in an error response.
pub fn respond(result: Result<Json, Error>) -> (text: String)
    ensures
        match result {
            Ok(data) => is_success_text(text@, data),
            Err(error) => is_error_text(text@, error_text(error)),
        },
{
    match result {
        Ok(data) => ok_message(data),
        Err(error) => {
            let message: String = error.message();
            error_message(message.as_str())
        },
    }
}

/// Whether a value says that the health is ok: its member `data` has the
/// text `ok` as member `health`.
pub open spec fn says_health(value: Json) -> bool {
    value.field("data"@) matches Some(data) && data.field("health"@) matches Some(health)
        && health.text() == Some("ok"@)
}

/// Whether a reply to the probe shows a live server: a JSON value that says
/// that the health is ok.
pub open spec fn shows_health(reply: Seq<char>) -> bool {
    parsed_json(reply) matches Ok(value) && says_health(value)
}

/// Whether a value says that the health is ok.
pub fn is_health_value(value: &Json) -> (alive: bool)
    ensures
        alive == says_health(*value),
{
    let data: &Json = match value.get("data") {
        Some(data) => data,
        None => { return false; },
    };
    let health: &Json = match data.get("health") {
        Some(health) => health,
        None => { return false; },
    };
    match health.as_str() {
        Some(text) => text_eq(text, "ok"),
        None => false,
    }
}

/// Whether a reply to the probe shows a live server.
pub fn is_health_reply(reply: &str) -> (alive: bool)
    ensures
        alive == shows_health(reply@),
{
    match parse_json(reply) {
        Ok(value) => is_health_value(&value),
        Err(_) => false,
    }
}

/// Where the server stands.
#[derive(Debug, Clone, Copy, PartialEq, Eq, Structural)]
pub enum ServerState {
    /// No port is held.
    Unbound,
    /// The port is held and connections are accepted.
    Listening,
    /// No new connection is accepted; those that are open run out.
    ShuttingDown,
}

/// What an attempt to open a port comes to.
#[derive(Debug, Clone, Copy, PartialEq, Eq, Structural)]
pub enum BindOutcome {
    /// The port is ours: accept connections.
    Serve,
    /// The port is held by a live server of this kind: nothing to do.
    AlreadyServed,
}

/// What an attempt to open a port comes to. A port that could not be bound is
/// probed; `alive` is what the probe showed and is not looked at after a
/// successful bind.
pub open spec fn bind_result(bound: bool, alive: bool) -> Result<BindOutcome, Error> {
    if bound {
        Ok(BindOutcome::Serve)
    } else if alive {
        Ok(BindOutcome::AlreadyServed)
    } else {
        Err(Error::PortConflict)
    }
}

/// Decides what an attempt to open a port comes to.
pub fn bind_outcome(bound: bool, alive: bool) -> (r: Result<BindOutcome, Error>)
    ensures
        r == bind_result(bound, alive),
{
    if bound {
        Ok(BindOutcome::Serve)
    } else if alive {
        Ok(BindOutcome::AlreadyServed)
    } else {
        Err(Error::PortConflict)
    }
}

/// The state after an attempt to open a port: a fresh bind starts listening,
/// anything else changes nothing.
pub open spec fn after_bind(state: ServerState, outcome: Result<BindOutcome, Error>) -> ServerState {
    match outcome {
        Ok(BindOutcome::Serve) => ServerState::Listening,
        _ => state,
    }
}

/// The state after a request to shut down: a listening server stops
/// accepting, any other state stays as it is.
pub open spec fn after_shutdown(state: ServerState) -> ServerState {
    match state {
        ServerState::Listening => ServerState::ShuttingDown,
        other => other,
    }
}

/// The state once the accept loop has ended: the port is given up.
pub open spec fn after_drain(state: ServerState) -> ServerState {
    match state {
        ServerState::ShuttingDown => ServerState::Unbound,
        other => other,
    }
}

impl ServerState {
    /// Takes note of an attempt to open a port.
    pub fn bind(&mut self, bound: bool, alive: bool) -> (r: Result<BindOutcome, Error>)
        ensures
            r == bind_result(bound, alive),
            *final(self) == after_bind(*old(self), r),
    {
        let outcome = bind_outcome(bound, alive);
        if let Ok(BindOutcome::Serve) = outcome {
            *self = ServerState::Listening;
        }
        outcome
    }

    /// Takes note that the accept loop has ended.
    pub fn drained(&mut self)
        ensures
            *final(self) == after_drain(*old(self)),
    {
        if let ServerState::ShuttingDown = *self {
            *self = ServerState::Unbound;
        }
    }

    /// Whether the accept loop takes another connection.
    pub fn accepts(&self) -> (yes: bool)
        ensures
            yes == (*self == ServerState::Listening),
    {
        match self {
            ServerState::Listening => true,
            _ => false,
        }
    }
}

/// Asks the server to stop accepting connections. Open connections are left
/// to run out. On a server that is not listening this does nothing.
pub fn shutdown(state: &mut ServerState)
    ensures
        *final(state) == after_shutdown(*old(state)),
{
    if let ServerState::Listening = *state {
        *state = ServerState::ShuttingDown;
    }
}

/// Shutting down twice is the same as shutting down once, and a server that
/// was never bound stays unbound.
pub proof fn lemma_shutdown_idempotent(state: ServerState)
    ensures
        after_shutdown(after_shutdown(state)) == after_shutdown(state),
        after_shutdown(ServerState::Unbound) == ServerState::Unbound,
        after_drain(after_shutdown(ServerState::Listening)) == ServerState::Unbound,
{
}

/// Opening a port that a live server of this kind holds succeeds and changes
/// nothing; opening a port held by anything that does not answer the probe
/// fails with `PortConflict`.
pub proof fn lemma_open_is_idempotent(state: ServerState)
    ensures
        bind_result(false, true) == Ok::<BindOutcome, Error>(BindOutcome::AlreadyServed),
        after_bind(state, bind_result(false, true)) == state,
        bind_result(false, false) == Err::<BindOutcome, Error>(Error::PortConflict),
        after_bind(state, bind_result(false, false)) == state,
{
}

/// `text` is the response to a call with the given result.
pub open spec fn is_response(text: Seq<char>, result: Result<Json, Error>) -> bool {
    match result {
        Ok(data) => is_success_text(text, data),
        Err(error) => is_error_text(text, error_text(error)),
    }
}

/// What a call comes to in the library: the response, or what is left for
/// the program around it to do before `respond` makes the response.
#[derive(Debug, PartialEq)]
pub enum Outcome {
    /// The call is done: send this text.
    Reply(String),
    /// Look for the best match of a template.
    FindImage(ImageQuery),
    /// Look for every match of a template.
    FindImages(ImageQuery),
    /// Recognise the text of a region of the current frame.
    RecognizeText(Point, Size),
    /// Save the current frame under a path.
    SaveFrame(String),
    /// Tell where the pointer is.
    MouseLocation,
}

/// What a call of a method comes to. The liveness probe and the colour
/// searches are answered here, the latter on the current frame; an input
/// method submits its token and is answered at once; arguments that cannot be
/// read are answered with the reason. What needs a template from disk, text
/// recognition, a file or the pointer is left to the program, its arguments
/// read.
pub open spec fn is_outcome_of(
    before: App,
    after: App,
    method: Method,
    args: Json,
    outcome: Outcome,
) -> bool {
    match method {
        Method::HealthCheck => {
            &&& after.input_spec()@ == before.input_spec()@
            &&& outcome matches Outcome::Reply(text)
            &&& exists|data: Json| #[trigger]
                is_single_text(data, "health"@, "ok"@) && is_success_text(text@, data)
        },
        Method::FindColors => {
            &&& after.input_spec()@ == before.input_spec()@
            &&& outcome matches Outcome::Reply(text)
            &&& exists|r: Result<Json, Error>| #[trigger]
                is_find_colors_reply(args, before.capturer_spec().current(), r) && is_response(
                    text@,
                    r,
                )
        },
        Method::FindRelativeColors => {
            &&& after.input_spec()@ == before.input_spec()@
            &&& outcome matches Outcome::Reply(text)
            &&& exists|r: Result<Json, Error>| #[trigger]
                is_find_relative_colors_reply(args, before.capturer_spec().current(), r)
                    && is_response(text@, r)
        },
        Method::FindImage => after.input_spec()@ == before.input_spec()@ && exists|
            r: Result<ImageQuery, Error>,
        | #[trigger]
            is_image_query(args, r) && match r {
                Ok(query) => outcome == Outcome::FindImage(query),
                Err(e) => outcome matches Outcome::Reply(text) && is_error_text(
                    text@,
                    error_text(e),
                ),
            },
        Method::FindImages => after.input_spec()@ == before.input_spec()@ && exists|
            r: Result<ImageQuery, Error>,
        | #[trigger]
            is_image_query(args, r) && match r {
                Ok(query) => outcome == Outcome::FindImages(query),
                Err(e) => outcome matches Outcome::Reply(text) && is_error_text(
                    text@,
                    error_text(e),
                ),
            },
        Method::RecognizeText => after.input_spec()@ == before.input_spec()@ && exists|
            r: Result<(Point, Size), Error>,
        | #[trigger]
            is_region(args, r) && match r {
                Ok(region) => outcome == Outcome::RecognizeText(region.0, region.1),
                Err(e) => outcome matches Outcome::Reply(text) && is_error_text(
                    text@,
                    error_text(e),
                ),
            },
        Method::SaveFrame => after.input_spec()@ == before.input_spec()@ && match args.field(
            "path"@,
        ) {
            None => outcome matches Outcome::Reply(text) && exists|e: Error| #[trigger]
                is_missing(e, "path"@) && is_error_text(text@, error_text(e)),
            Some(value) => match value.text() {
                Some(path) => outcome matches Outcome::SaveFrame(told) && told@ == path,
                None => outcome matches Outcome::Reply(text) && exists|e: Error| #[trigger]
                    is_invalid(e, "path"@) && is_error_text(text@, error_text(e)),
            },
        },
        Method::GetMouseLocation => after.input_spec()@ == before.input_spec()@ && outcome
            == Outcome::MouseLocation,
        _ => {
            &&& outcome matches Outcome::Reply(text)
            &&& exists|r: Result<Token, Error>| #[trigger]
                is_token_for(method, args, r) && match r {
                    Ok(token) => after.input_spec()@ == before.input_spec()@.push(token)
                        && is_success_text(text@, Json::Null),
                    Err(e) => after.input_spec()@ == before.input_spec()@ && is_error_text(
                        text@,
                        error_text(e),
                    ),
                }
        },
    }
}

/// Carries out the call of a method as far as the library can.
pub fn handle_call(app: &mut App, method: Method, args: &Json) -> (outcome: Outcome)
    ensures
        is_outcome_of(*old(app), *final(app), method, *args, outcome),
        final(app).config_spec() == old(app).config_spec(),
        final(app).project_spec() == old(app).project_spec(),
        final(app).capturer_spec() == old(app).capturer_spec(),
        final(app).recorder_spec() == old(app).recorder_spec(),
        final(app).resource_dir_spec() == old(app).resource_dir_spec(),
{
    match method {
        Method::HealthCheck => {
            let data: Json = probe_response();
            let ghost held_data = data;
            let text: String = respond(Ok(data));
            assert(is_single_text(held_data, "health"@, "ok"@) && is_success_text(
                text@,
                held_data,
            ));
            Outcome::Reply(text)
        },
        Method::FindColors => {
            let r: Result<Json, Error> = find_colors(args, app.capturer().get_frame_arc());
            let ghost made = r;
            let text: String = respond(r);
            assert(is_find_colors_reply(*args, old(app).capturer_spec().current(), made)
                && is_response(text@, made));
            Outcome::Reply(text)
        },
        Method::FindRelativeColors => {
            let r: Result<Json, Error> = find_relative_colors(
                args,
                app.capturer().get_frame_arc(),
            );
            let ghost made = r;
            let text: String = respond(r);
            assert(is_find_relative_colors_reply(
                *args,
                old(app).capturer_spec().current(),
                made,
            ) && is_response(text@, made));
            Outcome::Reply(text)
        },
        Method::FindImage => {
            let r: Result<ImageQuery, Error> = get_image_args(args);
            let ghost made = r;
            let outcome: Outcome = match r {
                Ok(query) => Outcome::FindImage(query),
                Err(e) => Outcome::Reply(respond(Err(e))),
            };
            assert(is_image_query(*args, made));
            outcome
        },
        Method::FindImages => {
            let r: Result<ImageQuery, Error> = get_image_args(args);
            let ghost made = r;
            let outcome: Outcome = match r {
                Ok(query) => Outcome::FindImages(query),
                Err(e) => Outcome::Reply(respond(Err(e))),
            };
            assert(is_image_query(*args, made));
            outcome
        },
        Method::RecognizeText => {
            let r: Result<(Point, Size), Error> = get_region(args);
            let outcome: Outcome = match r {
                Ok(region) => Outcome::RecognizeText(region.0, region.1),
                Err(e) => Outcome::Reply(respond(Err(e))),
            };
            assert(is_region(*args, r));
            outcome
        },
        Method::SaveFrame => match save(args) {
            Ok(path) => Outcome::SaveFrame(path),
            Err(e) => {
                let ghost told = e;
                let text: String = respond(Err(e));
                assert(is_error_text(text@, error_text(told)));
                proof {
                    if args.field("path"@) is None {
                        assert(is_missing(told, "path"@));
                    } else {
                        assert(is_invalid(told, "path"@));
                    }
                }
                Outcome::Reply(text)
            },
        },
        Method::GetMouseLocation => Outcome::MouseLocation,
        _ => {
            let made: Option<Result<Token, Error>> = token_for(method, args);
            assert(is_input_method(method));
            match made {
                Some(Ok(token)) => {
                    let ghost sent = token;
                    app.send_input(token);
                    let text: String = respond(Ok(Json::Null));
                    assert(is_token_for(method, *args, Ok::<Token, Error>(sent)));
                    Outcome::Reply(text)
                },
                Some(Err(e)) => {
                    let ghost told = e;
                    let text: String = respond(Err(e));
                    assert(is_token_for(method, *args, Err::<Token, Error>(told)));
                    Outcome::Reply(text)
                },
                None => Outcome::MouseLocation,
            }
        },
    }
}

/// The liveness probe is answered at once, whatever its arguments and
/// whatever the state: with a success response whose data says that the
/// health is ok.
pub proof fn lemma_health_check_answers(before: App, after: App, args: Json, outcome: Outcome)
    requires
        is_outcome_of(before, after, Method::HealthCheck, args, outcome),
    ensures
        outcome matches Outcome::Reply(text) && exists|data: Json| #[trigger]
            is_single_text(data, "health"@, "ok"@) && is_success_text(text@, data),
{
}

/// A request for a method that is not in the table is answered with an error
/// that names the method, and the loop goes on.
pub proof fn lemma_unknown_method_is_answered(value: Json, name: String, step: Step)
    requires
        value.field("method"@) == Some(Json::Text(name)),
        forall|method: Method| method_name(method) != name@,
        exists|request: Result<Request, Error>| #[trigger]
            is_request_from(Ok(value), request) && is_step_for(request, step),
    ensures
        step matches Step::Reply(text) && is_error_text(
            text@,
            "Unsupported method '"@ + name@ + "'"@,
        ),
        step != Step::Stop,
{
    let request = choose|request: Result<Request, Error>| #[trigger]
        is_request_from(Ok(value), request) && is_step_for(request, step);
    assert(request is Err);
    assert(is_unsupported_method(request->Err_0, name@));
}

} // verus!
