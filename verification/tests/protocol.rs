use kiwi::app::{App, Config};
use kiwi::capture::Frame;
use kiwi::commands::websocket::frame::{
    color_query, find_colors, find_relative_colors, get_image_args, get_region, recognized_json,
    relative_query, save,
};
use kiwi::commands::websocket::input as input_methods;
use kiwi::commands::websocket::utils::{
    get_required_f64, get_required_hex_colors, get_required_hexcolor, get_required_i32,
    get_required_point, get_required_relative_points, get_required_rgb_offset,
    get_required_string,
};
use kiwi::input::{Axis, Button, Coordinate, Direction, Key, Token};
use kiwi::json::Number;
use kiwi::types::{ColoredPoint, Point, RgbOffset, Size};
use kiwi::websocket::server::{
    bind_outcome, handle_call, is_health_reply, is_health_value, next_step, read_request,
    request_of, respond, BindOutcome, Incoming, Outcome, ServerState, Step,
};
use kiwi::websocket::{
    error_message, get_method_handler, ok_message, probe_request, probe_response, shutdown, Method,
};
use kiwi::{Error, Json};

fn object(entries: Vec<(&str, Json)>) -> Json {
    Json::Object(entries.into_iter().map(|(k, v)| (k.to_string(), v)).collect())
}

fn text(s: &str) -> Json {
    Json::Text(s.to_string())
}

fn point(x: i64, y: i64) -> Json {
    object(vec![("x", Json::Integer(x)), ("y", Json::Integer(y))])
}

fn reply(step: Step) -> String {
    match step {
        Step::Reply(text) => text,
        other => panic!("no reply: {:?}", other),
    }
}

fn answer(outcome: Outcome) -> String {
    match outcome {
        Outcome::Reply(text) => text,
        other => panic!("no reply: {:?}", other),
    }
}

fn screen() -> Frame {
    let mut frame = Frame::new(10, 10, vec![0; 400]);
    let at = 4 * (5 * 10 + 6);
    frame.buffer[at] = 200;
    frame.buffer[at + 3] = 255;
    frame
}

#[test]
fn envelopes_have_the_wire_form() {
    assert_eq!(
        error_message("boom"),
        r#"{"data":null,"message":"boom","status":"error"}"#
    );
    assert_eq!(
        ok_message(Json::Integer(7)),
        r#"{"data":7,"message":"operation successful","status":"success"}"#
    );
    assert_eq!(probe_request(), r#"{"method":"health_check"}"#);
    assert_eq!(probe_response(), object(vec![("health", text("ok"))]));
}

#[test]
fn numbers_are_read_and_written() {
    assert_eq!(
        ok_message(Json::Decimal(String::from("0.99"))),
        r#"{"data":0.99,"message":"operation successful","status":"success"}"#
    );
    assert_eq!(
        ok_message(Json::Decimal(String::from("not a number"))),
        r#"{"data":null,"message":"operation successful","status":"success"}"#
    );
    assert_eq!(
        read_request(
            r#"{"method":"click_left","args":{"a":1.5,"b":-2,"c":18446744073709551615,"d":true,"e":[null]}}"#
        ),
        Ok((
            Method::ClickLeft,
            object(vec![
                ("a", Json::Decimal(String::from("1.5"))),
                ("b", Json::Integer(-2)),
                ("c", Json::Decimal(String::from("18446744073709551615"))),
                ("d", Json::Bool(true)),
                ("e", Json::Array(vec![Json::Null])),
            ])
        ))
    );
}

#[test]
fn envelope_escapes_its_message() {
    assert_eq!(
        error_message("a \"b\"\n"),
        r#"{"data":null,"message":"a \"b\"\n","status":"error"}"#
    );
}

#[test]
fn method_table_is_fixed_and_case_sensitive() {
    let names = [
        ("health_check", Method::HealthCheck),
        ("find_image", Method::FindImage),
        ("find_images", Method::FindImages),
        ("find_relative_colors", Method::FindRelativeColors),
        ("find_colors", Method::FindColors),
        ("recognize_text", Method::RecognizeText),
        ("save_frame", Method::SaveFrame),
        ("click_left", Method::ClickLeft),
        ("click_right", Method::ClickRight),
        ("press_left", Method::PressLeft),
        ("press_right", Method::PressRight),
        ("release_left", Method::ReleaseLeft),
        ("release_right", Method::ReleaseRight),
        ("move_absolute", Method::MoveAbsolute),
        ("move_relative", Method::MoveRelative),
        ("get_mouse_location", Method::GetMouseLocation),
        ("scroll_vertical", Method::ScrollVertical),
        ("scroll_horizontal", Method::ScrollHorizontal),
        ("press_key", Method::PressKey),
        ("release_key", Method::ReleaseKey),
        ("click_key", Method::ClickKey),
        ("input_text", Method::InputText),
    ];
    for (name, method) in names {
        assert_eq!(get_method_handler(name), Some(method));
    }
    assert_eq!(get_method_handler("Health_Check"), None);
    assert_eq!(get_method_handler("does_not_exist"), None);
    assert_eq!(get_method_handler(""), None);
}

#[test]
fn health_check_on_a_fresh_connection() {
    let mut app = App::get(Config::new(9000));
    let step = next_step(Incoming::Text(String::from(r#"{"method":"health_check"}"#)));
    let (method, args) = match step {
        Step::Call(method, args) => (method, args),
        other => panic!("no call: {:?}", other),
    };
    assert_eq!(method, Method::HealthCheck);
    assert_eq!(args, Json::Null);
    let sent = answer(handle_call(&mut app, method, &args));
    assert_eq!(
        sent,
        r#"{"data":{"health":"ok"},"message":"operation successful","status":"success"}"#
    );
    assert!(is_health_reply(&sent));
}

#[test]
fn unknown_method_is_named_and_the_connection_stays_usable() {
    let mut app = App::get(Config::new(9000));
    let sent = reply(next_step(Incoming::Text(String::from(r#"{"method":"does_not_exist"}"#))));
    assert_eq!(
        sent,
        r#"{"data":null,"message":"Unsupported method 'does_not_exist'","status":"error"}"#
    );
    // The next message on the same connection is served as usual.
    match next_step(Incoming::Text(String::from(r#"{"method":"health_check","args":{}}"#))) {
        Step::Call(method, args) => {
            assert!(is_health_reply(&answer(handle_call(&mut app, method, &args))));
        }
        other => panic!("no call: {:?}", other),
    }
}

#[test]
fn malformed_messages_are_answered() {
    let sent = reply(next_step(Incoming::Text(String::from("{not json"))));
    assert!(sent.starts_with(r#"{"data":null,"message":"Invalid JSON: "#), "{}", sent);
    assert!(sent.ends_with(r#","status":"error"}"#));
    let missing = r#"{"data":null,"message":"Missing 'method' field","status":"error"}"#;
    assert_eq!(reply(next_step(Incoming::Text(String::from(r#"{"args":{}}"#)))), missing);
    assert_eq!(reply(next_step(Incoming::Text(String::from(r#"{"method":5}"#)))), missing);
    assert_eq!(reply(next_step(Incoming::Text(String::from("[1,2]")))), missing);
    assert_eq!(reply(next_step(Incoming::Other)), "unsupported message type");
    assert_eq!(next_step(Incoming::Close), Step::Stop);
}

#[test]
fn read_request_takes_method_and_args() {
    assert_eq!(
        read_request(r#"{"args":{"length":3},"method":"scroll_vertical","extra":1}"#),
        Ok((Method::ScrollVertical, object(vec![("length", Json::Integer(3))])))
    );
    assert_eq!(
        read_request(r#"{"method":"click_left","args":null}"#),
        Ok((Method::ClickLeft, Json::Null))
    );
    assert_eq!(read_request(r#"{"method":"click_left"}"#), Ok((Method::ClickLeft, Json::Null)));
    match read_request("nope") {
        Err(Error::ProtocolParseError(detail)) => assert!(detail.starts_with("Invalid JSON: ")),
        other => panic!("{:?}", other),
    }
    assert_eq!(
        read_request("{}"),
        Err(Error::ProtocolParseError(String::from("Missing 'method' field")))
    );
    assert_eq!(read_request(r#"{"method":"x"}"#), Err(Error::UnsupportedMethod(String::from("x"))));
}

#[test]
fn respond_wraps_results_and_errors() {
    assert_eq!(
        respond(Ok(Json::Null)),
        r#"{"data":null,"message":"operation successful","status":"success"}"#
    );
    assert_eq!(
        respond(Err(Error::FrameUnavailable)),
        r#"{"data":null,"message":"Frame is not found.","status":"error"}"#
    );
    assert_eq!(
        respond(Err(Error::MissingArgument(String::from("path")))),
        r#"{"data":null,"message":"WebSocket argument is missing: path","status":"error"}"#
    );
    assert_eq!(
        respond(Err(Error::HandlerFailure(String::from("disk full")))),
        r#"{"data":null,"message":"disk full","status":"error"}"#
    );
}

#[test]
fn probe_reply_must_say_health_ok() {
    assert!(is_health_reply(r#"{"status":"success","data":{"health":"ok"}}"#));
    assert!(is_health_reply(r#"{"data":{"health":"ok","more":1}}"#));
    assert!(!is_health_reply(r#"{"data":{"health":"bad"}}"#));
    assert!(!is_health_reply(r#"{"data":{"health":true}}"#));
    assert!(!is_health_reply(r#"{"health":"ok"}"#));
    assert!(!is_health_reply(r#"{"data":null}"#));
    assert!(!is_health_reply("HTTP/1.1 400 Bad Request"));
    assert!(!is_health_reply(""));
}

#[test]
fn opening_a_port() {
    assert_eq!(bind_outcome(true, false), Ok(BindOutcome::Serve));
    assert_eq!(bind_outcome(true, true), Ok(BindOutcome::Serve));
    assert_eq!(bind_outcome(false, true), Ok(BindOutcome::AlreadyServed));
    assert_eq!(bind_outcome(false, false), Err(Error::PortConflict));
}

#[test]
fn server_states() {
    let mut state = ServerState::Unbound;
    assert!(!state.accepts());
    shutdown(&mut state);
    assert_eq!(state, ServerState::Unbound);
    assert_eq!(state.bind(false, false), Err(Error::PortConflict));
    assert_eq!(state, ServerState::Unbound);
    assert_eq!(state.bind(false, true), Ok(BindOutcome::AlreadyServed));
    assert_eq!(state, ServerState::Unbound);
    assert_eq!(state.bind(true, false), Ok(BindOutcome::Serve));
    assert_eq!(state, ServerState::Listening);
    assert!(state.accepts());
    shutdown(&mut state);
    assert_eq!(state, ServerState::ShuttingDown);
    shutdown(&mut state);
    assert_eq!(state, ServerState::ShuttingDown);
    assert!(!state.accepts());
    state.drained();
    assert_eq!(state, ServerState::Unbound);
}

#[test]
fn required_arguments() {
    let args = object(vec![
        ("b", Json::Bool(true)),
        ("big", Json::Integer(1 << 40)),
        ("f", Json::Decimal(String::from("0.99"))),
        ("n", Json::Integer(-4)),
        ("p", point(3, -7)),
        ("s", text("hey")),
    ]);
    assert_eq!(get_required_string(&args, "s"), Ok(String::from("hey")));
    assert_eq!(get_required_hexcolor(&args, "s"), Ok(String::from("hey")));
    assert_eq!(get_required_string(&args, "n"), Err(Error::InvalidArgument(String::from("n"))));
    assert_eq!(get_required_string(&args, "zz"), Err(Error::MissingArgument(String::from("zz"))));
    assert_eq!(get_required_i32(&args, "n"), Ok(-4));
    assert_eq!(get_required_i32(&args, "big"), Err(Error::InvalidArgument(String::from("big"))));
    assert_eq!(get_required_i32(&args, "f"), Err(Error::InvalidArgument(String::from("f"))));
    assert_eq!(get_required_f64(&args, "f"), Ok(Number::Decimal(String::from("0.99"))));
    assert_eq!(get_required_f64(&args, "n"), Ok(Number::Integer(-4)));
    assert_eq!(get_required_f64(&args, "s"), Err(Error::InvalidArgument(String::from("s"))));
    assert_eq!(get_required_point(&args, "p"), Ok(Point::new(3, -7)));
    assert_eq!(get_required_point(&args, "b"), Err(Error::InvalidArgument(String::from("b"))));
    assert_eq!(get_required_point(&Json::Null, "p"), Err(Error::MissingArgument(String::from("p"))));
    assert_eq!(
        get_required_point(&Json::Array(vec![point(1, 1)]), "p"),
        Err(Error::MissingArgument(String::from("p")))
    );
}

#[test]
fn points_and_offsets_in_both_forms() {
    let args = object(vec![
        ("half", object(vec![("x", Json::Integer(1))])),
        ("list", Json::Array(vec![Json::Integer(8), Json::Integer(9)])),
        ("long", Json::Array(vec![Json::Integer(8), Json::Integer(9), Json::Integer(1)])),
        ("more", object(vec![("x", Json::Integer(1)), ("y", Json::Integer(2)), ("z", Json::Null)])),
        ("off", object(vec![("b", Json::Integer(3)), ("g", Json::Integer(2)), ("r", Json::Integer(1))])),
        ("offs", Json::Array(vec![Json::Integer(1), Json::Integer(2), Json::Integer(3)])),
        ("over", object(vec![("b", Json::Integer(3)), ("g", Json::Integer(256)), ("r", Json::Integer(1))])),
    ]);
    assert_eq!(get_required_point(&args, "list"), Ok(Point::new(8, 9)));
    assert_eq!(get_required_point(&args, "more"), Ok(Point::new(1, 2)));
    assert_eq!(get_required_point(&args, "half"), Err(Error::InvalidArgument(String::from("half"))));
    assert_eq!(get_required_point(&args, "long"), Err(Error::InvalidArgument(String::from("long"))));
    assert_eq!(get_required_rgb_offset(&args, "off"), Ok(RgbOffset::new(1, 2, 3)));
    assert_eq!(get_required_rgb_offset(&args, "offs"), Ok(RgbOffset::new(1, 2, 3)));
    assert_eq!(
        get_required_rgb_offset(&args, "over"),
        Err(Error::InvalidArgument(String::from("over")))
    );
}

#[test]
fn lists_of_colors_and_points() {
    let star = object(vec![("hex", text("#ffffff")), ("point", point(1, 2))]);
    let args = object(vec![
        ("colors", Json::Array(vec![text("#000000"), text("anything")])),
        ("mixed", Json::Array(vec![text("#000000"), Json::Null])),
        ("none", Json::Array(Vec::new())),
        ("stars", Json::Array(vec![star, Json::Array(vec![point(3, 4), text("#010203")])])),
    ]);
    assert_eq!(
        get_required_hex_colors(&args, "colors"),
        Ok(vec![String::from("#000000"), String::from("anything")])
    );
    assert_eq!(get_required_hex_colors(&args, "none"), Ok(Vec::new()));
    assert_eq!(
        get_required_hex_colors(&args, "mixed"),
        Err(Error::InvalidArgument(String::from("mixed")))
    );
    assert_eq!(
        get_required_relative_points(&args, "stars"),
        Ok(vec![
            ColoredPoint::new(Point::new(1, 2), String::from("#ffffff")),
            ColoredPoint::new(Point::new(3, 4), String::from("#010203")),
        ])
    );
    assert_eq!(
        get_required_relative_points(&args, "colors"),
        Err(Error::InvalidArgument(String::from("colors")))
    );
    assert_eq!(
        get_required_relative_points(&args, "nope"),
        Err(Error::MissingArgument(String::from("nope")))
    );
}

#[test]
fn regions_and_queries() {
    let args = object(vec![
        ("end_point", point(30, 25)),
        ("hex_colors", Json::Array(vec![text("#c80000")])),
        ("path", text("/tmp/shot.png")),
        ("relative_points", Json::Array(Vec::new())),
        ("rgb_offset", object(vec![("b", Json::Integer(0)), ("g", Json::Integer(0)), ("r", Json::Integer(0))])),
        ("start_point", point(10, 5)),
        ("subpath", text("icons/ok")),
        ("threshold", Json::Decimal(String::from("0.99"))),
        ("vertex_hex", text("#c80000")),
    ]);
    assert_eq!(get_region(&args), Ok((Point::new(10, 5), Size::new(20, 20))));
    let query = get_image_args(&args).unwrap();
    assert_eq!(query.subpath, "icons/ok");
    assert_eq!(query.start_point, Point::new(10, 5));
    assert_eq!(query.size, Size::new(20, 20));
    assert_eq!(query.threshold, Number::Decimal(String::from("0.99")));
    let colors = color_query(&args).unwrap();
    assert_eq!(colors.hex_colors, vec![String::from("#c80000")]);
    assert_eq!(colors.size, Size::new(20, 20));
    let relative = relative_query(&args).unwrap();
    assert_eq!(relative.vertex_hex, "#c80000");
    assert!(relative.relative_points.is_empty());
    assert_eq!(save(&args), Ok(String::from("/tmp/shot.png")));
    assert_eq!(recognized_json(None), Json::Null);
    assert_eq!(recognized_json(Some(String::from("Hi"))), text("Hi"));
}

#[test]
fn an_empty_region_is_refused_after_the_other_arguments() {
    let flat = object(vec![
        ("end_point", point(30, 5)),
        ("start_point", point(10, 5)),
        ("subpath", text("a")),
    ]);
    assert_eq!(get_region(&flat), Err(Error::InvalidRegion));
    assert_eq!(
        get_image_args(&flat),
        Err(Error::MissingArgument(String::from("threshold")))
    );
    let flat = object(vec![
        ("end_point", point(30, 5)),
        ("start_point", point(10, 5)),
        ("subpath", text("a")),
        ("threshold", Json::Integer(1)),
    ]);
    assert_eq!(get_image_args(&flat), Err(Error::InvalidRegion));
    assert_eq!(
        color_query(&flat),
        Err(Error::MissingArgument(String::from("hex_colors")))
    );
}

#[test]
fn find_colors_over_the_protocol() {
    let args = object(vec![
        ("end_point", point(10, 10)),
        ("hex_colors", Json::Array(vec![text("#C80000")])),
        ("rgb_offset", object(vec![("b", Json::Integer(0)), ("g", Json::Integer(0)), ("r", Json::Integer(0))])),
        ("start_point", point(0, 0)),
    ]);
    let frame = screen();
    let found = find_colors(&args, Some(&frame)).unwrap();
    assert_eq!(
        found,
        Json::Array(vec![object(vec![("hex", text("#c80000")), ("point", point(6, 5))])])
    );
    assert_eq!(find_colors(&args, None), Err(Error::FrameUnavailable));
    assert_eq!(
        find_colors(&Json::Null, None),
        Err(Error::MissingArgument(String::from("hex_colors")))
    );
    let mut app = App::get(Config::new(1));
    assert_eq!(
        answer(handle_call(&mut app, Method::FindColors, &args)),
        r#"{"data":null,"message":"Frame is not found.","status":"error"}"#
    );
    app.store_frame(frame);
    assert_eq!(
        answer(handle_call(&mut app, Method::FindColors, &args)),
        r##"{"data":[{"hex":"#c80000","point":{"x":6,"y":5}}],"message":"operation successful","status":"success"}"##
    );
}

#[test]
fn find_relative_colors_over_the_protocol() {
    let args = object(vec![
        ("end_point", point(10, 10)),
        ("relative_points", Json::Array(vec![object(vec![("hex", text("#000000")), ("point", point(1, 1))])])),
        ("rgb_offset", Json::Array(vec![Json::Integer(0), Json::Integer(0), Json::Integer(0)])),
        ("start_point", point(0, 0)),
        ("vertex_hex", text("#c80000")),
    ]);
    let frame = screen();
    assert_eq!(
        find_relative_colors(&args, Some(&frame)),
        Ok(object(vec![("hex", text("#c80000")), ("point", point(6, 5))]))
    );
    assert_eq!(find_relative_colors(&args, None), Err(Error::FrameUnavailable));
    let nowhere = object(vec![
        ("end_point", point(5, 5)),
        ("relative_points", Json::Array(Vec::new())),
        ("rgb_offset", Json::Array(vec![Json::Integer(0), Json::Integer(0), Json::Integer(0)])),
        ("start_point", point(0, 0)),
        ("vertex_hex", text("#c80000")),
    ]);
    assert_eq!(find_relative_colors(&nowhere, Some(&frame)), Ok(Json::Null));
    let mut app = App::get(Config::new(1));
    app.store_frame(frame);
    assert_eq!(
        answer(handle_call(&mut app, Method::FindRelativeColors, &args)),
        r##"{"data":{"hex":"#c80000","point":{"x":6,"y":5}},"message":"operation successful","status":"success"}"##
    );
}

#[test]
fn input_methods_make_tokens() {
    let none = Json::Null;
    assert_eq!(input_methods::click_left(&none), Ok(Token::Button(Button::Left, Direction::Click)));
    assert_eq!(input_methods::click_right(&none), Ok(Token::Button(Button::Right, Direction::Click)));
    assert_eq!(input_methods::press_left(&none), Ok(Token::Button(Button::Left, Direction::Press)));
    assert_eq!(input_methods::press_right(&none), Ok(Token::Button(Button::Right, Direction::Press)));
    assert_eq!(input_methods::release_left(&none), Ok(Token::Button(Button::Left, Direction::Release)));
    assert_eq!(input_methods::release_right(&none), Ok(Token::Button(Button::Right, Direction::Release)));
    let args = object(vec![
        ("absolute_point", point(5, 6)),
        ("key", text("Escape")),
        ("length", Json::Integer(-3)),
        ("offset", point(-1, 1)),
        ("text", text("hello")),
    ]);
    assert_eq!(input_methods::move_absolute(&args), Ok(Token::MoveMouse(5, 6, Coordinate::Abs)));
    assert_eq!(input_methods::move_relative(&args), Ok(Token::MoveMouse(-1, 1, Coordinate::Rel)));
    assert_eq!(input_methods::scroll_vertical(&args), Ok(Token::Scroll(-3, Axis::Vertical)));
    assert_eq!(input_methods::scroll_horizontal(&args), Ok(Token::Scroll(-3, Axis::Horizontal)));
    assert_eq!(input_methods::press_key(&args), Ok(Token::Key(Key::Escape, Direction::Press)));
    assert_eq!(input_methods::release_key(&args), Ok(Token::Key(Key::Escape, Direction::Release)));
    assert_eq!(input_methods::click_key(&args), Ok(Token::Key(Key::Escape, Direction::Click)));
    assert_eq!(input_methods::input_text(&args), Ok(Token::Text(String::from("hello"))));
    assert_eq!(
        input_methods::move_absolute(&none),
        Err(Error::MissingArgument(String::from("absolute_point")))
    );
    assert_eq!(
        input_methods::press_key(&object(vec![("key", text("Nope"))])),
        Err(Error::UnsupportedKey(String::from("Nope")))
    );
    assert_eq!(input_methods::get_mouse_location(Point::new(4, 2)), point(4, 2));
    assert_eq!(input_methods::token_for(Method::HealthCheck, &none), None);
    assert_eq!(
        input_methods::token_for(Method::ClickLeft, &none),
        Some(Ok(Token::Button(Button::Left, Direction::Click)))
    );
}

#[test]
fn input_calls_are_queued_and_answered_at_once() {
    let mut app = App::get(Config::new(1));
    let args = object(vec![("key", text("Tab")), ("length", Json::Integer(2))]);
    let done = r#"{"data":null,"message":"operation successful","status":"success"}"#;
    assert_eq!(answer(handle_call(&mut app, Method::PressKey, &args)), done);
    assert_eq!(answer(handle_call(&mut app, Method::ScrollHorizontal, &args)), done);
    assert_eq!(
        answer(handle_call(&mut app, Method::InputText, &args)),
        r#"{"data":null,"message":"WebSocket argument is missing: text","status":"error"}"#
    );
    assert_eq!(app.next_input(), Some(Token::Key(Key::Tab, Direction::Press)));
    assert_eq!(app.next_input(), Some(Token::Scroll(2, Axis::Horizontal)));
    assert_eq!(app.next_input(), None);
}

#[test]
fn calls_that_need_the_program_are_handed_out() {
    let mut app = App::get(Config::new(1));
    let args = object(vec![
        ("end_point", point(30, 25)),
        ("path", text("shot.png")),
        ("start_point", point(10, 5)),
        ("subpath", text("ok")),
        ("threshold", Json::Integer(1)),
    ]);
    match handle_call(&mut app, Method::FindImage, &args) {
        Outcome::FindImage(query) => assert_eq!(query.threshold, Number::Integer(1)),
        other => panic!("{:?}", other),
    }
    assert!(matches!(handle_call(&mut app, Method::FindImages, &args), Outcome::FindImages(_)));
    assert_eq!(
        handle_call(&mut app, Method::RecognizeText, &args),
        Outcome::RecognizeText(Point::new(10, 5), Size::new(20, 20))
    );
    assert_eq!(
        handle_call(&mut app, Method::SaveFrame, &args),
        Outcome::SaveFrame(String::from("shot.png"))
    );
    assert_eq!(handle_call(&mut app, Method::GetMouseLocation, &args), Outcome::MouseLocation);
    assert_eq!(
        answer(handle_call(&mut app, Method::SaveFrame, &Json::Null)),
        r#"{"data":null,"message":"WebSocket argument is missing: path","status":"error"}"#
    );
    assert_eq!(
        answer(handle_call(&mut app, Method::FindImage, &Json::Null)),
        r#"{"data":null,"message":"WebSocket argument is missing: subpath","status":"error"}"#
    );
}

#[test]
fn request_of_a_parsed_text() {
    let value = object(vec![("args", point(1, 2)), ("method", text("move_absolute"))]);
    assert_eq!(request_of(Ok(value)), Ok((Method::MoveAbsolute, point(1, 2))));
    assert_eq!(
        request_of(Err(String::from("expected value at line 1 column 1"))),
        Err(Error::ProtocolParseError(String::from(
            "Invalid JSON: expected value at line 1 column 1"
        )))
    );
    let missing = Err(Error::ProtocolParseError(String::from("Missing 'method' field")));
    assert_eq!(request_of(Ok(Json::Null)), missing);
    assert_eq!(request_of(Ok(object(vec![("method", Json::Integer(1))]))), missing);
    assert_eq!(
        request_of(Ok(object(vec![("method", text("Click_Left"))]))),
        Err(Error::UnsupportedMethod(String::from("Click_Left")))
    );
}

#[test]
fn health_of_a_value() {
    assert!(is_health_value(&object(vec![("data", probe_response())])));
    assert!(!is_health_value(&probe_response()));
    assert!(!is_health_value(&object(vec![("data", object(vec![("health", text("OK"))]))])));
    assert!(!is_health_value(&Json::Null));
}
