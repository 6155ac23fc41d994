use vstd::prelude::*;

use crate::commands::websocket::utils::{
    as_i32, as_point, get_required_i32, get_required_point, get_required_string, is_invalid,
    is_missing,
};
use crate::error::Error;
use crate::input::key::{is_unsupported_key, key_name, Key};
use crate::input::token::{Axis, Button, Coordinate, Direction, Token};
use crate::json::Json;
use crate::types::point::Point;
use crate::websocket::server::Method;

verus! {

/// `r` is what a pointer move makes of its arguments: the point under `key`
/// as the target, or the reason why there is none.
pub open spec fn is_move(args: Json, key: Seq<char>, coordinate: Coordinate, r: Result<Token, Error>)
    -> bool {
    match args.field(key) {
        None => r matches Err(e) && is_missing(e, key),
        Some(value) => match as_point(value) {
            Some(point) => r == Ok::<Token, Error>(Token::MoveMouse(point.x, point.y, coordinate)),
            None => r matches Err(e) && is_invalid(e, key),
        },
    }
}

/// `r` is what a scroll makes of its arguments: the whole number under
/// `length`, or the reason why there is none.
pub open spec fn is_scroll(args: Json, axis: Axis, r: Result<Token, Error>) -> bool {
    match args.field("length"@) {
        None => r matches Err(e) && is_missing(e, "length"@),
        Some(value) => match as_i32(value) {
            Some(length) => r == Ok::<Token, Error>(Token::Scroll(length, axis)),
            None => r matches Err(e) && is_invalid(e, "length"@),
        },
    }
}

/// `r` is what a key method makes of its arguments: the key whose name is the
/// text under `key`, or the reason why there is none.
pub open spec fn is_key_event(args: Json, direction: Direction, r: Result<Token, Error>) -> bool {
    match args.field("key"@) {
        None => r matches Err(e) && is_missing(e, "key"@),
        Some(value) => match value.text() {
            None => r matches Err(e) && is_invalid(e, "key"@),
            Some(name) => match r {
                Ok(token) => token matches Token::Key(key, done) && done == direction && key_name(
                    key,
                ) == Some(name),
                Err(e) => is_unsupported_key(e, name) && forall|key: Key|
                    key_name(key) != Some(name),
            },
        },
    }
}

/// `r` is what text input makes of its arguments: the text under `text`, or
/// the reason why there is none.
pub open spec fn is_typing(args: Json, r: Result<Token, Error>) -> bool {
    match args.field("text"@) {
        None => r matches Err(e) && is_missing(e, "text"@),
        Some(value) => match value.text() {
            None => r matches Err(e) && is_invalid(e, "text"@),
            Some(text) => r matches Ok(Token::Text(typed)) && typed@ == text,
        },
    }
}

pub fn click_left(_args: &Json) -> (r: Result<Token, Error>)
    ensures
        r == Ok::<Token, Error>(Token::Button(Button::Left, Direction::Click)),
{
    Ok(Token::Button(Button::Left, Direction::Click))
}

pub fn click_right(_args: &Json) -> (r: Result<Token, Error>)
    ensures
        r == Ok::<Token, Error>(Token::Button(Button::Right, Direction::Click)),
{
    Ok(Token::Button(Button::Right, Direction::Click))
}

pub fn press_left(_args: &Json) -> (r: Result<Token, Error>)
    ensures
        r == Ok::<Token, Error>(Token::Button(Button::Left, Direction::Press)),
{
    Ok(Token::Button(Button::Left, Direction::Press))
}

pub fn press_right(_args: &Json) -> (r: Result<Token, Error>)
    ensures
        r == Ok::<Token, Error>(Token::Button(Button::Right, Direction::Press)),
{
    Ok(Token::Button(Button::Right, Direction::Press))
}

pub fn release_left(_args: &Json) -> (r: Result<Token, Error>)
    ensures
        r == Ok::<Token, Error>(Token::Button(Button::Left, Direction::Release)),
{
    Ok(Token::Button(Button::Left, Direction::Release))
}

pub fn release_right(_args: &Json) -> (r: Result<Token, Error>)
    ensures
        r == Ok::<Token, Error>(Token::Button(Button::Right, Direction::Release)),
{
    Ok(Token::Button(Button::Right, Direction::Release))
}

/// Moves the pointer to the point under `absolute_point`.
pub fn move_absolute(args: &Json) -> (r: Result<Token, Error>)
    ensures
        is_move(*args, "absolute_point"@, Coordinate::Abs, r),
{
    match get_required_point(args, "absolute_point") {
        Ok(point) => Ok(Token::MoveMouse(point.x, point.y, Coordinate::Abs)),
        Err(e) => Err(e),
    }
}

/// Moves the pointer by the distance under `offset`.
pub fn move_relative(args: &Json) -> (r: Result<Token, Error>)
    ensures
        is_move(*args, "offset"@, Coordinate::Rel, r),
{
    match get_required_point(args, "offset") {
        Ok(point) => Ok(Token::MoveMouse(point.x, point.y, Coordinate::Rel)),
        Err(e) => Err(e),
    }
}

/// The response to a request for the pointer's place: the place as an object
/// with the members `x` and `y`.
pub fn get_mouse_location(location: Point) -> (json: Json)
    ensures
        crate::commands::websocket::frame::is_point_json(json, location),
{
    crate::commands::websocket::frame::point_json(location)
}

/// Scrolls up or down by the length under `length`.
pub fn scroll_vertical(args: &Json) -> (r: Result<Token, Error>)
    ensures
        is_scroll(*args, Axis::Vertical, r),
{
    match get_required_i32(args, "length") {
        Ok(length) => Ok(Token::Scroll(length, Axis::Vertical)),
        Err(e) => Err(e),
    }
}

/// Scrolls left or right by the length under `length`.
pub fn scroll_horizontal(args: &Json) -> (r: Result<Token, Error>)
    ensures
        is_scroll(*args, Axis::Horizontal, r),
{
    match get_required_i32(args, "length") {
        Ok(length) => Ok(Token::Scroll(length, Axis::Horizontal)),
        Err(e) => Err(e),
    }
}

fn key_token(args: &Json, direction: Direction) -> (r: Result<Token, Error>)
    ensures
        is_key_event(*args, direction, r),
{
    let name: String = match get_required_string(args, "key") {
        Ok(name) => name,
        Err(e) => { return Err(e); },
    };
    match Key::from_str(name.as_str()) {
        Ok(key) => Ok(Token::Key(key, direction)),
        Err(e) => Err(e),
    }
}

/// Presses the key named under `key`.
pub fn press_key(args: &Json) -> (r: Result<Token, Error>)
    ensures
        is_key_event(*args, Direction::Press, r),
{
    key_token(args, Direction::Press)
}

/// Releases the key named under `key`.
pub fn release_key(args: &Json) -> (r: Result<Token, Error>)
    ensures
        is_key_event(*args, Direction::Release, r),
{
    key_token(args, Direction::Release)
}

/// Clicks the key named under `key`.
pub fn click_key(args: &Json) -> (r: Result<Token, Error>)
    ensures
        is_key_event(*args, Direction::Click, r),
{
    key_token(args, Direction::Click)
}

/// Types the text under `text`.
pub fn input_text(args: &Json) -> (r: Result<Token, Error>)
    ensures
        is_typing(*args, r),
{
    match get_required_string(args, "text") {
        Ok(text) => Ok(Token::Text(text)),
        Err(e) => Err(e),
    }
}

/// Whether a method submits an input token.
pub open spec fn is_input_method(method: Method) -> bool {
    match method {
        Method::ClickLeft
        | Method::ClickRight
        | Method::PressLeft
        | Method::PressRight
        | Method::ReleaseLeft
        | Method::ReleaseRight
        | Method::MoveAbsolute
        | Method::MoveRelative
        | Method::ScrollVertical
        | Method::ScrollHorizontal
        | Method::PressKey
        | Method::ReleaseKey
        | Method::ClickKey
        | Method::InputText => true,
        _ => false,
    }
}

/// `r` is the token that an input method makes of its arguments, or the
/// reason why it makes none.
pub open spec fn is_token_for(method: Method, args: Json, r: Result<Token, Error>) -> bool {
    match method {
        Method::ClickLeft => r == Ok::<Token, Error>(Token::Button(Button::Left, Direction::Click)),
        Method::ClickRight => r == Ok::<Token, Error>(
            Token::Button(Button::Right, Direction::Click),
        ),
        Method::PressLeft => r == Ok::<Token, Error>(Token::Button(Button::Left, Direction::Press)),
        Method::PressRight => r == Ok::<Token, Error>(
            Token::Button(Button::Right, Direction::Press),
        ),
        Method::ReleaseLeft => r == Ok::<Token, Error>(
            Token::Button(Button::Left, Direction::Release),
        ),
        Method::ReleaseRight => r == Ok::<Token, Error>(
            Token::Button(Button::Right, Direction::Release),
        ),
        Method::MoveAbsolute => is_move(args, "absolute_point"@, Coordinate::Abs, r),
        Method::MoveRelative => is_move(args, "offset"@, Coordinate::Rel, r),
        Method::ScrollVertical => is_scroll(args, Axis::Vertical, r),
        Method::ScrollHorizontal => is_scroll(args, Axis::Horizontal, r),
        Method::PressKey => is_key_event(args, Direction::Press, r),
        Method::ReleaseKey => is_key_event(args, Direction::Release, r),
        Method::ClickKey => is_key_event(args, Direction::Click, r),
        Method::InputText => is_typing(args, r),
        _ => false,
    }
}

/// The token that an input method makes of its arguments; nothing for a
/// method that is no input method.
pub fn token_for(method: Method, args: &Json) -> (r: Option<Result<Token, Error>>)
    ensures
        match r {
            Some(made) => is_input_method(method) && is_token_for(method, *args, made),
            None => !is_input_method(method),
        },
{
    match method {
        Method::ClickLeft => Some(click_left(args)),
        Method::ClickRight => Some(click_right(args)),
        Method::PressLeft => Some(press_left(args)),
        Method::PressRight => Some(press_right(args)),
        Method::ReleaseLeft => Some(release_left(args)),
        Method::ReleaseRight => Some(release_right(args)),
        Method::MoveAbsolute => Some(move_absolute(args)),
        Method::MoveRelative => Some(move_relative(args)),
        Method::ScrollVertical => Some(scroll_vertical(args)),
        Method::ScrollHorizontal => Some(scroll_horizontal(args)),
        Method::PressKey => Some(press_key(args)),
        Method::ReleaseKey => Some(release_key(args)),
        Method::ClickKey => Some(click_key(args)),
        Method::InputText => Some(input_text(args)),
        _ => None,
    }
}

} // verus!
