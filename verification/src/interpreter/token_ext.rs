use vstd::prelude::*;
use vstd::string::StringExecFns;

use crate::error::Error;
use crate::input::key::key_name;
use crate::input::token::{Axis, Button, Coordinate, Direction, Token};
use crate::text::{decimal, decimal_text};

verus! {

/// The method of the script client that does something to a key.
pub open spec fn key_method(direction: Direction) -> Seq<char> {
    match direction {
        Direction::Press => "press_key"@,
        Direction::Release => "release_key"@,
        Direction::Click => "click_key"@,
    }
}

/// The call of the script client that does something to a mouse button, if
/// scripts can: the left and the right button only.
pub open spec fn button_call(button: Button, direction: Direction) -> Option<Seq<char>> {
    match (button, direction) {
        (Button::Left, Direction::Press) => Some("press_left()"@),
        (Button::Left, Direction::Release) => Some("release_left()"@),
        (Button::Left, Direction::Click) => Some("click_left()"@),
        (Button::Right, Direction::Press) => Some("press_right()"@),
        (Button::Right, Direction::Release) => Some("release_right()"@),
        (Button::Right, Direction::Click) => Some("click_right()"@),
        (Button::Middle, _) => None,
    }
}

/// The Python statement that replays a token, without the client it is
/// called on; none for the middle mouse button and for a key without a name.
pub open spec fn statement_of(token: Token) -> Option<Seq<char>> {
    match token {
        Token::Text(text) => Some("input_text(\"text="@ + text@ + "\")"@),
        Token::Key(key, direction) => match key_name(key) {
            Some(name) => Some(key_method(direction) + "(key=Key."@ + name + ")"@),
            None => None,
        },
        Token::Button(button, direction) => button_call(button, direction),
        Token::MoveMouse(x, y, Coordinate::Abs) => Some(
            "move_absolute(absolute_point=Point(x="@ + decimal(x as int) + ", y="@ + decimal(
                y as int,
            ) + "))"@,
        ),
        Token::MoveMouse(x, y, Coordinate::Rel) => Some(
            "move_relative(offset=Point(x="@ + decimal(x as int) + ", y="@ + decimal(y as int)
                + "))"@,
        ),
        Token::Scroll(length, Axis::Horizontal) => Some(
            "scroll_horizontal(length="@ + decimal(length as int) + ")"@,
        ),
        Token::Scroll(length, Axis::Vertical) => Some(
            "scroll_vertical(length="@ + decimal(length as int) + ")"@,
        ),
    }
}

/// Why a token has no statement.
pub open spec fn statement_fault(token: Token) -> Error {
    match token {
        Token::Key(_, _) => Error::UnnamedKey,
        _ => Error::UnsupportedButton,
    }
}

/// Writing a token down as a statement of a script.
pub trait TokenExt {
    /// The token.
    spec fn token(&self) -> Token;

    /// The Python statement that replays the token.
    fn to_python_statement(&self) -> (r: Result<String, Error>)
        ensures
            match r {
                Ok(statement) => statement_of(self.token()) == Some(statement@),
                Err(e) => statement_of(self.token()) is None && e == statement_fault(self.token()),
            },
    ;
}

fn key_method_name(direction: Direction) -> (name: &'static str)
    ensures
        name@ == key_method(direction),
{
    match direction {
        Direction::Press => "press_key",
        Direction::Release => "release_key",
        Direction::Click => "click_key",
    }
}

fn button_statement(button: Button, direction: Direction) -> (call: Option<&'static str>)
    ensures
        match call {
            Some(text) => button_call(button, direction) == Some(text@),
            None => button_call(button, direction) is None,
        },
{
    match (button, direction) {
        (Button::Left, Direction::Press) => Some("press_left()"),
        (Button::Left, Direction::Release) => Some("release_left()"),
        (Button::Left, Direction::Click) => Some("click_left()"),
        (Button::Right, Direction::Press) => Some("press_right()"),
        (Button::Right, Direction::Release) => Some("release_right()"),
        (Button::Right, Direction::Click) => Some("click_right()"),
        (Button::Middle, _) => None,
    }
}

impl TokenExt for Token {
    open spec fn token(&self) -> Token {
        *self
    }

    fn to_python_statement(&self) -> (r: Result<String, Error>) {
        match self {
            Token::Text(text) => Ok(
                String::from_str("input_text(\"text=").concat(text.as_str()).concat("\")"),
            ),
            Token::Key(key, direction) => match key.name() {
                Some(name) => Ok(
                    String::from_str(key_method_name(*direction)).concat("(key=Key.").concat(
                        name,
                    ).concat(")"),
                ),
                None => Err(Error::UnnamedKey),
            },
            Token::Button(button, direction) => match button_statement(*button, *direction) {
                Some(call) => Ok(String::from_str(call)),
                None => Err(Error::UnsupportedButton),
            },
            Token::MoveMouse(x, y, Coordinate::Abs) => Ok(
                String::from_str("move_absolute(absolute_point=Point(x=").concat(
                    decimal_text(*x as i64).as_str(),
                ).concat(", y=").concat(decimal_text(*y as i64).as_str()).concat("))"),
            ),
            Token::MoveMouse(x, y, Coordinate::Rel) => Ok(
                String::from_str("move_relative(offset=Point(x=").concat(
                    decimal_text(*x as i64).as_str(),
                ).concat(", y=").concat(decimal_text(*y as i64).as_str()).concat("))"),
            ),
            Token::Scroll(length, Axis::Horizontal) => Ok(
                String::from_str("scroll_horizontal(length=").concat(
                    decimal_text(*length as i64).as_str(),
                ).concat(")"),
            ),
            Token::Scroll(length, Axis::Vertical) => Ok(
                String::from_str("scroll_vertical(length=").concat(
                    decimal_text(*length as i64).as_str(),
                ).concat(")"),
            ),
        }
    }
}

} // verus!
