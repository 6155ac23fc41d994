use vstd::prelude::*;

use crate::input::key::Key;
use crate::input::token::{Axis, Button, Coordinate, Direction, Token};

verus! {

/// The recorder as the rest of the program sees it: whether it listens.
#[derive(Debug)]
pub struct Engine {
    running: bool,
}

impl Engine {
    /// Whether the recorder listens.
    pub closed spec fn running(&self) -> bool {
        self.running
    }

    pub fn new() -> (engine: Engine)
        ensures
            !engine.running(),
    {
        Engine { running: false }
    }

    /// Starts listening.
    pub fn start(&mut self)
        ensures
            final(self).running(),
    {
        self.running = true;
    }

    /// Stops listening. On a recorder that does not listen this does nothing.
    pub fn stop(&mut self)
        ensures
            !final(self).running(),
    {
        self.running = false;
    }

    pub fn is_running(&self) -> (running: bool)
        ensures
            running == self.running(),
    {
        self.running
    }
}

impl Default for Engine {
    fn default() -> (engine: Engine)
        ensures
            !engine.running(),
    {
        Engine::new()
    }
}

/// A mouse button as the listener reports it.
#[derive(Debug, Clone, Copy, PartialEq, Eq, Structural)]
pub enum RecordedButton {
    Left,
    Right,
    Middle,
    Unknown(u8),
}

/// What the listener reports, positions and wheel turns in whole pixels.
#[derive(Debug, Clone, Copy, PartialEq, Eq, Structural)]
pub enum EventType {
    KeyPress(Key),
    KeyRelease(Key),
    MouseMove { x: i32, y: i32 },
    Wheel { delta_x: i32, delta_y: i32 },
    ButtonPress(RecordedButton),
    ButtonRelease(RecordedButton),
}

/// The button that a recorded button stands for, if it is known.
pub open spec fn button_of(button: RecordedButton) -> Option<Button> {
    match button {
        RecordedButton::Left => Some(Button::Left),
        RecordedButton::Right => Some(Button::Right),
        RecordedButton::Middle => Some(Button::Middle),
        RecordedButton::Unknown(_) => None,
    }
}

/// The tokens that replay an event: one for a key or a known button, one for
/// a pointer move to its place, one for each axis on which the wheel turned,
/// the horizontal first, and none for an unknown button.
pub open spec fn tokens_of(event: EventType) -> Seq<Token> {
    match event {
        EventType::KeyPress(key) => seq![Token::Key(key, Direction::Press)],
        EventType::KeyRelease(key) => seq![Token::Key(key, Direction::Release)],
        EventType::MouseMove { x, y } => seq![Token::MoveMouse(x, y, Coordinate::Abs)],
        EventType::Wheel { delta_x, delta_y } => {
            let across = if delta_x != 0 {
                seq![Token::Scroll(delta_x, Axis::Horizontal)]
            } else {
                Seq::<Token>::empty()
            };
            let down = if delta_y != 0 {
                seq![Token::Scroll(delta_y, Axis::Vertical)]
            } else {
                Seq::<Token>::empty()
            };
            across + down
        },
        EventType::ButtonPress(button) => match button_of(button) {
            Some(known) => seq![Token::Button(known, Direction::Press)],
            None => Seq::<Token>::empty(),
        },
        EventType::ButtonRelease(button) => match button_of(button) {
            Some(known) => seq![Token::Button(known, Direction::Release)],
            None => Seq::<Token>::empty(),
        },
    }
}

fn known_button(button: RecordedButton) -> (r: Option<Button>)
    ensures
        r == button_of(button),
{
    match button {
        RecordedButton::Left => Some(Button::Left),
        RecordedButton::Right => Some(Button::Right),
        RecordedButton::Middle => Some(Button::Middle),
        RecordedButton::Unknown(_) => None,
    }
}

impl EventType {
    /// The tokens that replay the event.
    pub fn to_token(&self) -> (tokens: Vec<Token>)
        ensures
            tokens@ == tokens_of(*self),
    {
        let mut tokens: Vec<Token> = Vec::new();
        match *self {
            EventType::KeyPress(key) => {
                tokens.push(Token::Key(key, Direction::Press));
            },
            EventType::KeyRelease(key) => {
                tokens.push(Token::Key(key, Direction::Release));
            },
            EventType::MouseMove { x, y } => {
                tokens.push(Token::MoveMouse(x, y, Coordinate::Abs));
            },
            EventType::Wheel { delta_x, delta_y } => {
                if delta_x != 0 {
                    tokens.push(Token::Scroll(delta_x, Axis::Horizontal));
                }
                if delta_y != 0 {
                    tokens.push(Token::Scroll(delta_y, Axis::Vertical));
                }
            },
            EventType::ButtonPress(button) => {
                if let Some(known) = known_button(button) {
                    tokens.push(Token::Button(known, Direction::Press));
                }
            },
            EventType::ButtonRelease(button) => {
                if let Some(known) = known_button(button) {
                    tokens.push(Token::Button(known, Direction::Release));
                }
            },
        }
        assert(tokens@ =~= tokens_of(*self));
        tokens
    }
}

} // verus!
