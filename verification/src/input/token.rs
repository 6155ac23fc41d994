use vstd::prelude::*;

use crate::input::key::Key;

verus! {

/// A mouse button.
#[derive(Debug, Clone, Copy, PartialEq, Eq, Structural)]
pub enum Button {
    Left,
    Middle,
    Right,
}

/// What is done with a key or a button.
#[derive(Debug, Clone, Copy, PartialEq, Eq, Structural)]
pub enum Direction {
    Press,
    Release,
    Click,
}

/// Whether a pointer move names a place or a distance.
#[derive(Debug, Clone, Copy, PartialEq, Eq, Structural)]
pub enum Coordinate {
    Abs,
    Rel,
}

/// The axis of a scroll.
#[derive(Debug, Clone, Copy, PartialEq, Eq, Structural)]
pub enum Axis {
    Horizontal,
    Vertical,
}

/// One synthetic input event.
#[derive(Debug, Clone, PartialEq, Eq)]
pub enum Token {
    /// Type the text.
    Text(String),
    /// Press, release or click a key.
    Key(Key, Direction),
    /// Press, release or click a mouse button.
    Button(Button, Direction),
    /// Move the pointer to a place, or by a distance.
    MoveMouse(i32, i32, Coordinate),
    /// Scroll by a length along an axis.
    Scroll(i32, Axis),
}

} // verus!
