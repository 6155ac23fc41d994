use vstd::prelude::*;
use vstd::string::StringExecFns;

use crate::error::Error;
use crate::input::key::{is_unsupported_key, key_name, Key};
use crate::input::token::{Axis, Button, Coordinate, Direction, Token};
use crate::types::point::Point;

verus! {

/// The one channel through which synthetic input goes: tokens wait here in
/// the order in which they were submitted, and a single consumer takes them
/// out in that order.
#[derive(Debug)]
pub struct Engine {
    pending: Vec<Token>,
}

impl Engine {
    /// The tokens that wait, oldest first.
    pub closed spec fn view(&self) -> Seq<Token> {
        self.pending@
    }

    /// An engine with nothing waiting.
    pub fn new() -> (engine: Engine)
        ensures
            engine@ == Seq::<Token>::empty(),
    {
        Engine { pending: Vec::new() }
    }

    fn send(&mut self, token: Token)
        ensures
            final(self)@ == old(self)@.push(token),
    {
        self.pending.push(token);
    }

    /// Submits the tokens, in their order.
    pub fn execute_token(&mut self, tokens: Vec<Token>)
        ensures
            final(self)@ == old(self)@ + tokens@,
    {
        let mut tokens = tokens;
        self.pending.append(&mut tokens);
    }

    /// Takes out the token that has waited longest, if any waits.
    pub fn next(&mut self) -> (token: Option<Token>)
        ensures
            match token {
                Some(first) => old(self)@.len() > 0 && first == old(self)@[0] && final(self)@
                    == old(self)@.drop_first(),
                None => old(self)@.len() == 0 && final(self)@ == old(self)@,
            },
    {
        if self.pending.len() == 0 {
            None
        } else {
            let first: Token = self.pending.remove(0);
            assert(self.pending@ =~= old(self).pending@.drop_first());
            Some(first)
        }
    }

    pub fn click_left(&mut self)
        ensures
            final(self)@ == old(self)@.push(Token::Button(Button::Left, Direction::Click)),
    {
        self.send(Token::Button(Button::Left, Direction::Click));
    }

    pub fn click_right(&mut self)
        ensures
            final(self)@ == old(self)@.push(Token::Button(Button::Right, Direction::Click)),
    {
        self.send(Token::Button(Button::Right, Direction::Click));
    }

    pub fn press_left(&mut self)
        ensures
            final(self)@ == old(self)@.push(Token::Button(Button::Left, Direction::Press)),
    {
        self.send(Token::Button(Button::Left, Direction::Press));
    }

    pub fn press_right(&mut self)
        ensures
            final(self)@ == old(self)@.push(Token::Button(Button::Right, Direction::Press)),
    {
        self.send(Token::Button(Button::Right, Direction::Press));
    }

    pub fn release_left(&mut self)
        ensures
            final(self)@ == old(self)@.push(Token::Button(Button::Left, Direction::Release)),
    {
        self.send(Token::Button(Button::Left, Direction::Release));
    }

    pub fn release_right(&mut self)
        ensures
            final(self)@ == old(self)@.push(Token::Button(Button::Right, Direction::Release)),
    {
        self.send(Token::Button(Button::Right, Direction::Release));
    }

    pub fn move_absolute(&mut self, point: &Point)
        ensures
            final(self)@ == old(self)@.push(Token::MoveMouse(point.x, point.y, Coordinate::Abs)),
    {
        self.send(Token::MoveMouse(point.x, point.y, Coordinate::Abs));
    }

    pub fn move_relative(&mut self, point: &Point)
        ensures
            final(self)@ == old(self)@.push(Token::MoveMouse(point.x, point.y, Coordinate::Rel)),
    {
        self.send(Token::MoveMouse(point.x, point.y, Coordinate::Rel));
    }

    pub fn scroll_vertical(&mut self, length: i32)
        ensures
            final(self)@ == old(self)@.push(Token::Scroll(length, Axis::Vertical)),
    {
        self.send(Token::Scroll(length, Axis::Vertical));
    }

    pub fn scroll_horizontal(&mut self, length: i32)
        ensures
            final(self)@ == old(self)@.push(Token::Scroll(length, Axis::Horizontal)),
    {
        self.send(Token::Scroll(length, Axis::Horizontal));
    }

    fn key_event(&mut self, key: &str, direction: Direction) -> (r: Result<(), Error>)
        ensures
            match r {
                Ok(_) => exists|found: Key| #[trigger]
                    key_name(found) == Some(key@) && final(self)@ == old(self)@.push(
                        Token::Key(found, direction),
                    ),
                Err(e) => is_unsupported_key(e, key@) && final(self)@ == old(self)@,
            },
    {
        match Key::from_str(key) {
            Ok(found) => {
                self.send(Token::Key(found, direction));
                assert(key_name(found) == Some(key@));
                Ok(())
            },
            Err(e) => Err(e),
        }
    }

    /// Presses the key of the given name. A name that no key has changes
    /// nothing.
    pub fn press_key(&mut self, key: &str) -> (r: Result<(), Error>)
        ensures
            match r {
                Ok(_) => exists|found: Key| #[trigger]
                    key_name(found) == Some(key@) && final(self)@ == old(self)@.push(
                        Token::Key(found, Direction::Press),
                    ),
                Err(e) => is_unsupported_key(e, key@) && final(self)@ == old(self)@,
            },
    {
        self.key_event(key, Direction::Press)
    }

    /// Releases the key of the given name.
    pub fn release_key(&mut self, key: &str) -> (r: Result<(), Error>)
        ensures
            match r {
                Ok(_) => exists|found: Key| #[trigger]
                    key_name(found) == Some(key@) && final(self)@ == old(self)@.push(
                        Token::Key(found, Direction::Release),
                    ),
                Err(e) => is_unsupported_key(e, key@) && final(self)@ == old(self)@,
            },
    {
        self.key_event(key, Direction::Release)
    }

    /// Clicks the key of the given name.
    pub fn click_key(&mut self, key: &str) -> (r: Result<(), Error>)
        ensures
            match r {
                Ok(_) => exists|found: Key| #[trigger]
                    key_name(found) == Some(key@) && final(self)@ == old(self)@.push(
                        Token::Key(found, Direction::Click),
                    ),
                Err(e) => is_unsupported_key(e, key@) && final(self)@ == old(self)@,
            },
    {
        self.key_event(key, Direction::Click)
    }

    /// Types the text.
    pub fn input_text(&mut self, text: &str)
        ensures
            final(self)@.len() == old(self)@.len() + 1,
            final(self)@.drop_last() == old(self)@,
            final(self)@.last() matches Token::Text(typed) && typed@ == text@,
    {
        self.send(Token::Text(String::from_str(text)));
        assert(self@.drop_last() =~= old(self)@);
    }
}

impl Default for Engine {
    fn default() -> (engine: Engine)
        ensures
            engine@ == Seq::<Token>::empty(),
    {
        Engine::new()
    }
}

/// Tokens leave the engine in the order in which they were submitted: what
/// is submitted to an empty engine is the next to be taken.
pub proof fn lemma_first_in_first_out(waiting: Seq<Token>, first: Token, second: Token)
    ensures
        waiting.push(first).push(second)[waiting.len() as int] == first,
        waiting.push(first).push(second)[waiting.len() as int + 1] == second,
        Seq::<Token>::empty().push(first).push(second).drop_first() == Seq::<Token>::empty().push(
            second,
        ),
{
    assert(Seq::<Token>::empty().push(first).push(second).drop_first() =~= Seq::<
        Token,
    >::empty().push(second));
}

} // verus!
