use vstd::prelude::*;
use vstd::string::StringExecFns;

use crate::error::Error;
use crate::text::text_eq;

verus! {

/// The keys that the protocol and the recorder know.
#[derive(Debug, Clone, Copy, PartialEq, Eq, Structural)]
pub enum Key {
    Alt,
    Backspace,
    CapsLock,
    Control,
    Delete,
    DownArrow,
    End,
    Escape,
    F1,
    F2,
    F3,
    F4,
    F5,
    F6,
    F7,
    F8,
    F9,
    F10,
    F11,
    F12,
    F13,
    F14,
    F15,
    F16,
    F17,
    F18,
    F19,
    F20,
    Home,
    LeftArrow,
    Meta,
    PageDown,
    PageUp,
    Return,
    RightArrow,
    Shift,
    Space,
    Tab,
    UpArrow,
    LeftBracket,
    RightBracket,
    Num1,
    Num2,
    Num3,
    Num4,
    Num5,
    Num6,
    Num7,
    Num8,
    Num9,
    Num0,
    Minus,
    Equal,
    Q,
    W,
    E,
    R,
    T,
    Y,
    U,
    I,
    O,
    P,
    A,
    S,
    D,
    F,
    G,
    H,
    J,
    K,
    L,
    Z,
    X,
    C,
    V,
    B,
    N,
    M,
    SemiColon,
    Quote,
    BackSlash,
    Comma,
    Dot,
    Slash,
    KpMinus,
    KpPlus,
    KpMultiply,
    KpDivide,
    Kp0,
    Kp1,
    Kp2,
    Kp3,
    Kp4,
    Kp5,
    Kp6,
    Kp7,
    Kp8,
    Kp9,
    KpDelete,
    BackQuote,
    Insert,
    PrintScreen,
    ScrollLock,
    Pause,
    NumLock,
}

/// The name by which a key is asked for, if it has one. Names are
/// case-sensitive. The key `M` has none.
pub open spec fn key_name(key: Key) -> Option<Seq<char>> {
    match key {
        Key::Alt => Some("Alt"@),
        Key::Backspace => Some("Backspace"@),
        Key::CapsLock => Some("CapsLock"@),
        Key::Control => Some("Control"@),
        Key::Delete => Some("Delete"@),
        Key::DownArrow => Some("DownArrow"@),
        Key::End => Some("End"@),
        Key::Escape => Some("Escape"@),
        Key::F1 => Some("F1"@),
        Key::F2 => Some("F2"@),
        Key::F3 => Some("F3"@),
        Key::F4 => Some("F4"@),
        Key::F5 => Some("F5"@),
        Key::F6 => Some("F6"@),
        Key::F7 => Some("F7"@),
        Key::F8 => Some("F8"@),
        Key::F9 => Some("F9"@),
        Key::F10 => Some("F10"@),
        Key::F11 => Some("F11"@),
        Key::F12 => Some("F12"@),
        Key::F13 => Some("F13"@),
        Key::F14 => Some("F14"@),
        Key::F15 => Some("F15"@),
        Key::F16 => Some("F16"@),
        Key::F17 => Some("F17"@),
        Key::F18 => Some("F18"@),
        Key::F19 => Some("F19"@),
        Key::F20 => Some("F20"@),
        Key::Home => Some("Home"@),
        Key::LeftArrow => Some("LeftArrow"@),
        Key::Meta => Some("Meta"@),
        Key::PageDown => Some("PageDown"@),
        Key::PageUp => Some("PageUp"@),
        Key::Return => Some("Return"@),
        Key::RightArrow => Some("RightArrow"@),
        Key::Shift => Some("Shift"@),
        Key::Space => Some("Space"@),
        Key::Tab => Some("Tab"@),
        Key::UpArrow => Some("UpArrow"@),
        Key::LeftBracket => Some("LeftBracket"@),
        Key::RightBracket => Some("RightBracket"@),
        Key::Num1 => Some("Num1"@),
        Key::Num2 => Some("Num2"@),
        Key::Num3 => Some("Num3"@),
        Key::Num4 => Some("Num4"@),
        Key::Num5 => Some("Num5"@),
        Key::Num6 => Some("Num6"@),
        Key::Num7 => Some("Num7"@),
        Key::Num8 => Some("Num8"@),
        Key::Num9 => Some("Num9"@),
        Key::Num0 => Some("Num0"@),
        Key::Minus => Some("Minus"@),
        Key::Equal => Some("Equal"@),
        Key::Q => Some("Q"@),
        Key::W => Some("W"@),
        Key::E => Some("E"@),
        Key::R => Some("R"@),
        Key::T => Some("T"@),
        Key::Y => Some("Y"@),
        Key::U => Some("U"@),
        Key::I => Some("I"@),
        Key::O => Some("O"@),
        Key::P => Some("P"@),
        Key::A => Some("A"@),
        Key::S => Some("S"@),
        Key::D => Some("D"@),
        Key::F => Some("F"@),
        Key::G => Some("G"@),
        Key::H => Some("H"@),
        Key::J => Some("J"@),
        Key::K => Some("K"@),
        Key::L => Some("L"@),
        Key::Z => Some("Z"@),
        Key::X => Some("X"@),
        Key::C => Some("C"@),
        Key::V => Some("V"@),
        Key::B => Some("B"@),
        Key::N => Some("N"@),
        Key::M => None,
        Key::SemiColon => Some("SemiColon"@),
        Key::Quote => Some("Quote"@),
        Key::BackSlash => Some("BackSlash"@),
        Key::Comma => Some("Comma"@),
        Key::Dot => Some("Dot"@),
        Key::Slash => Some("Slash"@),
        Key::KpMinus => Some("KpMinus"@),
        Key::KpPlus => Some("KpPlus"@),
        Key::KpMultiply => Some("KpMultiply"@),
        Key::KpDivide => Some("KpDivide"@),
        Key::Kp0 => Some("Kp0"@),
        Key::Kp1 => Some("Kp1"@),
        Key::Kp2 => Some("Kp2"@),
        Key::Kp3 => Some("Kp3"@),
        Key::Kp4 => Some("Kp4"@),
        Key::Kp5 => Some("Kp5"@),
        Key::Kp6 => Some("Kp6"@),
        Key::Kp7 => Some("Kp7"@),
        Key::Kp8 => Some("Kp8"@),
        Key::Kp9 => Some("Kp9"@),
        Key::KpDelete => Some("KpDelete"@),
        Key::BackQuote => Some("BackQuote"@),
        Key::Insert => Some("Insert"@),
        Key::PrintScreen => Some("PrintScreen"@),
        Key::ScrollLock => Some("ScrollLock"@),
        Key::Pause => Some("Pause"@),
        Key::NumLock => Some("NumLock"@),
    }
}

/// The error is that of a key that is not supported.
pub open spec fn is_unsupported_key(error: Error, name: Seq<char>) -> bool {
    error matches Error::UnsupportedKey(told) && told@ == name
}

impl Key {
    /// The name by which the key is asked for, if it has one.
    pub fn name(&self) -> (name: Option<&'static str>)
        ensures
            match name {
                Some(text) => key_name(*self) == Some(text@),
                None => key_name(*self) is None,
            },
    {
        match self {
            Key::Alt => Some("Alt"),
            Key::Backspace => Some("Backspace"),
            Key::CapsLock => Some("CapsLock"),
            Key::Control => Some("Control"),
            Key::Delete => Some("Delete"),
            Key::DownArrow => Some("DownArrow"),
            Key::End => Some("End"),
            Key::Escape => Some("Escape"),
            Key::F1 => Some("F1"),
            Key::F2 => Some("F2"),
            Key::F3 => Some("F3"),
            Key::F4 => Some("F4"),
            Key::F5 => Some("F5"),
            Key::F6 => Some("F6"),
            Key::F7 => Some("F7"),
            Key::F8 => Some("F8"),
            Key::F9 => Some("F9"),
            Key::F10 => Some("F10"),
            Key::F11 => Some("F11"),
            Key::F12 => Some("F12"),
            Key::F13 => Some("F13"),
            Key::F14 => Some("F14"),
            Key::F15 => Some("F15"),
            Key::F16 => Some("F16"),
            Key::F17 => Some("F17"),
            Key::F18 => Some("F18"),
            Key::F19 => Some("F19"),
            Key::F20 => Some("F20"),
            Key::Home => Some("Home"),
            Key::LeftArrow => Some("LeftArrow"),
            Key::Meta => Some("Meta"),
            Key::PageDown => Some("PageDown"),
            Key::PageUp => Some("PageUp"),
            Key::Return => Some("Return"),
            Key::RightArrow => Some("RightArrow"),
            Key::Shift => Some("Shift"),
            Key::Space => Some("Space"),
            Key::Tab => Some("Tab"),
            Key::UpArrow => Some("UpArrow"),
            Key::LeftBracket => Some("LeftBracket"),
            Key::RightBracket => Some("RightBracket"),
            Key::Num1 => Some("Num1"),
            Key::Num2 => Some("Num2"),
            Key::Num3 => Some("Num3"),
            Key::Num4 => Some("Num4"),
            Key::Num5 => Some("Num5"),
            Key::Num6 => Some("Num6"),
            Key::Num7 => Some("Num7"),
            Key::Num8 => Some("Num8"),
            Key::Num9 => Some("Num9"),
            Key::Num0 => Some("Num0"),
            Key::Minus => Some("Minus"),
            Key::Equal => Some("Equal"),
            Key::Q => Some("Q"),
            Key::W => Some("W"),
            Key::E => Some("E"),
            Key::R => Some("R"),
            Key::T => Some("T"),
            Key::Y => Some("Y"),
            Key::U => Some("U"),
            Key::I => Some("I"),
            Key::O => Some("O"),
            Key::P => Some("P"),
            Key::A => Some("A"),
            Key::S => Some("S"),
            Key::D => Some("D"),
            Key::F => Some("F"),
            Key::G => Some("G"),
            Key::H => Some("H"),
            Key::J => Some("J"),
            Key::K => Some("K"),
            Key::L => Some("L"),
            Key::Z => Some("Z"),
            Key::X => Some("X"),
            Key::C => Some("C"),
            Key::V => Some("V"),
            Key::B => Some("B"),
            Key::N => Some("N"),
            Key::M => None,
            Key::SemiColon => Some("SemiColon"),
            Key::Quote => Some("Quote"),
            Key::BackSlash => Some("BackSlash"),
            Key::Comma => Some("Comma"),
            Key::Dot => Some("Dot"),
            Key::Slash => Some("Slash"),
            Key::KpMinus => Some("KpMinus"),
            Key::KpPlus => Some("KpPlus"),
            Key::KpMultiply => Some("KpMultiply"),
            Key::KpDivide => Some("KpDivide"),
            Key::Kp0 => Some("Kp0"),
            Key::Kp1 => Some("Kp1"),
            Key::Kp2 => Some("Kp2"),
            Key::Kp3 => Some("Kp3"),
            Key::Kp4 => Some("Kp4"),
            Key::Kp5 => Some("Kp5"),
            Key::Kp6 => Some("Kp6"),
            Key::Kp7 => Some("Kp7"),
            Key::Kp8 => Some("Kp8"),
            Key::Kp9 => Some("Kp9"),
            Key::KpDelete => Some("KpDelete"),
            Key::BackQuote => Some("BackQuote"),
            Key::Insert => Some("Insert"),
            Key::PrintScreen => Some("PrintScreen"),
            Key::ScrollLock => Some("ScrollLock"),
            Key::Pause => Some("Pause"),
            Key::NumLock => Some("NumLock"),
        }
    }

    /// The key of the given name.
    pub fn from_str(s: &str) -> (r: Result<Key, Error>)
        ensures
            match r {
                Ok(key) => key_name(key) == Some(s@),
                Err(e) => is_unsupported_key(e, s@) && forall|key: Key| key_name(key) != Some(s@),
            },
    {
        if text_eq(s, "Alt") {
            return Ok(Key::Alt);
        }
        if text_eq(s, "Backspace") {
            return Ok(Key::Backspace);
        }
        if text_eq(s, "CapsLock") {
            return Ok(Key::CapsLock);
        }
        if text_eq(s, "Control") {
            return Ok(Key::Control);
        }
        if text_eq(s, "Delete") {
            return Ok(Key::Delete);
        }
        if text_eq(s, "DownArrow") {
            return Ok(Key::DownArrow);
        }
        if text_eq(s, "End") {
            return Ok(Key::End);
        }
        if text_eq(s, "Escape") {
            return Ok(Key::Escape);
        }
        if text_eq(s, "F1") {
            return Ok(Key::F1);
        }
        if text_eq(s, "F2") {
            return Ok(Key::F2);
        }
        if text_eq(s, "F3") {
            return Ok(Key::F3);
        }
        if text_eq(s, "F4") {
            return Ok(Key::F4);
        }
        if text_eq(s, "F5") {
            return Ok(Key::F5);
        }
        if text_eq(s, "F6") {
            return Ok(Key::F6);
        }
        if text_eq(s, "F7") {
            return Ok(Key::F7);
        }
        if text_eq(s, "F8") {
            return Ok(Key::F8);
        }
        if text_eq(s, "F9") {
            return Ok(Key::F9);
        }
        if text_eq(s, "F10") {
            return Ok(Key::F10);
        }
        if text_eq(s, "F11") {
            return Ok(Key::F11);
        }
        if text_eq(s, "F12") {
            return Ok(Key::F12);
        }
        if text_eq(s, "F13") {
            return Ok(Key::F13);
        }
        if text_eq(s, "F14") {
            return Ok(Key::F14);
        }
        if text_eq(s, "F15") {
            return Ok(Key::F15);
        }
        if text_eq(s, "F16") {
            return Ok(Key::F16);
        }
        if text_eq(s, "F17") {
            return Ok(Key::F17);
        }
        if text_eq(s, "F18") {
            return Ok(Key::F18);
        }
        if text_eq(s, "F19") {
            return Ok(Key::F19);
        }
        if text_eq(s, "F20") {
            return Ok(Key::F20);
        }
        if text_eq(s, "Home") {
            return Ok(Key::Home);
        }
        if text_eq(s, "LeftArrow") {
            return Ok(Key::LeftArrow);
        }
        if text_eq(s, "Meta") {
            return Ok(Key::Meta);
        }
        if text_eq(s, "PageDown") {
            return Ok(Key::PageDown);
        }
        if text_eq(s, "PageUp") {
            return Ok(Key::PageUp);
        }
        if text_eq(s, "Return") {
            return Ok(Key::Return);
        }
        if text_eq(s, "RightArrow") {
            return Ok(Key::RightArrow);
        }
        if text_eq(s, "Shift") {
            return Ok(Key::Shift);
        }
        if text_eq(s, "Space") {
            return Ok(Key::Space);
        }
        if text_eq(s, "Tab") {
            return Ok(Key::Tab);
        }
        if text_eq(s, "UpArrow") {
            return Ok(Key::UpArrow);
        }
        if text_eq(s, "LeftBracket") {
            return Ok(Key::LeftBracket);
        }
        if text_eq(s, "RightBracket") {
            return Ok(Key::RightBracket);
        }
        if text_eq(s, "Num1") {
            return Ok(Key::Num1);
        }
        if text_eq(s, "Num2") {
            return Ok(Key::Num2);
        }
        if text_eq(s, "Num3") {
            return Ok(Key::Num3);
        }
        if text_eq(s, "Num4") {
            return Ok(Key::Num4);
        }
        if text_eq(s, "Num5") {
            return Ok(Key::Num5);
        }
        if text_eq(s, "Num6") {
            return Ok(Key::Num6);
        }
        if text_eq(s, "Num7") {
            return Ok(Key::Num7);
        }
        if text_eq(s, "Num8") {
            return Ok(Key::Num8);
        }
        if text_eq(s, "Num9") {
            return Ok(Key::Num9);
        }
        if text_eq(s, "Num0") {
            return Ok(Key::Num0);
        }
        if text_eq(s, "Minus") {
            return Ok(Key::Minus);
        }
        if text_eq(s, "Equal") {
            return Ok(Key::Equal);
        }
        if text_eq(s, "Q") {
            return Ok(Key::Q);
        }
        if text_eq(s, "W") {
            return Ok(Key::W);
        }
        if text_eq(s, "E") {
            return Ok(Key::E);
        }
        if text_eq(s, "R") {
            return Ok(Key::R);
        }
        if text_eq(s, "T") {
            return Ok(Key::T);
        }
        if text_eq(s, "Y") {
            return Ok(Key::Y);
        }
        if text_eq(s, "U") {
            return Ok(Key::U);
        }
        if text_eq(s, "I") {
            return Ok(Key::I);
        }
        if text_eq(s, "O") {
            return Ok(Key::O);
        }
        if text_eq(s, "P") {
            return Ok(Key::P);
        }
        if text_eq(s, "A") {
            return Ok(Key::A);
        }
        if text_eq(s, "S") {
            return Ok(Key::S);
        }
        if text_eq(s, "D") {
            return Ok(Key::D);
        }
        if text_eq(s, "F") {
            return Ok(Key::F);
        }
        if text_eq(s, "G") {
            return Ok(Key::G);
        }
        if text_eq(s, "H") {
            return Ok(Key::H);
        }
        if text_eq(s, "J") {
            return Ok(Key::J);
        }
        if text_eq(s, "K") {
            return Ok(Key::K);
        }
        if text_eq(s, "L") {
            return Ok(Key::L);
        }
        if text_eq(s, "Z") {
            return Ok(Key::Z);
        }
        if text_eq(s, "X") {
            return Ok(Key::X);
        }
        if text_eq(s, "C") {
            return Ok(Key::C);
        }
        if text_eq(s, "V") {
            return Ok(Key::V);
        }
        if text_eq(s, "B") {
            return Ok(Key::B);
        }
        if text_eq(s, "N") {
            return Ok(Key::N);
        }
        if text_eq(s, "SemiColon") {
            return Ok(Key::SemiColon);
        }
        if text_eq(s, "Quote") {
            return Ok(Key::Quote);
        }
        if text_eq(s, "BackSlash") {
            return Ok(Key::BackSlash);
        }
        if text_eq(s, "Comma") {
            return Ok(Key::Comma);
        }
        if text_eq(s, "Dot") {
            return Ok(Key::Dot);
        }
        if text_eq(s, "Slash") {
            return Ok(Key::Slash);
        }
        if text_eq(s, "KpMinus") {
            return Ok(Key::KpMinus);
        }
        if text_eq(s, "KpPlus") {
            return Ok(Key::KpPlus);
        }
        if text_eq(s, "KpMultiply") {
            return Ok(Key::KpMultiply);
        }
        if text_eq(s, "KpDivide") {
            return Ok(Key::KpDivide);
        }
        if text_eq(s, "Kp0") {
            return Ok(Key::Kp0);
        }
        if text_eq(s, "Kp1") {
            return Ok(Key::Kp1);
        }
        if text_eq(s, "Kp2") {
            return Ok(Key::Kp2);
        }
        if text_eq(s, "Kp3") {
            return Ok(Key::Kp3);
        }
        if text_eq(s, "Kp4") {
            return Ok(Key::Kp4);
        }
        if text_eq(s, "Kp5") {
            return Ok(Key::Kp5);
        }
        if text_eq(s, "Kp6") {
            return Ok(Key::Kp6);
        }
        if text_eq(s, "Kp7") {
            return Ok(Key::Kp7);
        }
        if text_eq(s, "Kp8") {
            return Ok(Key::Kp8);
        }
        if text_eq(s, "Kp9") {
            return Ok(Key::Kp9);
        }
        if text_eq(s, "KpDelete") {
            return Ok(Key::KpDelete);
        }
        if text_eq(s, "BackQuote") {
            return Ok(Key::BackQuote);
        }
        if text_eq(s, "Insert") {
            return Ok(Key::Insert);
        }
        if text_eq(s, "PrintScreen") {
            return Ok(Key::PrintScreen);
        }
        if text_eq(s, "ScrollLock") {
            return Ok(Key::ScrollLock);
        }
        if text_eq(s, "Pause") {
            return Ok(Key::Pause);
        }
        if text_eq(s, "NumLock") {
            return Ok(Key::NumLock);
        }
        Err(Error::UnsupportedKey(String::from_str(s)))
    }
}

} // verus!
