use vstd::prelude::*;

use crate::error::Error;
use crate::input::key::Key;
use crate::platform::Platform;

verus! {

/// A key as a platform's input interface names it: by name, or by the
/// platform's key code.
#[derive(Debug, Clone, Copy, PartialEq, Eq, Structural)]
pub enum SystemKey {
    A,
    Add,
    Alt,
    B,
    Backspace,
    C,
    CapsLock,
    Control,
    D,
    Delete,
    Divide,
    DownArrow,
    E,
    End,
    Escape,
    F,
    F1,
    F10,
    F11,
    F12,
    F13,
    F14,
    F15,
    F16,
    F17,
    F18,
    F19,
    F2,
    F20,
    F3,
    F4,
    F5,
    F6,
    F7,
    F8,
    F9,
    G,
    H,
    Home,
    I,
    Insert,
    J,
    K,
    L,
    LeftArrow,
    M,
    Meta,
    Multiply,
    N,
    Num0,
    Num1,
    Num2,
    Num3,
    Num4,
    Num5,
    Num6,
    Num7,
    Num8,
    Num9,
    Numlock,
    Numpad0,
    Numpad1,
    Numpad2,
    Numpad3,
    Numpad4,
    Numpad5,
    Numpad6,
    Numpad7,
    Numpad8,
    Numpad9,
    O,
    OEM1,
    OEM2,
    OEM3,
    OEM4,
    OEM5,
    OEM6,
    OEM7,
    OEMComma,
    OEMMinus,
    OEMPeriod,
    OEMPlus,
    P,
    PageDown,
    PageUp,
    Pause,
    PrintScr,
    Q,
    R,
    Return,
    RightArrow,
    S,
    Scroll,
    Shift,
    Space,
    Subtract,
    T,
    Tab,
    U,
    UpArrow,
    V,
    W,
    X,
    Y,
    Z,
    Other(u32),
}

/// The platform's key for a key of the library.
pub open spec fn native_key(key: Key, platform: Platform) -> SystemKey {
    match platform {
        Platform::MacOs => match key {
            Key::Alt => SystemKey::Alt,
            Key::Backspace => SystemKey::Backspace,
            Key::CapsLock => SystemKey::CapsLock,
            Key::Control => SystemKey::Control,
            Key::Delete => SystemKey::Delete,
            Key::DownArrow => SystemKey::DownArrow,
            Key::End => SystemKey::End,
            Key::Escape => SystemKey::Escape,
            Key::F1 => SystemKey::F1,
            Key::F2 => SystemKey::F2,
            Key::F3 => SystemKey::F3,
            Key::F4 => SystemKey::F4,
            Key::F5 => SystemKey::F5,
            Key::F6 => SystemKey::F6,
            Key::F7 => SystemKey::F7,
            Key::F8 => SystemKey::F8,
            Key::F9 => SystemKey::F9,
            Key::F10 => SystemKey::F10,
            Key::F11 => SystemKey::F11,
            Key::F12 => SystemKey::F12,
            Key::F13 => SystemKey::F13,
            Key::F14 => SystemKey::F14,
            Key::F15 => SystemKey::F15,
            Key::F16 => SystemKey::F16,
            Key::F17 => SystemKey::F17,
            Key::F18 => SystemKey::F18,
            Key::F19 => SystemKey::F19,
            Key::F20 => SystemKey::F20,
            Key::Home => SystemKey::Home,
            Key::LeftArrow => SystemKey::LeftArrow,
            Key::Meta => SystemKey::Meta,
            Key::PageDown => SystemKey::PageDown,
            Key::PageUp => SystemKey::PageUp,
            Key::Return => SystemKey::Return,
            Key::RightArrow => SystemKey::RightArrow,
            Key::Shift => SystemKey::Shift,
            Key::Space => SystemKey::Space,
            Key::Tab => SystemKey::Tab,
            Key::UpArrow => SystemKey::UpArrow,
            Key::LeftBracket => SystemKey::Other(33),
            Key::RightBracket => SystemKey::Other(30),
            Key::Num1 => SystemKey::Other(18),
            Key::Num2 => SystemKey::Other(19),
            Key::Num3 => SystemKey::Other(20),
            Key::Num4 => SystemKey::Other(21),
            Key::Num5 => SystemKey::Other(23),
            Key::Num6 => SystemKey::Other(22),
            Key::Num7 => SystemKey::Other(26),
            Key::Num8 => SystemKey::Other(28),
            Key::Num9 => SystemKey::Other(25),
            Key::Num0 => SystemKey::Other(29),
            Key::Minus => SystemKey::Other(27),
            Key::Equal => SystemKey::Other(24),
            Key::Q => SystemKey::Other(12),
            Key::W => SystemKey::Other(13),
            Key::E => SystemKey::Other(14),
            Key::R => SystemKey::Other(15),
            Key::T => SystemKey::Other(17),
            Key::Y => SystemKey::Other(16),
            Key::U => SystemKey::Other(32),
            Key::I => SystemKey::Other(34),
            Key::O => SystemKey::Other(31),
            Key::P => SystemKey::Other(35),
            Key::A => SystemKey::Other(0),
            Key::S => SystemKey::Other(1),
            Key::D => SystemKey::Other(2),
            Key::F => SystemKey::Other(3),
            Key::G => SystemKey::Other(5),
            Key::H => SystemKey::Other(4),
            Key::J => SystemKey::Other(38),
            Key::K => SystemKey::Other(40),
            Key::L => SystemKey::Other(37),
            Key::Z => SystemKey::Other(6),
            Key::X => SystemKey::Other(7),
            Key::C => SystemKey::Other(8),
            Key::V => SystemKey::Other(9),
            Key::B => SystemKey::Other(11),
            Key::N => SystemKey::Other(45),
            Key::M => SystemKey::Other(46),
            Key::SemiColon => SystemKey::Other(41),
            Key::Quote => SystemKey::Other(39),
            Key::BackSlash => SystemKey::Other(42),
            Key::Comma => SystemKey::Other(43),
            Key::Dot => SystemKey::Other(47),
            Key::Slash => SystemKey::Other(44),
            Key::KpMinus => SystemKey::Subtract,
            Key::KpPlus => SystemKey::Add,
            Key::KpMultiply => SystemKey::Multiply,
            Key::KpDivide => SystemKey::Divide,
            Key::Kp0 => SystemKey::Numpad0,
            Key::Kp1 => SystemKey::Numpad1,
            Key::Kp2 => SystemKey::Numpad2,
            Key::Kp3 => SystemKey::Numpad3,
            Key::Kp4 => SystemKey::Numpad4,
            Key::Kp5 => SystemKey::Numpad5,
            Key::Kp6 => SystemKey::Numpad6,
            Key::Kp7 => SystemKey::Numpad7,
            Key::Kp8 => SystemKey::Numpad8,
            Key::Kp9 => SystemKey::Numpad9,
            Key::KpDelete => SystemKey::Delete,
            Key::BackQuote => SystemKey::Other(50),
            Key::Insert => SystemKey::Other(114),
            Key::PrintScreen => SystemKey::Other(105),
            Key::ScrollLock => SystemKey::Other(107),
            Key::Pause => SystemKey::Other(110),
            Key::NumLock => SystemKey::Other(71),
        },
        Platform::Windows => match key {
            Key::Alt => SystemKey::Alt,
            Key::Backspace => SystemKey::Backspace,
            Key::CapsLock => SystemKey::CapsLock,
            Key::Control => SystemKey::Control,
            Key::Delete => SystemKey::Delete,
            Key::DownArrow => SystemKey::DownArrow,
            Key::End => SystemKey::End,
            Key::Escape => SystemKey::Escape,
            Key::F1 => SystemKey::F1,
            Key::F2 => SystemKey::F2,
            Key::F3 => SystemKey::F3,
            Key::F4 => SystemKey::F4,
            Key::F5 => SystemKey::F5,
            Key::F6 => SystemKey::F6,
            Key::F7 => SystemKey::F7,
            Key::F8 => SystemKey::F8,
            Key::F9 => SystemKey::F9,
            Key::F10 => SystemKey::F10,
            Key::F11 => SystemKey::F11,
            Key::F12 => SystemKey::F12,
            Key::F13 => SystemKey::F13,
            Key::F14 => SystemKey::F14,
            Key::F15 => SystemKey::F15,
            Key::F16 => SystemKey::F16,
            Key::F17 => SystemKey::F17,
            Key::F18 => SystemKey::F18,
            Key::F19 => SystemKey::F19,
            Key::F20 => SystemKey::F20,
            Key::Home => SystemKey::Home,
            Key::LeftArrow => SystemKey::LeftArrow,
            Key::Meta => SystemKey::Meta,
            Key::PageDown => SystemKey::PageDown,
            Key::PageUp => SystemKey::PageUp,
            Key::Return => SystemKey::Return,
            Key::RightArrow => SystemKey::RightArrow,
            Key::Shift => SystemKey::Shift,
            Key::Space => SystemKey::Space,
            Key::Tab => SystemKey::Tab,
            Key::UpArrow => SystemKey::UpArrow,
            Key::LeftBracket => SystemKey::OEM4,
            Key::RightBracket => SystemKey::OEM6,
            Key::Num1 => SystemKey::Num1,
            Key::Num2 => SystemKey::Num2,
            Key::Num3 => SystemKey::Num3,
            Key::Num4 => SystemKey::Num4,
            Key::Num5 => SystemKey::Num5,
            Key::Num6 => SystemKey::Num6,
            Key::Num7 => SystemKey::Num7,
            Key::Num8 => SystemKey::Num8,
            Key::Num9 => SystemKey::Num9,
            Key::Num0 => SystemKey::Num0,
            Key::Minus => SystemKey::OEMMinus,
            Key::Equal => SystemKey::OEMPlus,
            Key::Q => SystemKey::Q,
            Key::W => SystemKey::W,
            Key::E => SystemKey::E,
            Key::R => SystemKey::R,
            Key::T => SystemKey::T,
            Key::Y => SystemKey::Y,
            Key::U => SystemKey::U,
            Key::I => SystemKey::I,
            Key::O => SystemKey::O,
            Key::P => SystemKey::P,
            Key::A => SystemKey::A,
            Key::S => SystemKey::S,
            Key::D => SystemKey::D,
            Key::F => SystemKey::F,
            Key::G => SystemKey::G,
            Key::H => SystemKey::H,
            Key::J => SystemKey::J,
            Key::K => SystemKey::K,
            Key::L => SystemKey::L,
            Key::Z => SystemKey::Z,
            Key::X => SystemKey::X,
            Key::C => SystemKey::C,
            Key::V => SystemKey::V,
            Key::B => SystemKey::B,
            Key::N => SystemKey::N,
            Key::M => SystemKey::M,
            Key::SemiColon => SystemKey::OEM1,
            Key::Quote => SystemKey::OEM7,
            Key::BackSlash => SystemKey::OEM5,
            Key::Comma => SystemKey::OEMComma,
            Key::Dot => SystemKey::OEMPeriod,
            Key::Slash => SystemKey::OEM2,
            Key::KpMinus => SystemKey::Subtract,
            Key::KpPlus => SystemKey::Add,
            Key::KpMultiply => SystemKey::Multiply,
            Key::KpDivide => SystemKey::Divide,
            Key::Kp0 => SystemKey::Numpad0,
            Key::Kp1 => SystemKey::Numpad1,
            Key::Kp2 => SystemKey::Numpad2,
            Key::Kp3 => SystemKey::Numpad3,
            Key::Kp4 => SystemKey::Numpad4,
            Key::Kp5 => SystemKey::Numpad5,
            Key::Kp6 => SystemKey::Numpad6,
            Key::Kp7 => SystemKey::Numpad7,
            Key::Kp8 => SystemKey::Numpad8,
            Key::Kp9 => SystemKey::Numpad9,
            Key::KpDelete => SystemKey::Delete,
            Key::BackQuote => SystemKey::OEM3,
            Key::Insert => SystemKey::Insert,
            Key::PrintScreen => SystemKey::PrintScr,
            Key::ScrollLock => SystemKey::Scroll,
            Key::Pause => SystemKey::Pause,
            Key::NumLock => SystemKey::Numlock,
        },
    }
}

/// The key of the library for a platform's key, if it stands for one.
pub open spec fn portable_key(native: SystemKey, platform: Platform) -> Option<Key> {
    match platform {
        Platform::MacOs => match native {
            SystemKey::Alt => Some(Key::Alt),
            SystemKey::Backspace => Some(Key::Backspace),
            SystemKey::CapsLock => Some(Key::CapsLock),
            SystemKey::Control => Some(Key::Control),
            SystemKey::Delete => Some(Key::Delete),
            SystemKey::DownArrow => Some(Key::DownArrow),
            SystemKey::End => Some(Key::End),
            SystemKey::Escape => Some(Key::Escape),
            SystemKey::F1 => Some(Key::F1),
            SystemKey::F2 => Some(Key::F2),
            SystemKey::F3 => Some(Key::F3),
            SystemKey::F4 => Some(Key::F4),
            SystemKey::F5 => Some(Key::F5),
            SystemKey::F6 => Some(Key::F6),
            SystemKey::F7 => Some(Key::F7),
            SystemKey::F8 => Some(Key::F8),
            SystemKey::F9 => Some(Key::F9),
            SystemKey::F10 => Some(Key::F10),
            SystemKey::F11 => Some(Key::F11),
            SystemKey::F12 => Some(Key::F12),
            SystemKey::F13 => Some(Key::F13),
            SystemKey::F14 => Some(Key::F14),
            SystemKey::F15 => Some(Key::F15),
            SystemKey::F16 => Some(Key::F16),
            SystemKey::F17 => Some(Key::F17),
            SystemKey::F18 => Some(Key::F18),
            SystemKey::F19 => Some(Key::F19),
            SystemKey::F20 => Some(Key::F20),
            SystemKey::Home => Some(Key::Home),
            SystemKey::LeftArrow => Some(Key::LeftArrow),
            SystemKey::Meta => Some(Key::Meta),
            SystemKey::PageDown => Some(Key::PageDown),
            SystemKey::PageUp => Some(Key::PageUp),
            SystemKey::Return => Some(Key::Return),
            SystemKey::RightArrow => Some(Key::RightArrow),
            SystemKey::Shift => Some(Key::Shift),
            SystemKey::Space => Some(Key::Space),
            SystemKey::Tab => Some(Key::Tab),
            SystemKey::UpArrow => Some(Key::UpArrow),
            SystemKey::Subtract => Some(Key::KpMinus),
            SystemKey::Add => Some(Key::KpPlus),
            SystemKey::Multiply => Some(Key::KpMultiply),
            SystemKey::Divide => Some(Key::KpDivide),
            SystemKey::Numpad0 => Some(Key::Kp0),
            SystemKey::Numpad1 => Some(Key::Kp1),
            SystemKey::Numpad2 => Some(Key::Kp2),
            SystemKey::Numpad3 => Some(Key::Kp3),
            SystemKey::Numpad4 => Some(Key::Kp4),
            SystemKey::Numpad5 => Some(Key::Kp5),
            SystemKey::Numpad6 => Some(Key::Kp6),
            SystemKey::Numpad7 => Some(Key::Kp7),
            SystemKey::Numpad8 => Some(Key::Kp8),
            SystemKey::Numpad9 => Some(Key::Kp9),
            SystemKey::Other(code) => if code == 33 {
                Some(Key::LeftBracket)
            } else if code == 30 {
                Some(Key::RightBracket)
            } else if code == 18 {
                Some(Key::Num1)
            } else if code == 19 {
                Some(Key::Num2)
            } else if code == 20 {
                Some(Key::Num3)
            } else if code == 21 {
                Some(Key::Num4)
            } else if code == 23 {
                Some(Key::Num5)
            } else if code == 22 {
                Some(Key::Num6)
            } else if code == 26 {
                Some(Key::Num7)
            } else if code == 28 {
                Some(Key::Num8)
            } else if code == 25 {
                Some(Key::Num9)
            } else if code == 29 {
                Some(Key::Num0)
            } else if code == 27 {
                Some(Key::Minus)
            } else if code == 24 {
                Some(Key::Equal)
            } else if code == 12 {
                Some(Key::Q)
            } else if code == 13 {
                Some(Key::W)
            } else if code == 14 {
                Some(Key::E)
            } else if code == 15 {
                Some(Key::R)
            } else if code == 17 {
                Some(Key::T)
            } else if code == 16 {
                Some(Key::Y)
            } else if code == 32 {
                Some(Key::U)
            } else if code == 34 {
                Some(Key::I)
            } else if code == 31 {
                Some(Key::O)
            } else if code == 35 {
                Some(Key::P)
            } else if code == 0 {
                Some(Key::A)
            } else if code == 1 {
                Some(Key::S)
            } else if code == 2 {
                Some(Key::D)
            } else if code == 3 {
                Some(Key::F)
            } else if code == 5 {
                Some(Key::G)
            } else if code == 4 {
                Some(Key::H)
            } else if code == 38 {
                Some(Key::J)
            } else if code == 40 {
                Some(Key::K)
            } else if code == 37 {
                Some(Key::L)
            } else if code == 6 {
                Some(Key::Z)
            } else if code == 7 {
                Some(Key::X)
            } else if code == 8 {
                Some(Key::C)
            } else if code == 9 {
                Some(Key::V)
            } else if code == 11 {
                Some(Key::B)
            } else if code == 45 {
                Some(Key::N)
            } else if code == 46 {
                Some(Key::M)
            } else if code == 41 {
                Some(Key::SemiColon)
            } else if code == 39 {
                Some(Key::Quote)
            } else if code == 42 {
                Some(Key::BackSlash)
            } else if code == 43 {
                Some(Key::Comma)
            } else if code == 47 {
                Some(Key::Dot)
            } else if code == 44 {
                Some(Key::Slash)
            } else if code == 50 {
                Some(Key::BackQuote)
            } else if code == 114 {
                Some(Key::Insert)
            } else if code == 105 {
                Some(Key::PrintScreen)
            } else if code == 107 {
                Some(Key::ScrollLock)
            } else if code == 110 {
                Some(Key::Pause)
            } else if code == 71 {
                Some(Key::NumLock)
            } else {
                None
            },
            _ => None,
        },
        Platform::Windows => match native {
            SystemKey::Alt => Some(Key::Alt),
            SystemKey::Backspace => Some(Key::Backspace),
            SystemKey::CapsLock => Some(Key::CapsLock),
            SystemKey::Control => Some(Key::Control),
            SystemKey::Delete => Some(Key::Delete),
            SystemKey::DownArrow => Some(Key::DownArrow),
            SystemKey::End => Some(Key::End),
            SystemKey::Escape => Some(Key::Escape),
            SystemKey::F1 => Some(Key::F1),
            SystemKey::F2 => Some(Key::F2),
            SystemKey::F3 => Some(Key::F3),
            SystemKey::F4 => Some(Key::F4),
            SystemKey::F5 => Some(Key::F5),
            SystemKey::F6 => Some(Key::F6),
            SystemKey::F7 => Some(Key::F7),
            SystemKey::F8 => Some(Key::F8),
            SystemKey::F9 => Some(Key::F9),
            SystemKey::F10 => Some(Key::F10),
            SystemKey::F11 => Some(Key::F11),
            SystemKey::F12 => Some(Key::F12),
            SystemKey::F13 => Some(Key::F13),
            SystemKey::F14 => Some(Key::F14),
            SystemKey::F15 => Some(Key::F15),
            SystemKey::F16 => Some(Key::F16),
            SystemKey::F17 => Some(Key::F17),
            SystemKey::F18 => Some(Key::F18),
            SystemKey::F19 => Some(Key::F19),
            SystemKey::F20 => Some(Key::F20),
            SystemKey::Home => Some(Key::Home),
            SystemKey::LeftArrow => Some(Key::LeftArrow),
            SystemKey::Meta => Some(Key::Meta),
            SystemKey::PageDown => Some(Key::PageDown),
            SystemKey::PageUp => Some(Key::PageUp),
            SystemKey::Return => Some(Key::Return),
            SystemKey::RightArrow => Some(Key::RightArrow),
            SystemKey::Shift => Some(Key::Shift),
            SystemKey::Space => Some(Key::Space),
            SystemKey::Tab => Some(Key::Tab),
            SystemKey::UpArrow => Some(Key::UpArrow),
            SystemKey::Subtract => Some(Key::KpMinus),
            SystemKey::Add => Some(Key::KpPlus),
            SystemKey::Multiply => Some(Key::KpMultiply),
            SystemKey::Divide => Some(Key::KpDivide),
            SystemKey::Numpad0 => Some(Key::Kp0),
            SystemKey::Numpad1 => Some(Key::Kp1),
            SystemKey::Numpad2 => Some(Key::Kp2),
            SystemKey::Numpad3 => Some(Key::Kp3),
            SystemKey::Numpad4 => Some(Key::Kp4),
            SystemKey::Numpad5 => Some(Key::Kp5),
            SystemKey::Numpad6 => Some(Key::Kp6),
            SystemKey::Numpad7 => Some(Key::Kp7),
            SystemKey::Numpad8 => Some(Key::Kp8),
            SystemKey::Numpad9 => Some(Key::Kp9),
            SystemKey::OEM4 => Some(Key::LeftBracket),
            SystemKey::OEM6 => Some(Key::RightBracket),
            SystemKey::Num1 => Some(Key::Num1),
            SystemKey::Num2 => Some(Key::Num2),
            SystemKey::Num3 => Some(Key::Num3),
            SystemKey::Num4 => Some(Key::Num4),
            SystemKey::Num5 => Some(Key::Num5),
            SystemKey::Num6 => Some(Key::Num6),
            SystemKey::Num7 => Some(Key::Num7),
            SystemKey::Num8 => Some(Key::Num8),
            SystemKey::Num9 => Some(Key::Num9),
            SystemKey::Num0 => Some(Key::Num0),
            SystemKey::OEMMinus => Some(Key::Minus),
            SystemKey::OEMPlus => Some(Key::Equal),
            SystemKey::Q => Some(Key::Q),
            SystemKey::W => Some(Key::W),
            SystemKey::E => Some(Key::E),
            SystemKey::R => Some(Key::R),
            SystemKey::T => Some(Key::T),
            SystemKey::Y => Some(Key::Y),
            SystemKey::U => Some(Key::U),
            SystemKey::I => Some(Key::I),
            SystemKey::O => Some(Key::O),
            SystemKey::P => Some(Key::P),
            SystemKey::A => Some(Key::A),
            SystemKey::S => Some(Key::S),
            SystemKey::D => Some(Key::D),
            SystemKey::F => Some(Key::F),
            SystemKey::G => Some(Key::G),
            SystemKey::H => Some(Key::H),
            SystemKey::J => Some(Key::J),
            SystemKey::K => Some(Key::K),
            SystemKey::L => Some(Key::L),
            SystemKey::Z => Some(Key::Z),
            SystemKey::X => Some(Key::X),
            SystemKey::C => Some(Key::C),
            SystemKey::V => Some(Key::V),
            SystemKey::B => Some(Key::B),
            SystemKey::N => Some(Key::N),
            SystemKey::M => Some(Key::M),
            SystemKey::OEM1 => Some(Key::SemiColon),
            SystemKey::OEM7 => Some(Key::Quote),
            SystemKey::OEM5 => Some(Key::BackSlash),
            SystemKey::OEMComma => Some(Key::Comma),
            SystemKey::OEMPeriod => Some(Key::Dot),
            SystemKey::OEM2 => Some(Key::Slash),
            SystemKey::OEM3 => Some(Key::BackQuote),
            SystemKey::Insert => Some(Key::Insert),
            SystemKey::PrintScr => Some(Key::PrintScreen),
            SystemKey::Scroll => Some(Key::ScrollLock),
            SystemKey::Pause => Some(Key::Pause),
            SystemKey::Numlock => Some(Key::NumLock),
            _ => None,
        },
    }
}

impl SystemKey {
    /// The platform's key for a key of the library.
    pub fn from(value: Key, platform: Platform) -> (native: SystemKey)
        ensures
            native == native_key(value, platform),
    {
        match platform {
            Platform::MacOs => match value {
                Key::Alt => SystemKey::Alt,
                Key::Backspace => SystemKey::Backspace,
                Key::CapsLock => SystemKey::CapsLock,
                Key::Control => SystemKey::Control,
                Key::Delete => SystemKey::Delete,
                Key::DownArrow => SystemKey::DownArrow,
                Key::End => SystemKey::End,
                Key::Escape => SystemKey::Escape,
                Key::F1 => SystemKey::F1,
                Key::F2 => SystemKey::F2,
                Key::F3 => SystemKey::F3,
                Key::F4 => SystemKey::F4,
                Key::F5 => SystemKey::F5,
                Key::F6 => SystemKey::F6,
                Key::F7 => SystemKey::F7,
                Key::F8 => SystemKey::F8,
                Key::F9 => SystemKey::F9,
                Key::F10 => SystemKey::F10,
                Key::F11 => SystemKey::F11,
                Key::F12 => SystemKey::F12,
                Key::F13 => SystemKey::F13,
                Key::F14 => SystemKey::F14,
                Key::F15 => SystemKey::F15,
                Key::F16 => SystemKey::F16,
                Key::F17 => SystemKey::F17,
                Key::F18 => SystemKey::F18,
                Key::F19 => SystemKey::F19,
                Key::F20 => SystemKey::F20,
                Key::Home => SystemKey::Home,
                Key::LeftArrow => SystemKey::LeftArrow,
                Key::Meta => SystemKey::Meta,
                Key::PageDown => SystemKey::PageDown,
                Key::PageUp => SystemKey::PageUp,
                Key::Return => SystemKey::Return,
                Key::RightArrow => SystemKey::RightArrow,
                Key::Shift => SystemKey::Shift,
                Key::Space => SystemKey::Space,
                Key::Tab => SystemKey::Tab,
                Key::UpArrow => SystemKey::UpArrow,
                Key::LeftBracket => SystemKey::Other(33),
                Key::RightBracket => SystemKey::Other(30),
                Key::Num1 => SystemKey::Other(18),
                Key::Num2 => SystemKey::Other(19),
                Key::Num3 => SystemKey::Other(20),
                Key::Num4 => SystemKey::Other(21),
                Key::Num5 => SystemKey::Other(23),
                Key::Num6 => SystemKey::Other(22),
                Key::Num7 => SystemKey::Other(26),
                Key::Num8 => SystemKey::Other(28),
                Key::Num9 => SystemKey::Other(25),
                Key::Num0 => SystemKey::Other(29),
                Key::Minus => SystemKey::Other(27),
                Key::Equal => SystemKey::Other(24),
                Key::Q => SystemKey::Other(12),
                Key::W => SystemKey::Other(13),
                Key::E => SystemKey::Other(14),
                Key::R => SystemKey::Other(15),
                Key::T => SystemKey::Other(17),
                Key::Y => SystemKey::Other(16),
                Key::U => SystemKey::Other(32),
                Key::I => SystemKey::Other(34),
                Key::O => SystemKey::Other(31),
                Key::P => SystemKey::Other(35),
                Key::A => SystemKey::Other(0),
                Key::S => SystemKey::Other(1),
                Key::D => SystemKey::Other(2),
                Key::F => SystemKey::Other(3),
                Key::G => SystemKey::Other(5),
                Key::H => SystemKey::Other(4),
                Key::J => SystemKey::Other(38),
                Key::K => SystemKey::Other(40),
                Key::L => SystemKey::Other(37),
                Key::Z => SystemKey::Other(6),
                Key::X => SystemKey::Other(7),
                Key::C => SystemKey::Other(8),
                Key::V => SystemKey::Other(9),
                Key::B => SystemKey::Other(11),
                Key::N => SystemKey::Other(45),
                Key::M => SystemKey::Other(46),
                Key::SemiColon => SystemKey::Other(41),
                Key::Quote => SystemKey::Other(39),
                Key::BackSlash => SystemKey::Other(42),
                Key::Comma => SystemKey::Other(43),
                Key::Dot => SystemKey::Other(47),
                Key::Slash => SystemKey::Other(44),
                Key::KpMinus => SystemKey::Subtract,
                Key::KpPlus => SystemKey::Add,
                Key::KpMultiply => SystemKey::Multiply,
                Key::KpDivide => SystemKey::Divide,
                Key::Kp0 => SystemKey::Numpad0,
                Key::Kp1 => SystemKey::Numpad1,
                Key::Kp2 => SystemKey::Numpad2,
                Key::Kp3 => SystemKey::Numpad3,
                Key::Kp4 => SystemKey::Numpad4,
                Key::Kp5 => SystemKey::Numpad5,
                Key::Kp6 => SystemKey::Numpad6,
                Key::Kp7 => SystemKey::Numpad7,
                Key::Kp8 => SystemKey::Numpad8,
                Key::Kp9 => SystemKey::Numpad9,
                Key::KpDelete => SystemKey::Delete,
                Key::BackQuote => SystemKey::Other(50),
                Key::Insert => SystemKey::Other(114),
                Key::PrintScreen => SystemKey::Other(105),
                Key::ScrollLock => SystemKey::Other(107),
                Key::Pause => SystemKey::Other(110),
                Key::NumLock => SystemKey::Other(71),
            },
            Platform::Windows => match value {
                Key::Alt => SystemKey::Alt,
                Key::Backspace => SystemKey::Backspace,
                Key::CapsLock => SystemKey::CapsLock,
                Key::Control => SystemKey::Control,
                Key::Delete => SystemKey::Delete,
                Key::DownArrow => SystemKey::DownArrow,
                Key::End => SystemKey::End,
                Key::Escape => SystemKey::Escape,
                Key::F1 => SystemKey::F1,
                Key::F2 => SystemKey::F2,
                Key::F3 => SystemKey::F3,
                Key::F4 => SystemKey::F4,
                Key::F5 => SystemKey::F5,
                Key::F6 => SystemKey::F6,
                Key::F7 => SystemKey::F7,
                Key::F8 => SystemKey::F8,
                Key::F9 => SystemKey::F9,
                Key::F10 => SystemKey::F10,
                Key::F11 => SystemKey::F11,
                Key::F12 => SystemKey::F12,
                Key::F13 => SystemKey::F13,
                Key::F14 => SystemKey::F14,
                Key::F15 => SystemKey::F15,
                Key::F16 => SystemKey::F16,
                Key::F17 => SystemKey::F17,
                Key::F18 => SystemKey::F18,
                Key::F19 => SystemKey::F19,
                Key::F20 => SystemKey::F20,
                Key::Home => SystemKey::Home,
                Key::LeftArrow => SystemKey::LeftArrow,
                Key::Meta => SystemKey::Meta,
                Key::PageDown => SystemKey::PageDown,
                Key::PageUp => SystemKey::PageUp,
                Key::Return => SystemKey::Return,
                Key::RightArrow => SystemKey::RightArrow,
                Key::Shift => SystemKey::Shift,
                Key::Space => SystemKey::Space,
                Key::Tab => SystemKey::Tab,
                Key::UpArrow => SystemKey::UpArrow,
                Key::LeftBracket => SystemKey::OEM4,
                Key::RightBracket => SystemKey::OEM6,
                Key::Num1 => SystemKey::Num1,
                Key::Num2 => SystemKey::Num2,
                Key::Num3 => SystemKey::Num3,
                Key::Num4 => SystemKey::Num4,
                Key::Num5 => SystemKey::Num5,
                Key::Num6 => SystemKey::Num6,
                Key::Num7 => SystemKey::Num7,
                Key::Num8 => SystemKey::Num8,
                Key::Num9 => SystemKey::Num9,
                Key::Num0 => SystemKey::Num0,
                Key::Minus => SystemKey::OEMMinus,
                Key::Equal => SystemKey::OEMPlus,
                Key::Q => SystemKey::Q,
                Key::W => SystemKey::W,
                Key::E => SystemKey::E,
                Key::R => SystemKey::R,
                Key::T => SystemKey::T,
                Key::Y => SystemKey::Y,
                Key::U => SystemKey::U,
                Key::I => SystemKey::I,
                Key::O => SystemKey::O,
                Key::P => SystemKey::P,
                Key::A => SystemKey::A,
                Key::S => SystemKey::S,
                Key::D => SystemKey::D,
                Key::F => SystemKey::F,
                Key::G => SystemKey::G,
                Key::H => SystemKey::H,
                Key::J => SystemKey::J,
                Key::K => SystemKey::K,
                Key::L => SystemKey::L,
                Key::Z => SystemKey::Z,
                Key::X => SystemKey::X,
                Key::C => SystemKey::C,
                Key::V => SystemKey::V,
                Key::B => SystemKey::B,
                Key::N => SystemKey::N,
                Key::M => SystemKey::M,
                Key::SemiColon => SystemKey::OEM1,
                Key::Quote => SystemKey::OEM7,
                Key::BackSlash => SystemKey::OEM5,
                Key::Comma => SystemKey::OEMComma,
                Key::Dot => SystemKey::OEMPeriod,
                Key::Slash => SystemKey::OEM2,
                Key::KpMinus => SystemKey::Subtract,
                Key::KpPlus => SystemKey::Add,
                Key::KpMultiply => SystemKey::Multiply,
                Key::KpDivide => SystemKey::Divide,
                Key::Kp0 => SystemKey::Numpad0,
                Key::Kp1 => SystemKey::Numpad1,
                Key::Kp2 => SystemKey::Numpad2,
                Key::Kp3 => SystemKey::Numpad3,
                Key::Kp4 => SystemKey::Numpad4,
                Key::Kp5 => SystemKey::Numpad5,
                Key::Kp6 => SystemKey::Numpad6,
                Key::Kp7 => SystemKey::Numpad7,
                Key::Kp8 => SystemKey::Numpad8,
                Key::Kp9 => SystemKey::Numpad9,
                Key::KpDelete => SystemKey::Delete,
                Key::BackQuote => SystemKey::OEM3,
                Key::Insert => SystemKey::Insert,
                Key::PrintScreen => SystemKey::PrintScr,
                Key::ScrollLock => SystemKey::Scroll,
                Key::Pause => SystemKey::Pause,
                Key::NumLock => SystemKey::Numlock,
            },
        }
    }
}

impl Key {
    /// The key of the library for a platform's key.
    pub fn try_from(system_key: SystemKey, platform: Platform) -> (r: Result<Key, Error>)
        ensures
            r == match portable_key(system_key, platform) {
                Some(key) => Ok::<Key, Error>(key),
                None => Err::<Key, Error>(Error::UnsupportedSystemKey),
            },
    {
        let found: Option<Key> = match platform {
            Platform::MacOs => match system_key {
                SystemKey::Alt => Some(Key::Alt),
                SystemKey::Backspace => Some(Key::Backspace),
                SystemKey::CapsLock => Some(Key::CapsLock),
                SystemKey::Control => Some(Key::Control),
                SystemKey::Delete => Some(Key::Delete),
                SystemKey::DownArrow => Some(Key::DownArrow),
                SystemKey::End => Some(Key::End),
                SystemKey::Escape => Some(Key::Escape),
                SystemKey::F1 => Some(Key::F1),
                SystemKey::F2 => Some(Key::F2),
                SystemKey::F3 => Some(Key::F3),
                SystemKey::F4 => Some(Key::F4),
                SystemKey::F5 => Some(Key::F5),
                SystemKey::F6 => Some(Key::F6),
                SystemKey::F7 => Some(Key::F7),
                SystemKey::F8 => Some(Key::F8),
                SystemKey::F9 => Some(Key::F9),
                SystemKey::F10 => Some(Key::F10),
                SystemKey::F11 => Some(Key::F11),
                SystemKey::F12 => Some(Key::F12),
                SystemKey::F13 => Some(Key::F13),
                SystemKey::F14 => Some(Key::F14),
                SystemKey::F15 => Some(Key::F15),
                SystemKey::F16 => Some(Key::F16),
                SystemKey::F17 => Some(Key::F17),
                SystemKey::F18 => Some(Key::F18),
                SystemKey::F19 => Some(Key::F19),
                SystemKey::F20 => Some(Key::F20),
                SystemKey::Home => Some(Key::Home),
                SystemKey::LeftArrow => Some(Key::LeftArrow),
                SystemKey::Meta => Some(Key::Meta),
                SystemKey::PageDown => Some(Key::PageDown),
                SystemKey::PageUp => Some(Key::PageUp),
                SystemKey::Return => Some(Key::Return),
                SystemKey::RightArrow => Some(Key::RightArrow),
                SystemKey::Shift => Some(Key::Shift),
                SystemKey::Space => Some(Key::Space),
                SystemKey::Tab => Some(Key::Tab),
                SystemKey::UpArrow => Some(Key::UpArrow),
                SystemKey::Subtract => Some(Key::KpMinus),
                SystemKey::Add => Some(Key::KpPlus),
                SystemKey::Multiply => Some(Key::KpMultiply),
                SystemKey::Divide => Some(Key::KpDivide),
                SystemKey::Numpad0 => Some(Key::Kp0),
                SystemKey::Numpad1 => Some(Key::Kp1),
                SystemKey::Numpad2 => Some(Key::Kp2),
                SystemKey::Numpad3 => Some(Key::Kp3),
                SystemKey::Numpad4 => Some(Key::Kp4),
                SystemKey::Numpad5 => Some(Key::Kp5),
                SystemKey::Numpad6 => Some(Key::Kp6),
                SystemKey::Numpad7 => Some(Key::Kp7),
                SystemKey::Numpad8 => Some(Key::Kp8),
                SystemKey::Numpad9 => Some(Key::Kp9),
                SystemKey::Other(code) => if code == 33 {
                    Some(Key::LeftBracket)
                } else if code == 30 {
                    Some(Key::RightBracket)
                } else if code == 18 {
                    Some(Key::Num1)
                } else if code == 19 {
                    Some(Key::Num2)
                } else if code == 20 {
                    Some(Key::Num3)
                } else if code == 21 {
                    Some(Key::Num4)
                } else if code == 23 {
                    Some(Key::Num5)
                } else if code == 22 {
                    Some(Key::Num6)
                } else if code == 26 {
                    Some(Key::Num7)
                } else if code == 28 {
                    Some(Key::Num8)
                } else if code == 25 {
                    Some(Key::Num9)
                } else if code == 29 {
                    Some(Key::Num0)
                } else if code == 27 {
                    Some(Key::Minus)
                } else if code == 24 {
                    Some(Key::Equal)
                } else if code == 12 {
                    Some(Key::Q)
                } else if code == 13 {
                    Some(Key::W)
                } else if code == 14 {
                    Some(Key::E)
                } else if code == 15 {
                    Some(Key::R)
                } else if code == 17 {
                    Some(Key::T)
                } else if code == 16 {
                    Some(Key::Y)
                } else if code == 32 {
                    Some(Key::U)
                } else if code == 34 {
                    Some(Key::I)
                } else if code == 31 {
                    Some(Key::O)
                } else if code == 35 {
                    Some(Key::P)
                } else if code == 0 {
                    Some(Key::A)
                } else if code == 1 {
                    Some(Key::S)
                } else if code == 2 {
                    Some(Key::D)
                } else if code == 3 {
                    Some(Key::F)
                } else if code == 5 {
                    Some(Key::G)
                } else if code == 4 {
                    Some(Key::H)
                } else if code == 38 {
                    Some(Key::J)
                } else if code == 40 {
                    Some(Key::K)
                } else if code == 37 {
                    Some(Key::L)
                } else if code == 6 {
                    Some(Key::Z)
                } else if code == 7 {
                    Some(Key::X)
                } else if code == 8 {
                    Some(Key::C)
                } else if code == 9 {
                    Some(Key::V)
                } else if code == 11 {
                    Some(Key::B)
                } else if code == 45 {
                    Some(Key::N)
                } else if code == 46 {
                    Some(Key::M)
                } else if code == 41 {
                    Some(Key::SemiColon)
                } else if code == 39 {
                    Some(Key::Quote)
                } else if code == 42 {
                    Some(Key::BackSlash)
                } else if code == 43 {
                    Some(Key::Comma)
                } else if code == 47 {
                    Some(Key::Dot)
                } else if code == 44 {
                    Some(Key::Slash)
                } else if code == 50 {
                    Some(Key::BackQuote)
                } else if code == 114 {
                    Some(Key::Insert)
                } else if code == 105 {
                    Some(Key::PrintScreen)
                } else if code == 107 {
                    Some(Key::ScrollLock)
                } else if code == 110 {
                    Some(Key::Pause)
                } else if code == 71 {
                    Some(Key::NumLock)
                } else {
                    None
                },
                _ => None,
            },
            Platform::Windows => match system_key {
                SystemKey::Alt => Some(Key::Alt),
                SystemKey::Backspace => Some(Key::Backspace),
                SystemKey::CapsLock => Some(Key::CapsLock),
                SystemKey::Control => Some(Key::Control),
                SystemKey::Delete => Some(Key::Delete),
                SystemKey::DownArrow => Some(Key::DownArrow),
                SystemKey::End => Some(Key::End),
                SystemKey::Escape => Some(Key::Escape),
                SystemKey::F1 => Some(Key::F1),
                SystemKey::F2 => Some(Key::F2),
                SystemKey::F3 => Some(Key::F3),
                SystemKey::F4 => Some(Key::F4),
                SystemKey::F5 => Some(Key::F5),
                SystemKey::F6 => Some(Key::F6),
                SystemKey::F7 => Some(Key::F7),
                SystemKey::F8 => Some(Key::F8),
                SystemKey::F9 => Some(Key::F9),
                SystemKey::F10 => Some(Key::F10),
                SystemKey::F11 => Some(Key::F11),
                SystemKey::F12 => Some(Key::F12),
                SystemKey::F13 => Some(Key::F13),
                SystemKey::F14 => Some(Key::F14),
                SystemKey::F15 => Some(Key::F15),
                SystemKey::F16 => Some(Key::F16),
                SystemKey::F17 => Some(Key::F17),
                SystemKey::F18 => Some(Key::F18),
                SystemKey::F19 => Some(Key::F19),
                SystemKey::F20 => Some(Key::F20),
                SystemKey::Home => Some(Key::Home),
                SystemKey::LeftArrow => Some(Key::LeftArrow),
                SystemKey::Meta => Some(Key::Meta),
                SystemKey::PageDown => Some(Key::PageDown),
                SystemKey::PageUp => Some(Key::PageUp),
                SystemKey::Return => Some(Key::Return),
                SystemKey::RightArrow => Some(Key::RightArrow),
                SystemKey::Shift => Some(Key::Shift),
                SystemKey::Space => Some(Key::Space),
                SystemKey::Tab => Some(Key::Tab),
                SystemKey::UpArrow => Some(Key::UpArrow),
                SystemKey::Subtract => Some(Key::KpMinus),
                SystemKey::Add => Some(Key::KpPlus),
                SystemKey::Multiply => Some(Key::KpMultiply),
                SystemKey::Divide => Some(Key::KpDivide),
                SystemKey::Numpad0 => Some(Key::Kp0),
                SystemKey::Numpad1 => Some(Key::Kp1),
                SystemKey::Numpad2 => Some(Key::Kp2),
                SystemKey::Numpad3 => Some(Key::Kp3),
                SystemKey::Numpad4 => Some(Key::Kp4),
                SystemKey::Numpad5 => Some(Key::Kp5),
                SystemKey::Numpad6 => Some(Key::Kp6),
                SystemKey::Numpad7 => Some(Key::Kp7),
                SystemKey::Numpad8 => Some(Key::Kp8),
                SystemKey::Numpad9 => Some(Key::Kp9),
                SystemKey::OEM4 => Some(Key::LeftBracket),
                SystemKey::OEM6 => Some(Key::RightBracket),
                SystemKey::Num1 => Some(Key::Num1),
                SystemKey::Num2 => Some(Key::Num2),
                SystemKey::Num3 => Some(Key::Num3),
                SystemKey::Num4 => Some(Key::Num4),
                SystemKey::Num5 => Some(Key::Num5),
                SystemKey::Num6 => Some(Key::Num6),
                SystemKey::Num7 => Some(Key::Num7),
                SystemKey::Num8 => Some(Key::Num8),
                SystemKey::Num9 => Some(Key::Num9),
                SystemKey::Num0 => Some(Key::Num0),
                SystemKey::OEMMinus => Some(Key::Minus),
                SystemKey::OEMPlus => Some(Key::Equal),
                SystemKey::Q => Some(Key::Q),
                SystemKey::W => Some(Key::W),
                SystemKey::E => Some(Key::E),
                SystemKey::R => Some(Key::R),
                SystemKey::T => Some(Key::T),
                SystemKey::Y => Some(Key::Y),
                SystemKey::U => Some(Key::U),
                SystemKey::I => Some(Key::I),
                SystemKey::O => Some(Key::O),
                SystemKey::P => Some(Key::P),
                SystemKey::A => Some(Key::A),
                SystemKey::S => Some(Key::S),
                SystemKey::D => Some(Key::D),
                SystemKey::F => Some(Key::F),
                SystemKey::G => Some(Key::G),
                SystemKey::H => Some(Key::H),
                SystemKey::J => Some(Key::J),
                SystemKey::K => Some(Key::K),
                SystemKey::L => Some(Key::L),
                SystemKey::Z => Some(Key::Z),
                SystemKey::X => Some(Key::X),
                SystemKey::C => Some(Key::C),
                SystemKey::V => Some(Key::V),
                SystemKey::B => Some(Key::B),
                SystemKey::N => Some(Key::N),
                SystemKey::M => Some(Key::M),
                SystemKey::OEM1 => Some(Key::SemiColon),
                SystemKey::OEM7 => Some(Key::Quote),
                SystemKey::OEM5 => Some(Key::BackSlash),
                SystemKey::OEMComma => Some(Key::Comma),
                SystemKey::OEMPeriod => Some(Key::Dot),
                SystemKey::OEM2 => Some(Key::Slash),
                SystemKey::OEM3 => Some(Key::BackQuote),
                SystemKey::Insert => Some(Key::Insert),
                SystemKey::PrintScr => Some(Key::PrintScreen),
                SystemKey::Scroll => Some(Key::ScrollLock),
                SystemKey::Pause => Some(Key::Pause),
                SystemKey::Numlock => Some(Key::NumLock),
                _ => None,
            },
        };
        match found {
            Some(key) => Ok(key),
            None => Err(Error::UnsupportedSystemKey),
        }
    }
}

/// Whether a key of the library can be told from its platform key again. One
/// key cannot: `KpDelete` shares its platform key with `Delete`.
pub open spec fn comes_back(key: Key) -> bool {
    key != Key::KpDelete
}

/// From a key of the library to the platform's key and back gives the key
/// again, on either platform, for every key but `KpDelete`, which comes back
/// as `Delete`.
pub proof fn lemma_key_comes_back(key: Key, platform: Platform)
    requires
        comes_back(key),
    ensures
        portable_key(native_key(key, platform), platform) == Some(key),
        portable_key(native_key(Key::KpDelete, platform), platform) == Some(Key::Delete),
{
}

/// From a platform's key to the key of the library and back gives the
/// platform's key again.
pub proof fn lemma_system_key_comes_back(native: SystemKey, platform: Platform)
    requires
        portable_key(native, platform) is Some,
    ensures
        native_key(portable_key(native, platform)->0, platform) == native,
        comes_back(portable_key(native, platform)->0),
{
}

/// On one platform no two keys of the library that come back share a
/// platform key.
pub proof fn lemma_native_keys_differ(a: Key, b: Key, platform: Platform)
    requires
        comes_back(a),
        comes_back(b),
        a != b,
    ensures
        native_key(a, platform) != native_key(b, platform),
{
    lemma_key_comes_back(a, platform);
    lemma_key_comes_back(b, platform);
}

} // verus!
