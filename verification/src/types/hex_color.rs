use vstd::prelude::*;
use vstd::string::StrSliceExecFns;
use vstd::string::StringExecFns;

use crate::types::rgb_color::{hex_digit, hex_text, packed, RgbColor};

verus! {

/// A colour in textual form: `#` followed by two hexadecimal digits for each
/// of red, green and blue.
pub type HexColor = String;

/// The value of a hexadecimal digit of either case, if `c` is one.
pub open spec fn hex_value(c: char) -> Option<int> {
    if c == '0' {
        Some(0)
    } else if c == '1' {
        Some(1)
    } else if c == '2' {
        Some(2)
    } else if c == '3' {
        Some(3)
    } else if c == '4' {
        Some(4)
    } else if c == '5' {
        Some(5)
    } else if c == '6' {
        Some(6)
    } else if c == '7' {
        Some(7)
    } else if c == '8' {
        Some(8)
    } else if c == '9' {
        Some(9)
    } else if c == 'a' || c == 'A' {
        Some(10)
    } else if c == 'b' || c == 'B' {
        Some(11)
    } else if c == 'c' || c == 'C' {
        Some(12)
    } else if c == 'd' || c == 'D' {
        Some(13)
    } else if c == 'e' || c == 'E' {
        Some(14)
    } else if c == 'f' || c == 'F' {
        Some(15)
    } else {
        None
    }
}

/// The value of the two hexadecimal digits at `at` and `at + 1`, if both are
/// digits.
pub open spec fn channel_of(text: Seq<char>, at: int) -> Option<u8> {
    match (hex_value(text[at]), hex_value(text[at + 1])) {
        (Some(high), Some(low)) => Some((16 * high + low) as u8),
        _ => None,
    }
}

/// The colour that a text stands for, if it is `#` and six hexadecimal
/// digits.
pub open spec fn color_of_hex(text: Seq<char>) -> Option<RgbColor> {
    if text.len() == 7 && text[0] == '#' {
        match (channel_of(text, 1), channel_of(text, 3), channel_of(text, 5)) {
            (Some(r), Some(g), Some(b)) => Some(RgbColor(r, g, b)),
            _ => None,
        }
    } else {
        None
    }
}

fn digit_value(c: char) -> (v: Option<u8>)
    ensures
        match v {
            Some(d) => hex_value(c) == Some(d as int) && d < 16,
            None => hex_value(c) is None,
        },
{
    match c {
        '0' => Some(0),
        '1' => Some(1),
        '2' => Some(2),
        '3' => Some(3),
        '4' => Some(4),
        '5' => Some(5),
        '6' => Some(6),
        '7' => Some(7),
        '8' => Some(8),
        '9' => Some(9),
        'a' | 'A' => Some(10),
        'b' | 'B' => Some(11),
        'c' | 'C' => Some(12),
        'd' | 'D' => Some(13),
        'e' | 'E' => Some(14),
        'f' | 'F' => Some(15),
        _ => None,
    }
}

fn channel_value(text: &str, at: usize) -> (v: Option<u8>)
    requires
        at + 1 < text@.len(),
        at < 6,
    ensures
        v == channel_of(text@, at as int),
{
    let high: u8 = match digit_value(text.get_char(at)) {
        Some(d) => d,
        None => { return None; },
    };
    let low: u8 = match digit_value(text.get_char(at + 1)) {
        Some(d) => d,
        None => { return None; },
    };
    Some(16 * high + low)
}

/// Reads a colour from its textual form.
pub fn parse_hex_color(text: &str) -> (color: Option<RgbColor>)
    ensures
        color == color_of_hex(text@),
{
    if text.unicode_len() != 7 {
        return None;
    }
    if text.get_char(0) != '#' {
        return None;
    }
    let r: u8 = match channel_value(text, 1) {
        Some(v) => v,
        None => { return None; },
    };
    let g: u8 = match channel_value(text, 3) {
        Some(v) => v,
        None => { return None; },
    };
    let b: u8 = match channel_value(text, 5) {
        Some(v) => v,
        None => { return None; },
    };
    Some(RgbColor(r, g, b))
}

/// What a textual colour offers.
pub trait HexColorExt: Sized {
    /// The text itself.
    spec fn text(&self) -> Seq<char>;

    /// The colour that the text stands for.
    fn to_rgb(&self) -> (color: RgbColor)
        requires
            color_of_hex(self.text()) is Some,
        ensures
            color_of_hex(self.text()) == Some(color),
    ;

    /// The colour packed into the low three bytes of a number.
    fn to_u32(&self) -> (n: u32)
        requires
            color_of_hex(self.text()) is Some,
        ensures
            n == packed(color_of_hex(self.text())->0),
    ;

    /// Black.
    fn empty() -> (black: Self)
        ensures
            color_of_hex(black.text()) == Some(RgbColor(0, 0, 0)),
    ;
}

impl HexColorExt for HexColor {
    open spec fn text(&self) -> Seq<char> {
        self@
    }

    fn to_rgb(&self) -> (color: RgbColor) {
        match parse_hex_color(self.as_str()) {
            Some(color) => color,
            None => RgbColor(0, 0, 0),
        }
    }

    fn to_u32(&self) -> (n: u32) {
        self.to_rgb().to_u32()
    }

    fn empty() -> (black: HexColor) {
        proof {
            reveal_strlit("#000000");
        }
        String::from_str("#000000")
    }
}

/// Writing a colour down and reading it back gives the same colour.
pub proof fn lemma_hex_round_trip(color: RgbColor)
    ensures
        color_of_hex(hex_text(color)) == Some(color),
{
    let text = hex_text(color);
    lemma_digit_round_trip(color.0 as int / 16);
    lemma_digit_round_trip(color.0 as int % 16);
    lemma_digit_round_trip(color.1 as int / 16);
    lemma_digit_round_trip(color.1 as int % 16);
    lemma_digit_round_trip(color.2 as int / 16);
    lemma_digit_round_trip(color.2 as int % 16);
    assert(channel_of(text, 1) == Some(color.0));
    assert(channel_of(text, 3) == Some(color.1));
    assert(channel_of(text, 5) == Some(color.2));
}

/// Every digit that is written is read back as its value.
pub proof fn lemma_digit_round_trip(value: int)
    requires
        0 <= value < 16,
    ensures
        hex_value(hex_digit(value)) == Some(value),
{
}

} // verus!
