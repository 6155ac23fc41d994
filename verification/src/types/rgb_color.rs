use vstd::prelude::*;
use vstd::string::StringExecFns;

use crate::types::rgb_offset::RgbOffset;

verus! {

/// A colour as three 8-bit channels: red, green, blue.
#[derive(Debug, Clone, Copy, PartialEq, Eq, Structural)]
pub struct RgbColor(pub u8, pub u8, pub u8);

/// Whether `target` lies in the inclusive band of half-width `offset` around
/// `reference`, the band being cut off at 0 and at 255.
pub open spec fn channel_in_band(reference: u8, offset: u8, target: u8) -> bool {
    let low = if reference - offset < 0 {
        0
    } else {
        reference - offset
    };
    let high = if reference + offset > 255 {
        255
    } else {
        reference + offset
    };
    low <= target <= high
}

/// Whether every channel of `target` lies in the band around the same channel
/// of `reference`.
pub open spec fn color_in_band(reference: RgbColor, offset: RgbOffset, target: RgbColor) -> bool {
    &&& channel_in_band(reference.0, offset.r, target.0)
    &&& channel_in_band(reference.1, offset.g, target.1)
    &&& channel_in_band(reference.2, offset.b, target.2)
}

/// The per-channel difference `reference - target`.
pub open spec fn color_delta(reference: RgbColor, target: RgbColor) -> (i16, i16, i16) {
    (
        (reference.0 - target.0) as i16,
        (reference.1 - target.1) as i16,
        (reference.2 - target.2) as i16,
    )
}

/// The lower-case hexadecimal digit for a value below sixteen.
pub open spec fn hex_digit(value: int) -> char {
    if value == 0 {
        '0'
    } else if value == 1 {
        '1'
    } else if value == 2 {
        '2'
    } else if value == 3 {
        '3'
    } else if value == 4 {
        '4'
    } else if value == 5 {
        '5'
    } else if value == 6 {
        '6'
    } else if value == 7 {
        '7'
    } else if value == 8 {
        '8'
    } else if value == 9 {
        '9'
    } else if value == 10 {
        'a'
    } else if value == 11 {
        'b'
    } else if value == 12 {
        'c'
    } else if value == 13 {
        'd'
    } else if value == 14 {
        'e'
    } else {
        'f'
    }
}

/// The textual form of a colour: `#`, then two lower-case hexadecimal digits
/// per channel.
pub open spec fn hex_text(color: RgbColor) -> Seq<char> {
    seq![
        '#',
        hex_digit(color.0 as int / 16),
        hex_digit(color.0 as int % 16),
        hex_digit(color.1 as int / 16),
        hex_digit(color.1 as int % 16),
        hex_digit(color.2 as int / 16),
        hex_digit(color.2 as int % 16),
    ]
}

/// The colour as one number, red in the highest of three bytes.
pub open spec fn packed(color: RgbColor) -> int {
    color.0 as int * 65536 + color.1 as int * 256 + color.2 as int
}

fn channel_matches(reference: u8, offset: u8, target: u8) -> (hit: bool)
    ensures
        hit == channel_in_band(reference, offset, target),
{
    let low: u8 = match reference.checked_sub(offset) {
        Some(value) => value,
        None => 0,
    };
    let high: u8 = match reference.checked_add(offset) {
        Some(value) => value,
        None => 255,
    };
    low <= target && target <= high
}

fn digit_text(value: u8) -> (text: &'static str)
    requires
        value < 16,
    ensures
        text@ == seq![hex_digit(value as int)],
{
    proof {
        reveal_strlit("0");
        reveal_strlit("1");
        reveal_strlit("2");
        reveal_strlit("3");
        reveal_strlit("4");
        reveal_strlit("5");
        reveal_strlit("6");
        reveal_strlit("7");
        reveal_strlit("8");
        reveal_strlit("9");
        reveal_strlit("a");
        reveal_strlit("b");
        reveal_strlit("c");
        reveal_strlit("d");
        reveal_strlit("e");
        reveal_strlit("f");
    }
    let text: &'static str = match value {
        0 => "0",
        1 => "1",
        2 => "2",
        3 => "3",
        4 => "4",
        5 => "5",
        6 => "6",
        7 => "7",
        8 => "8",
        9 => "9",
        10 => "a",
        11 => "b",
        12 => "c",
        13 => "d",
        14 => "e",
        _ => "f",
    };
    assert(text@ =~= seq![hex_digit(value as int)]);
    text
}

impl RgbColor {
    /// Compares `target` with this reference colour under a tolerance. When
    /// every channel of `target` is inside its band the per-channel difference
    /// `self - target` is returned, else nothing.
    pub fn range_compare(&self, rgb_offset: RgbOffset, target: &RgbColor) -> (r: Option<
        (i16, i16, i16),
    >)
        ensures
            r == if color_in_band(*self, rgb_offset, *target) {
                Some(color_delta(*self, *target))
            } else {
                None
            },
    {
        if channel_matches(self.0, rgb_offset.r, target.0) && channel_matches(
            self.1,
            rgb_offset.g,
            target.1,
        ) && channel_matches(self.2, rgb_offset.b, target.2) {
            Some(
                (
                    self.0 as i16 - target.0 as i16,
                    self.1 as i16 - target.1 as i16,
                    self.2 as i16 - target.2 as i16,
                ),
            )
        } else {
            None
        }
    }

    /// The lower-case `#rrggbb` form of the colour.
    pub fn to_hex(&self) -> (s: String)
        ensures
            s@ == hex_text(*self),
    {
        proof {
            reveal_strlit("#");
        }
        let mut s: String = String::from_str("#");
        s.append(digit_text(self.0 / 16));
        s.append(digit_text(self.0 % 16));
        s.append(digit_text(self.1 / 16));
        s.append(digit_text(self.1 % 16));
        s.append(digit_text(self.2 / 16));
        s.append(digit_text(self.2 % 16));
        assert(s@ =~= hex_text(*self));
        s
    }

    /// The colour packed into the low three bytes of a number.
    pub fn to_u32(&self) -> (n: u32)
        ensures
            n == packed(*self),
    {
        let r: u32 = self.0 as u32;
        let g: u32 = self.1 as u32;
        let b: u32 = self.2 as u32;
        assert((r << 16) | (g << 8) | b == r * 65536 + g * 256 + b) by (bit_vector)
            requires
                r < 256,
                g < 256,
                b < 256,
        ;
        (r << 16) | (g << 8) | b
    }
}

/// A colour always matches itself, whatever the tolerance, with zero
/// difference.
pub proof fn lemma_color_matches_itself(color: RgbColor, offset: RgbOffset)
    ensures
        color_in_band(color, offset, color),
        color_delta(color, color) == (0i16, 0i16, 0i16),
{
}

/// With zero tolerance only the reference colour itself matches.
pub proof fn lemma_zero_tolerance_is_equality(reference: RgbColor, target: RgbColor)
    ensures
        color_in_band(reference, RgbOffset { r: 0, g: 0, b: 0 }, target) <==> reference == target,
{
}

/// Widening the tolerance never loses a match.
pub proof fn lemma_band_monotone(
    reference: RgbColor,
    narrow: RgbOffset,
    wide: RgbOffset,
    target: RgbColor,
)
    requires
        narrow.r <= wide.r,
        narrow.g <= wide.g,
        narrow.b <= wide.b,
        color_in_band(reference, narrow, target),
    ensures
        color_in_band(reference, wide, target),
{
}

} // verus!
