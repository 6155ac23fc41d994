use vstd::prelude::*;

use crate::types::hex_color::HexColor;
use crate::types::point::Point;

verus! {

/// A point with a colour: what a colour search finds, and one star of a
/// constellation to search for.
#[derive(Debug, Clone, PartialEq, Eq)]
pub struct ColoredPoint {
    pub point: Point,
    pub hex: HexColor,
}

impl ColoredPoint {
    pub fn new(point: Point, hex: String) -> (cp: ColoredPoint)
        ensures
            cp.point == point,
            cp.hex == hex,
    {
        ColoredPoint { point, hex }
    }
}

} // verus!
