use vstd::prelude::*;

verus! {

/// A symmetric per-channel tolerance around a reference colour.
#[derive(Debug, Clone, Copy, PartialEq, Eq, Structural)]
pub struct RgbOffset {
    pub r: u8,
    pub g: u8,
    pub b: u8,
}

impl RgbOffset {
    pub fn new(r: u8, g: u8, b: u8) -> (o: RgbOffset)
        ensures
            o.r == r,
            o.g == g,
            o.b == b,
    {
        RgbOffset { r, g, b }
    }
}

} // verus!
