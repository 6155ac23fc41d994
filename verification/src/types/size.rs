use vstd::prelude::*;

use crate::types::point::Point;

verus! {

/// An unsigned extent in pixels.
#[derive(Debug, Clone, Copy, PartialEq, Eq, Structural)]
pub struct Size {
    pub width: u32,
    pub height: u32,
}

/// Why two corner points span no region.
#[derive(Debug, Clone, Copy, PartialEq, Eq, Structural)]
pub enum SizeError {
    /// The end point is not to the right of the start point.
    WidthNotPositive,
    /// The end point is not below the start point.
    HeightNotPositive,
}

/// The region spanned by two corners, or the reason there is none. The width
/// is examined before the height.
pub open spec fn span(start: Point, end: Point) -> Result<Size, SizeError> {
    if end.x - start.x <= 0 {
        Err(SizeError::WidthNotPositive)
    } else if end.y - start.y <= 0 {
        Err(SizeError::HeightNotPositive)
    } else {
        Ok(Size { width: (end.x - start.x) as u32, height: (end.y - start.y) as u32 })
    }
}

impl Size {
    pub fn new(width: u32, height: u32) -> (s: Size)
        ensures
            s.width == width,
            s.height == height,
    {
        Size { width, height }
    }

    /// The size of the region whose top-left corner is `start_point` and whose
    /// bottom-right corner is `end_point`. Both extents must be positive.
    pub fn new_from_start_end_points(start_point: Point, end_point: Point) -> (r: Result<
        Size,
        SizeError,
    >)
        ensures
            r == span(start_point, end_point),
    {
        let width: i64 = end_point.x as i64 - start_point.x as i64;
        let height: i64 = end_point.y as i64 - start_point.y as i64;
        if width <= 0 {
            return Err(SizeError::WidthNotPositive);
        }
        if height <= 0 {
            return Err(SizeError::HeightNotPositive);
        }
        Ok(Size { width: width as u32, height: height as u32 })
    }
}

/// A region built from two corners never has an empty side, and its sides are
/// the coordinate differences.
pub proof fn lemma_span_positive(start: Point, end: Point)
    ensures
        span(start, end) matches Ok(s) ==> s.width > 0 && s.height > 0 && s.width == end.x - start.x
            && s.height == end.y - start.y,
        span(start, end) is Ok <==> end.x > start.x && end.y > start.y,
{
}

} // verus!
