use vstd::prelude::*;

use crate::types::size::Size;

verus! {

/// A signed pixel coordinate.
#[derive(Debug, Clone, Copy, PartialEq, Eq, Structural)]
pub struct Point {
    pub x: i32,
    pub y: i32,
}

/// Absolute difference of two coordinates, as a mathematical integer.
pub open spec fn axis_distance(a: int, b: int) -> int {
    if a >= b {
        a - b
    } else {
        b - a
    }
}

/// Two points are too close for a given size when their distance is smaller
/// than the size on both axes.
pub open spec fn too_close(a: Point, b: Point, size: Size) -> bool {
    axis_distance(a.x as int, b.x as int) < size.width && axis_distance(a.y as int, b.y as int)
        < size.height
}

fn exec_axis_distance(a: i32, b: i32) -> (d: i64)
    ensures
        d == axis_distance(a as int, b as int),
        0 <= d <= 0xffff_ffff,
{
    let wide_a: i64 = a as i64;
    let wide_b: i64 = b as i64;
    if wide_a >= wide_b {
        wide_a - wide_b
    } else {
        wide_b - wide_a
    }
}

impl Point {
    pub fn new(x: i32, y: i32) -> (p: Point)
        ensures
            p.x == x,
            p.y == y,
    {
        Point { x, y }
    }

    /// Whether `other` lies closer to `self` than `size` on both axes. The
    /// distances are taken without wrap-around, whatever the coordinates.
    pub fn is_too_close(&self, other: &Point, size: &Size) -> (close: bool)
        ensures
            close == too_close(*self, *other, *size),
    {
        let dx: i64 = exec_axis_distance(self.x, other.x);
        let dy: i64 = exec_axis_distance(self.y, other.y);
        dx < size.width as i64 && dy < size.height as i64
    }
}

/// Closeness does not depend on the order of the two points.
pub proof fn lemma_too_close_symmetric(a: Point, b: Point, size: Size)
    ensures
        too_close(a, b, size) == too_close(b, a, size),
{
}

} // verus!
