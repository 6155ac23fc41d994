use vstd::prelude::*;

use crate::error::Error;
use crate::types::point::Point;
use crate::types::rgb_color::RgbColor;
use crate::types::size::Size;

verus! {

/// The largest width or height whose coordinates all fit an `i32`.
pub const MAX_EXTENT: u32 = 0x7fff_ffff;

/// A pixel snapshot: four bytes per pixel (red, green, blue, alpha), rows from
/// top to bottom, pixels from left to right.
#[derive(Debug, Clone)]
pub struct Frame {
    pub width: u32,
    pub height: u32,
    pub buffer: Vec<u8>,
}

/// Where the four bytes of pixel `(x, y)` start in the buffer of a frame that
/// is `width` pixels wide.
pub open spec fn pixel_offset(width: int, x: int, y: int) -> int {
    4 * (y * width + x)
}

/// Every pixel of a `width` by `height` grid lies inside `4 * width * height`
/// bytes, and inside the bytes of the rows down to its own.
pub proof fn lemma_pixel_offset_bounds(width: int, height: int, x: int, y: int)
    requires
        0 <= x < width,
        0 <= y < height,
    ensures
        0 <= pixel_offset(width, x, y),
        pixel_offset(width, x, y) + 4 <= 4 * (width * height),
        pixel_offset(width, x, y) + 4 <= 4 * ((y + 1) * width),
{
    assert(y * width + x < (y + 1) * width) by (nonlinear_arith)
        requires
            0 <= x < width,
    ;
    assert((y + 1) * width <= height * width) by (nonlinear_arith)
        requires
            0 <= y < height,
            0 <= width,
    ;
    assert(0 <= y * width) by (nonlinear_arith)
        requires
            0 <= y,
            0 <= width,
    ;
    assert(height * width == width * height) by (nonlinear_arith);
}

/// Whether `(ax, ay)` comes before `(bx, by)` when rows are read from top to
/// bottom and each row from left to right.
pub open spec fn raster_before(ax: int, ay: int, bx: int, by: int) -> bool {
    ay < by || (ay == by && ax < bx)
}

/// Where a crop starts on one axis: the coordinate itself when it lies on the
/// frame, else the far edge (so that nothing is left to crop).
pub open spec fn crop_origin(coordinate: i32, extent: u32) -> int {
    if 0 <= coordinate <= extent {
        coordinate as int
    } else {
        extent as int
    }
}

/// How much of the wanted length is left on one axis after the origin.
pub open spec fn crop_extent(coordinate: i32, wanted: u32, extent: u32) -> int {
    let rest = extent - crop_origin(coordinate, extent);
    if wanted <= rest {
        wanted as int
    } else {
        rest
    }
}

impl Frame {
    /// The number of bytes that the dimensions demand.
    pub open spec fn byte_len(&self) -> int {
        4 * (self.width * self.height)
    }

    /// The buffer holds at least the bytes that the dimensions demand, and
    /// every coordinate fits an `i32`.
    pub open spec fn fits(&self) -> bool {
        &&& self.width <= MAX_EXTENT
        &&& self.height <= MAX_EXTENT
        &&& self.byte_len() <= self.buffer@.len()
    }

    /// The buffer holds exactly the bytes that the dimensions demand.
    pub open spec fn well_formed(&self) -> bool {
        &&& self.width <= MAX_EXTENT
        &&& self.height <= MAX_EXTENT
        &&& self.byte_len() == self.buffer@.len()
    }

    /// The colour of pixel `(x, y)`.
    pub open spec fn color_at(&self, x: int, y: int) -> RgbColor {
        let at = pixel_offset(self.width as int, x, y);
        RgbColor(self.buffer@[at], self.buffer@[at + 1], self.buffer@[at + 2])
    }

    /// Whether `other` is the part of this frame that starts at `point` and is
    /// at most `size` large, cut off at the frame's edges.
    pub open spec fn cropped_to(&self, point: Point, size: Size, other: Frame) -> bool {
        let left = crop_origin(point.x, self.width);
        let top = crop_origin(point.y, self.height);
        &&& other.well_formed()
        &&& other.width == crop_extent(point.x, size.width, self.width)
        &&& other.height == crop_extent(point.y, size.height, self.height)
        &&& forall|x: int, y: int, c: int|
            0 <= x < other.width && 0 <= y < other.height && 0 <= c < 4
                ==> #[trigger] other.buffer@[pixel_offset(other.width as int, x, y) + c]
                == self.buffer@[pixel_offset(self.width as int, left + x, top + y) + c]
    }

    pub fn new(width: u32, height: u32, buffer: Vec<u8>) -> (frame: Frame)
        ensures
            frame.width == width,
            frame.height == height,
            frame.buffer == buffer,
    {
        Frame { width, height, buffer }
    }

    /// Whether the buffer is long enough for the dimensions and the dimensions
    /// fit signed coordinates.
    pub fn is_valid(&self) -> (valid: bool)
        ensures
            valid == self.fits(),
    {
        if self.width > MAX_EXTENT || self.height > MAX_EXTENT {
            return false;
        }
        assert(self.width as u64 * self.height as u64 <= 0x7fff_ffff * 0x7fff_ffff)
            by (nonlinear_arith)
            requires
                self.width <= 0x7fff_ffff,
                self.height <= 0x7fff_ffff,
        ;
        let need: u64 = 4 * (self.width as u64 * self.height as u64);
        need <= self.buffer.len() as u64
    }

    /// A copy of the frame as a pixel grid of exactly `4 * width * height`
    /// bytes; bytes beyond that are dropped. Fails when the buffer is too
    /// short or a dimension too large.
    pub fn to_buffer(&self) -> (r: Result<Frame, Error>)
        ensures
            r is Ok <==> self.fits(),
            r matches Err(e) ==> e == Error::InvalidFrame,
            r matches Ok(grid) ==> grid.well_formed() && grid.width == self.width && grid.height
                == self.height && grid.buffer@ == self.buffer@.subrange(0, self.byte_len()),
    {
        if !self.is_valid() {
            return Err(Error::InvalidFrame);
        }
        assert(self.width as u64 * self.height as u64 <= 0x7fff_ffff * 0x7fff_ffff)
            by (nonlinear_arith)
            requires
                self.width <= 0x7fff_ffff,
                self.height <= 0x7fff_ffff,
        ;
        let wide: u64 = 4 * (self.width as u64 * self.height as u64);
        assert(wide == self.byte_len());
        let have: usize = self.buffer.len();
        assert(wide <= have);
        let need: usize = wide as usize;
        let mut data: Vec<u8> = Vec::with_capacity(need);
        let mut i: usize = 0;
        while i < need
            invariant
                i <= need,
                need <= self.buffer@.len(),
                data@ =~= self.buffer@.subrange(0, i as int),
            decreases need - i,
        {
            data.push(self.buffer[i]);
            i += 1;
            assert(data@ =~= self.buffer@.subrange(0, i as int));
        }
        Ok(Frame { width: self.width, height: self.height, buffer: data })
    }

    /// Where a crop starts on one axis and how far it reaches.
    pub fn crop_span(coordinate: i32, wanted: u32, extent: u32) -> (span: (u32, u32))
        ensures
            span.0 == crop_origin(coordinate, extent),
            span.1 == crop_extent(coordinate, wanted, extent),
            span.0 + span.1 <= extent,
    {
        let origin: u32 = if coordinate < 0 || coordinate as u32 > extent {
            extent
        } else {
            coordinate as u32
        };
        let reach: u32 = if wanted <= extent - origin {
            wanted
        } else {
            extent - origin
        };
        (origin, reach)
    }

    /// The part of the frame that starts at `point` and is at most `size`
    /// large. What would lie beyond the frame's edges is cut off; a start
    /// point that is not on the frame leaves nothing.
    pub fn crop(&self, point: Point, size: Size) -> (part: Frame)
        requires
            self.fits(),
        ensures
            self.cropped_to(point, size, part),
    {
        let (left, width) = Frame::crop_span(point.x, size.width, self.width);
        let (top, height) = Frame::crop_span(point.y, size.height, self.height);
        let source_width: usize = self.width as usize;
        let mut data: Vec<u8> = Vec::new();
        let mut y: u32 = 0;
        while y < height
            invariant
                y <= height,
                self.fits(),
                source_width == self.width,
                left + width <= self.width,
                top + height <= self.height,
                data@.len() == 4 * (y * width),
                forall|i: int, j: int, c: int|
                    0 <= i < width && 0 <= j < y && 0 <= c < 4 ==> #[trigger] data@[pixel_offset(
                        width as int,
                        i,
                        j,
                    ) + c] == self.buffer@[pixel_offset(self.width as int, left + i, top + j) + c],
            decreases height - y,
        {
            let mut x: u32 = 0;
            while x < width
                invariant
                    x <= width,
                    y < height,
                    self.fits(),
                    source_width == self.width,
                    left + width <= self.width,
                    top + height <= self.height,
                    data@.len() == pixel_offset(width as int, x as int, y as int),
                    forall|i: int, j: int, c: int|
                        0 <= i < width && 0 <= c < 4 && (0 <= j < y || (j == y && i < x))
                            ==> #[trigger] data@[pixel_offset(width as int, i, j) + c]
                            == self.buffer@[pixel_offset(self.width as int, left + i, top + j) + c],
                decreases width - x,
            {
                proof {
                    lemma_pixel_offset_bounds(
                        self.width as int,
                        self.height as int,
                        (left + x) as int,
                        (top + y) as int,
                    );
                    assert((top + y) * self.width >= 0) by (nonlinear_arith)
                        requires
                            top + y >= 0,
                            self.width >= 0,
                    ;
                }
                let total: usize = self.buffer.len();
                let ghost at = pixel_offset(self.width as int, (left + x) as int, (top + y) as int);
                let ghost had = data@;
                let row: usize = (top + y) as usize;
                let column: usize = (left + x) as usize;
                let start: usize = 4 * (row * source_width + column);
                assert(start == at);
                data.push(self.buffer[start]);
                data.push(self.buffer[start + 1]);
                data.push(self.buffer[start + 2]);
                data.push(self.buffer[start + 3]);
                proof {
                    let base = pixel_offset(width as int, x as int, y as int);
                    assert(pixel_offset(width as int, x as int + 1, y as int) == base + 4);
                    assert forall|i: int, j: int, c: int|
                        0 <= i < width && 0 <= c < 4 && (0 <= j < y || (j == y && i < x + 1))
                        implies #[trigger] data@[pixel_offset(width as int, i, j) + c]
                        == self.buffer@[pixel_offset(self.width as int, left + i, top + j) + c] by {
                        if j == y && i == x {
                            assert(data@[base + c] == self.buffer@[at + c]);
                        } else {
                            lemma_pixel_order(width as int, i, j, x as int, y as int);
                            assert(data@[pixel_offset(width as int, i, j) + c] == had[pixel_offset(
                                width as int,
                                i,
                                j,
                            ) + c]);
                        }
                    }
                }
                x += 1;
            }
            proof {
                assert(pixel_offset(width as int, width as int, y as int) == 4 * ((y + 1) * width))
                    by (nonlinear_arith);
            }
            y += 1;
            proof {
                assert(pixel_offset(width as int, 0, y as int) == 4 * (y * width));
            }
        }
        proof {
            assert(4 * (height * width) == 4 * (width * height)) by (nonlinear_arith);
        }
        Frame { width, height, buffer: data }
    }
}

/// A pixel that comes earlier, rows read from the top and each from the left,
/// ends before the later one starts.
pub proof fn lemma_pixel_order(width: int, ax: int, ay: int, bx: int, by: int)
    requires
        0 <= ax < width,
        0 <= bx <= width,
        0 <= ay,
        ay < by || (ay == by && ax < bx),
    ensures
        0 <= pixel_offset(width, ax, ay),
        pixel_offset(width, ax, ay) + 4 <= pixel_offset(width, bx, by),
{
    assert(ay * width >= 0) by (nonlinear_arith)
        requires
            ay >= 0,
            width >= 0,
    ;
    if ay < by {
        assert((ay + 1) * width <= by * width) by (nonlinear_arith)
            requires
                ay + 1 <= by,
                width >= 0,
        ;
        assert((ay + 1) * width == ay * width + width) by (nonlinear_arith);
    }
}

} // verus!
