use vstd::prelude::*;

use crate::capture::frame::{Frame, MAX_EXTENT};
use crate::error::Error;

verus! {

/// A dense matrix of bytes, row after row, `channels` bytes per element.
#[derive(Debug, Clone)]
pub struct Mat {
    pub rows: u32,
    pub cols: u32,
    pub channels: u32,
    pub data: Vec<u8>,
}

impl Mat {
    /// The number of elements.
    pub open spec fn elements(&self) -> int {
        self.rows * self.cols
    }

    /// The data holds exactly the bytes that the shape demands.
    pub open spec fn well_formed(&self) -> bool {
        self.data@.len() == self.elements() * self.channels
    }
}

/// `mat` holds the pixels of an RGBA image, given as width, height and bytes,
/// with the red and blue bytes swapped.
pub open spec fn is_bgra_pixels(mat: Mat, image: (u32, u32, Seq<u8>)) -> bool {
    &&& mat.rows == image.1
    &&& mat.cols == image.0
    &&& mat.channels == 4
    &&& mat.data@.len() == 4 * (image.0 * image.1)
    &&& forall|k: int|
        0 <= k < image.0 * image.1 ==> {
            &&& #[trigger] mat.data@[4 * k] == image.2[4 * k + 2]
            &&& mat.data@[4 * k + 1] == image.2[4 * k + 1]
            &&& mat.data@[4 * k + 2] == image.2[4 * k]
            &&& mat.data@[4 * k + 3] == image.2[4 * k + 3]
        }
}

/// `mat` holds the pixels of `frame` with the red and blue bytes swapped.
pub open spec fn is_bgra_of(mat: Mat, frame: Frame) -> bool {
    is_bgra_pixels(mat, (frame.width, frame.height, frame.buffer@))
}

/// `mat` holds one byte per pixel of `frame`: 0 where the pixel is fully
/// transparent, 255 elsewhere.
pub open spec fn is_mask_of(mat: Mat, frame: Frame) -> bool {
    &&& mat.rows == frame.height
    &&& mat.cols == frame.width
    &&& mat.channels == 1
    &&& mat.data@.len() == frame.width * frame.height
    &&& forall|k: int|
        0 <= k < frame.width * frame.height ==> #[trigger] mat.data@[k] == if frame.buffer@[4 * k
            + 3] == 0 {
            0u8
        } else {
            255u8
        }
}

/// `mat` holds the pixels of `frame` without their opacity.
pub open spec fn is_rgb_of(mat: Mat, frame: Frame) -> bool {
    &&& mat.rows == frame.height
    &&& mat.cols == frame.width
    &&& mat.channels == 3
    &&& mat.data@.len() == 3 * (frame.width * frame.height)
    &&& forall|k: int, c: int|
        0 <= k < frame.width * frame.height && 0 <= c < 3 ==> #[trigger] mat.data@[3 * k + c]
            == frame.buffer@[4 * k + c]
}

impl Frame {
    fn pixel_total(&self) -> (total: usize)
        requires
            self.fits(),
        ensures
            total == self.width * self.height,
            4 * total <= self.buffer@.len(),
            self.buffer@.len() <= usize::MAX,
    {
        assert(self.width as u64 * self.height as u64 <= 0x7fff_ffff * 0x7fff_ffff)
            by (nonlinear_arith)
            requires
                self.width <= 0x7fff_ffff,
                self.height <= 0x7fff_ffff,
        ;
        let total: u64 = self.width as u64 * self.height as u64;
        let have: usize = self.buffer.len();
        assert(total <= have);
        total as usize
    }

    /// The pixels in blue, green, red, alpha order, as template matching
    /// takes them.
    pub fn to_mat(&self) -> (mat: Mat)
        requires
            self.fits(),
        ensures
            is_bgra_of(mat, *self),
            mat.well_formed(),
    {
        let total: usize = self.pixel_total();
        let mut data: Vec<u8> = Vec::new();
        let mut k: usize = 0;
        while k < total
            invariant
                k <= total,
                4 * total <= self.buffer@.len(),
                self.buffer@.len() <= usize::MAX,
                data@.len() == 4 * k,
                forall|p: int|
                    0 <= p < k ==> {
                        &&& #[trigger] data@[4 * p] == self.buffer@[4 * p + 2]
                        &&& data@[4 * p + 1] == self.buffer@[4 * p + 1]
                        &&& data@[4 * p + 2] == self.buffer@[4 * p]
                        &&& data@[4 * p + 3] == self.buffer@[4 * p + 3]
                    },
            decreases total - k,
        {
            let at: usize = 4 * k;
            let ghost had = data@;
            data.push(self.buffer[at + 2]);
            data.push(self.buffer[at + 1]);
            data.push(self.buffer[at]);
            data.push(self.buffer[at + 3]);
            proof {
                assert forall|p: int| 0 <= p < k + 1 implies {
                    &&& #[trigger] data@[4 * p] == self.buffer@[4 * p + 2]
                    &&& data@[4 * p + 1] == self.buffer@[4 * p + 1]
                    &&& data@[4 * p + 2] == self.buffer@[4 * p]
                    &&& data@[4 * p + 3] == self.buffer@[4 * p + 3]
                } by {
                    if p < k {
                        assert(data@[4 * p] == had[4 * p]);
                        assert(data@[4 * p + 1] == had[4 * p + 1]);
                        assert(data@[4 * p + 2] == had[4 * p + 2]);
                        assert(data@[4 * p + 3] == had[4 * p + 3]);
                    }
                }
            }
            k += 1;
        }
        Mat { rows: self.height, cols: self.width, channels: 4, data }
    }

    /// Which pixels count in template matching: all but the fully transparent
    /// ones.
    pub fn mask(&self) -> (mat: Mat)
        requires
            self.fits(),
        ensures
            is_mask_of(mat, *self),
            mat.well_formed(),
    {
        let total: usize = self.pixel_total();
        let mut data: Vec<u8> = Vec::new();
        let mut k: usize = 0;
        while k < total
            invariant
                k <= total,
                4 * total <= self.buffer@.len(),
                self.buffer@.len() <= usize::MAX,
                data@.len() == k,
                forall|p: int|
                    0 <= p < k ==> #[trigger] data@[p] == if self.buffer@[4 * p + 3] == 0 {
                        0u8
                    } else {
                        255u8
                    },
            decreases total - k,
        {
            if self.buffer[4 * k + 3] == 0 {
                data.push(0);
            } else {
                data.push(255);
            }
            k += 1;
        }
        Mat { rows: self.height, cols: self.width, channels: 1, data }
    }

    /// The pixels without their opacity, three bytes each, as text
    /// recognition takes them.
    pub fn to_rgb(&self) -> (mat: Mat)
        requires
            self.fits(),
        ensures
            is_rgb_of(mat, *self),
            mat.well_formed(),
    {
        let total: usize = self.pixel_total();
        let mut data: Vec<u8> = Vec::new();
        let mut k: usize = 0;
        while k < total
            invariant
                k <= total,
                4 * total <= self.buffer@.len(),
                self.buffer@.len() <= usize::MAX,
                data@.len() == 3 * k,
                forall|p: int, c: int|
                    0 <= p < k && 0 <= c < 3 ==> #[trigger] data@[3 * p + c] == self.buffer@[4 * p
                        + c],
            decreases total - k,
        {
            let at: usize = 4 * k;
            let ghost had = data@;
            data.push(self.buffer[at]);
            data.push(self.buffer[at + 1]);
            data.push(self.buffer[at + 2]);
            proof {
                assert forall|p: int, c: int| 0 <= p < k + 1 && 0 <= c < 3 implies #[trigger] data@[3
                    * p + c] == self.buffer@[4 * p + c] by {
                    if p < k {
                        assert(data@[3 * p + c] == had[3 * p + c]);
                    }
                }
            }
            k += 1;
        }
        Mat { rows: self.height, cols: self.width, channels: 3, data }
    }
}

/// Reading a byte matrix back as a frame.
pub trait MatExt {
    /// The matrix as the library sees it.
    spec fn as_mat(&self) -> Mat;

    /// The matrix read as a frame, byte for byte: it must have four channels,
    /// a shape that fits a frame, and exactly the bytes its shape demands.
    fn to_buffer(&self) -> (r: Result<Frame, Error>)
        ensures
            r is Ok <==> self.as_mat().channels == 4 && self.as_mat().well_formed()
                && self.as_mat().rows <= MAX_EXTENT && self.as_mat().cols <= MAX_EXTENT,
            r matches Err(e) ==> e == Error::InvalidFrame,
            r matches Ok(frame) ==> frame.well_formed() && frame.width == self.as_mat().cols
                && frame.height == self.as_mat().rows && frame.buffer@ == self.as_mat().data@,
    ;
}

impl MatExt for Mat {
    open spec fn as_mat(&self) -> Mat {
        *self
    }

    fn to_buffer(&self) -> (r: Result<Frame, Error>) {
        if self.channels != 4 || self.rows > MAX_EXTENT || self.cols > MAX_EXTENT {
            return Err(Error::InvalidFrame);
        }
        assert(self.rows as u64 * self.cols as u64 <= 0x7fff_ffff * 0x7fff_ffff)
            by (nonlinear_arith)
            requires
                self.rows <= 0x7fff_ffff,
                self.cols <= 0x7fff_ffff,
        ;
        let need: u64 = 4 * (self.rows as u64 * self.cols as u64);
        assert(need == self.elements() * self.channels) by (nonlinear_arith)
            requires
                need == 4 * (self.rows * self.cols),
                self.elements() == self.rows * self.cols,
                self.channels == 4,
        ;
        if self.data.len() as u64 != need {
            return Err(Error::InvalidFrame);
        }
        let mut buffer: Vec<u8> = Vec::with_capacity(self.data.len());
        let mut i: usize = 0;
        while i < self.data.len()
            invariant
                i <= self.data@.len(),
                buffer@ =~= self.data@.subrange(0, i as int),
            decreases self.data@.len() - i,
        {
            buffer.push(self.data[i]);
            i += 1;
        }
        assert(buffer@ =~= self.data@);
        assert(self.cols * self.rows == self.rows * self.cols) by (nonlinear_arith);
        Ok(Frame { width: self.cols, height: self.rows, buffer })
    }
}

} // verus!
