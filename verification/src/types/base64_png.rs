use vstd::prelude::*;
use vstd::string::StrSliceExecFns;
use vstd::string::StringExecFns;

use crate::capture::frame::{Frame, MAX_EXTENT};
use crate::capture::mat::{is_bgra_pixels, Mat};
use crate::error::Error;
use crate::text::text_eq;

verus! {

/// An image on the wire: a PNG in base64, after the prefix of a data URL.
pub type Base64Png = String;

/// The PNG file that encodes an RGBA image, if it can be encoded.
pub uninterp spec fn png_bytes(width: u32, height: u32, data: Seq<u8>) -> Option<Seq<u8>>;

/// The RGBA image that a PNG file decodes to, if it is one: width, height and
/// pixel bytes.
pub uninterp spec fn png_pixels(bytes: Seq<u8>) -> Option<(u32, u32, Seq<u8>)>;

/// The standard base64 text of some bytes.
pub uninterp spec fn base64_text(bytes: Seq<u8>) -> Seq<char>;

/// The bytes that a standard base64 text stands for, if it is one.
pub uninterp spec fn base64_bytes(text: Seq<char>) -> Option<Seq<u8>>;

/// `PngEncoder::write_image` of the `image` crate, for eight-bit RGBA, into a
/// fresh buffer: the PNG file, or nothing where the encoder reports an error.
/// The encoder panics on a buffer whose length does not match the dimensions,
/// which the precondition rules out. The result is a function of the
/// arguments alone; the contract gives it a name and claims nothing else.
#[verifier::external_body]
fn png_encode(width: u32, height: u32, data: &Vec<u8>) -> (r: Option<Vec<u8>>)
    requires
        width <= MAX_EXTENT,
        height <= MAX_EXTENT,
        data@.len() == 4 * (width * height),
    ensures
        match r {
            Some(bytes) => png_bytes(width, height, data@) == Some(bytes@),
            None => png_bytes(width, height, data@) is None,
        },
{
    let mut out: Vec<u8> = Vec::new();
    let encoder = image::codecs::png::PngEncoder::new(&mut out);
    let color = image::ExtendedColorType::Rgba8;
    match image::ImageEncoder::write_image(encoder, data, width, height, color) {
        Ok(()) => Some(out),
        Err(_) => None,
    }
}

/// `image::load_from_memory_with_format` for PNG, followed by
/// `DynamicImage::into_rgba8`: width, height and pixel bytes, or nothing
/// where the decoder reports an error. The result is a function of the bytes
/// alone; the contract gives it a name and claims nothing else.
#[verifier::external_body]
fn png_decode(bytes: &Vec<u8>) -> (r: Option<(u32, u32, Vec<u8>)>)
    ensures
        match r {
            Some(image) => png_pixels(bytes@) == Some((image.0, image.1, image.2@)),
            None => png_pixels(bytes@) is None,
        },
{
    match image::load_from_memory_with_format(bytes, image::ImageFormat::Png) {
        Ok(decoded) => {
            let pixels = decoded.into_rgba8();
            Some((pixels.width(), pixels.height(), pixels.into_raw()))
        },
        Err(_) => None,
    }
}

/// `Engine::encode` of the `base64` crate with the standard alphabet and
/// padding. It panics only if the length of the text overflows `usize`, which
/// no slice is long enough to cause. The result is a function of the bytes
/// alone; the contract gives it a name and claims nothing else.
#[verifier::external_body]
fn base64_encode(bytes: &Vec<u8>) -> (text: String)
    ensures
        text@ == base64_text(bytes@),
{
    base64::Engine::encode(&base64::engine::general_purpose::STANDARD, bytes)
}

/// `Engine::decode` of the `base64` crate with the standard alphabet and
/// padding: the bytes, or nothing where the text is refused. The result is a
/// function of the text alone; the contract gives it a name and claims
/// nothing else.
#[verifier::external_body]
fn base64_decode(text: &str) -> (r: Option<Vec<u8>>)
    ensures
        match r {
            Some(bytes) => base64_bytes(text@) == Some(bytes@),
            None => base64_bytes(text@) is None,
        },
{
    match base64::Engine::decode(&base64::engine::general_purpose::STANDARD, text) {
        Ok(bytes) => Some(bytes),
        Err(_) => None,
    }
}

/// What stands before the base64 text of an image on the wire.
pub open spec fn wire_prefix() -> Seq<char> {
    "data:image/png;base64,"@
}

/// The base64 text of an image on the wire: what follows the prefix, or the
/// whole text where it does not start with the prefix.
pub open spec fn payload_of(text: Seq<char>) -> Seq<char> {
    if wire_prefix().is_prefix_of(text) {
        text.skip(wire_prefix().len() as int)
    } else {
        text
    }
}

/// The image on the wire that a frame makes, if its buffer has exactly the
/// length that its dimensions demand and the PNG encoder takes it.
pub open spec fn wire_text(frame: Frame) -> Result<Seq<char>, Error> {
    if !frame.well_formed() {
        Err(Error::InvalidFrame)
    } else {
        match png_bytes(frame.width, frame.height, frame.buffer@) {
            Some(bytes) => Ok(wire_prefix() + base64_text(bytes)),
            None => Err(Error::InvalidImage),
        }
    }
}

/// The pixels that an image on the wire holds: width, height and bytes.
pub open spec fn wire_pixels(text: Seq<char>) -> Result<(u32, u32, Seq<u8>), Error> {
    match base64_bytes(payload_of(text)) {
        None => Err(Error::InvalidImage),
        Some(bytes) => match png_pixels(bytes) {
            None => Err(Error::InvalidImage),
            Some(image) => if image.0 <= MAX_EXTENT && image.1 <= MAX_EXTENT && image.2.len() == 4
                * (image.0 * image.1) {
                Ok(image)
            } else {
                Err(Error::InvalidFrame)
            },
        },
    }
}

/// The base64 text of an image on the wire.
pub fn payload(text: &str) -> (rest: &str)
    ensures
        rest@ == payload_of(text@),
{
    proof {
        reveal_strlit("data:image/png;base64,");
    }
    let n: usize = text.unicode_len();
    if n >= 22 {
        let head: &str = text.substring_char(0, 22);
        if text_eq(head, "data:image/png;base64,") {
            assert(wire_prefix().is_prefix_of(text@)) by {
                assert(text@.subrange(0, 22) =~= wire_prefix());
            }
            let rest: &str = text.substring_char(22, n);
            assert(rest@ =~= text@.skip(22));
            return rest;
        }
        assert(!wire_prefix().is_prefix_of(text@)) by {
            if wire_prefix().is_prefix_of(text@) {
                assert(text@.subrange(0, 22) =~= wire_prefix());
            }
        }
    }
    text
}

/// What a frame's dimensions and buffer allow to be encoded: a buffer of
/// exactly the length that the dimensions demand.
pub fn encodable(frame: &Frame) -> (yes: bool)
    ensures
        yes == frame.well_formed(),
{
    if frame.width > MAX_EXTENT || frame.height > MAX_EXTENT {
        return false;
    }
    assert(frame.width as u64 * frame.height as u64 <= 0x7fff_ffff * 0x7fff_ffff)
        by (nonlinear_arith)
        requires
            frame.width <= 0x7fff_ffff,
            frame.height <= 0x7fff_ffff,
    ;
    let need: u64 = 4 * (frame.width as u64 * frame.height as u64);
    frame.buffer.len() as u64 == need
}

/// The image on the wire with the given base64 text.
pub fn prefixed(base64: &str) -> (text: Base64Png)
    ensures
        text@ == wire_prefix() + base64@,
{
    String::from_str("data:image/png;base64,").concat(base64)
}

/// The frame that decoded pixels make, if they are as many as the dimensions
/// demand and the dimensions fit a frame.
pub fn frame_of_pixels(width: u32, height: u32, buffer: Vec<u8>) -> (r: Result<Frame, Error>)
    ensures
        match r {
            Ok(frame) => frame.well_formed() && frame.width == width && frame.height == height
                && frame.buffer == buffer,
            Err(e) => e == Error::InvalidFrame && !(width <= MAX_EXTENT && height <= MAX_EXTENT
                && buffer@.len() == 4 * (width * height)),
        },
{
    let frame = Frame { width, height, buffer };
    if encodable(&frame) {
        Ok(frame)
    } else {
        Err(Error::InvalidFrame)
    }
}

impl Frame {
    /// The frame as an image on the wire.
    pub fn to_base64_png(&self) -> (r: Result<Base64Png, Error>)
        ensures
            match r {
                Ok(text) => wire_text(*self) == Ok::<Seq<char>, Error>(text@),
                Err(e) => wire_text(*self) == Err::<Seq<char>, Error>(e),
            },
    {
        if !encodable(self) {
            return Err(Error::InvalidFrame);
        }
        match png_encode(self.width, self.height, &self.buffer) {
            Some(bytes) => Ok(prefixed(base64_encode(&bytes).as_str())),
            None => Err(Error::InvalidImage),
        }
    }
}

/// Reading an image on the wire.
pub trait Base64PngExt {
    /// The text of the image.
    spec fn wire(&self) -> Seq<char>;

    /// The pixels of the image, as a frame.
    fn to_buffer(&self) -> (r: Result<Frame, Error>)
        ensures
            match r {
                Ok(frame) => wire_pixels(self.wire()) == Ok::<(u32, u32, Seq<u8>), Error>(
                    (frame.width, frame.height, frame.buffer@),
                ) && frame.well_formed(),
                Err(e) => wire_pixels(self.wire()) == Err::<(u32, u32, Seq<u8>), Error>(e),
            },
    ;

    /// The pixels of the image in blue, green, red, alpha order.
    fn to_mat(&self) -> (r: Result<Mat, Error>)
        ensures
            match r {
                Ok(mat) => wire_pixels(self.wire()) matches Ok(image) && is_bgra_pixels(mat, image),
                Err(e) => wire_pixels(self.wire()) == Err::<(u32, u32, Seq<u8>), Error>(e),
            },
    ;

    /// The image as a frame.
    fn to_frame(&self) -> (r: Result<Frame, Error>)
        ensures
            match r {
                Ok(frame) => wire_pixels(self.wire()) == Ok::<(u32, u32, Seq<u8>), Error>(
                    (frame.width, frame.height, frame.buffer@),
                ) && frame.well_formed(),
                Err(e) => wire_pixels(self.wire()) == Err::<(u32, u32, Seq<u8>), Error>(e),
            },
    ;
}

impl Base64PngExt for Base64Png {
    open spec fn wire(&self) -> Seq<char> {
        self@
    }

    fn to_buffer(&self) -> (r: Result<Frame, Error>) {
        let bytes: Vec<u8> = match base64_decode(payload(self.as_str())) {
            Some(bytes) => bytes,
            None => { return Err(Error::InvalidImage); },
        };
        match png_decode(&bytes) {
            Some((width, height, buffer)) => frame_of_pixels(width, height, buffer),
            None => Err(Error::InvalidImage),
        }
    }

    fn to_mat(&self) -> (r: Result<Mat, Error>) {
        let frame: Frame = match self.to_buffer() {
            Ok(frame) => frame,
            Err(e) => { return Err(e); },
        };
        Ok(frame.to_mat())
    }

    fn to_frame(&self) -> (r: Result<Frame, Error>) {
        self.to_buffer()
    }
}

/// What follows the prefix is read back as it was written.
pub proof fn lemma_payload_of_prefixed(body: Seq<char>)
    ensures
        payload_of(wire_prefix() + body) == body,
{
    let text = wire_prefix() + body;
    assert(wire_prefix().is_prefix_of(text)) by {
        assert(text.subrange(0, wire_prefix().len() as int) =~= wire_prefix());
    }
    assert(text.skip(wire_prefix().len() as int) =~= body);
}

/// Wherever the two decoders undo the two encoders on a frame's bytes, the
/// image on the wire that the frame makes holds the frame's width, height
/// and pixel bytes again.
pub proof fn lemma_wire_round_trip(frame: Frame)
    requires
        wire_text(frame) is Ok,
        base64_bytes(base64_text(png_bytes(frame.width, frame.height, frame.buffer@)->0)) == Some(
            png_bytes(frame.width, frame.height, frame.buffer@)->0,
        ),
        png_pixels(png_bytes(frame.width, frame.height, frame.buffer@)->0) == Some(
            (frame.width, frame.height, frame.buffer@),
        ),
    ensures
        wire_pixels(wire_text(frame)->Ok_0) == Ok::<(u32, u32, Seq<u8>), Error>(
            (frame.width, frame.height, frame.buffer@),
        ),
{
    let bytes = png_bytes(frame.width, frame.height, frame.buffer@)->0;
    lemma_payload_of_prefixed(base64_text(bytes));
}

} // verus!
