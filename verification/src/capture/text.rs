use vstd::prelude::*;
use vstd::string::StringExecFns;

use crate::capture::frame::Frame;
use crate::capture::mat::{is_rgb_of, Mat};
use crate::error::Error;
use crate::types::point::Point;
use crate::types::size::Size;

verus! {

/// Why text recognition is refused, if it is: a region wider than the frame,
/// then a frame whose buffer is too short. Only the width is compared.
pub open spec fn text_fault(frame: Frame, size: Size) -> Option<Error> {
    if size.width > frame.width {
        Some(Error::InvalidRegion)
    } else if !frame.fits() {
        Some(Error::InvalidFrame)
    } else {
        None
    }
}

/// The texts one after the other, in their order.
pub open spec fn joined(blocks: Seq<String>) -> Seq<char>
    decreases blocks.len(),
{
    if blocks.len() == 0 {
        Seq::empty()
    } else {
        joined(blocks.drop_last()) + blocks.last()@
    }
}

/// The text that recognition gives for the blocks it detected: all of them
/// joined, or nothing where that is empty.
pub fn join_blocks(blocks: &Vec<String>) -> (text: Option<String>)
    ensures
        match text {
            Some(found) => found@ == joined(blocks@) && found@.len() > 0,
            None => joined(blocks@).len() == 0,
        },
{
    let mut text: String = String::new();
    let mut i: usize = 0;
    assert(blocks@.take(0) =~= Seq::<String>::empty());
    while i < blocks.len()
        invariant
            i <= blocks@.len(),
            text@ == joined(blocks@.take(i as int)),
        decreases blocks@.len() - i,
    {
        text.append(blocks[i].as_str());
        proof {
            assert(blocks@.take(i as int + 1).drop_last() =~= blocks@.take(i as int));
            assert(blocks@.take(i as int + 1).last() == blocks@[i as int]);
        }
        i += 1;
    }
    assert(blocks@.take(i as int) =~= blocks@);
    if text.as_str().unicode_len() == 0 {
        None
    } else {
        Some(text)
    }
}

/// Whether the text recogniser is ready.
#[derive(Debug, Clone, Copy, PartialEq, Eq, Structural)]
pub enum OcrState {
    /// The models have not been asked for yet.
    Unloaded,
    /// The models are loaded.
    Ready,
    /// The models could not be loaded. This does not change any more.
    Failed,
}

/// What a call to the recogniser has to do first.
#[derive(Debug, Clone, Copy, PartialEq, Eq, Structural)]
pub enum OcrStep {
    /// Load the models, then report with `loaded`.
    Load,
    /// Recognise.
    Recognise,
    /// Fail with `OcrInitFailure`.
    Fail,
}

impl OcrState {
    /// What the next call has to do: the first call loads, and after a
    /// failure every call fails.
    pub fn step(&self) -> (step: OcrStep)
        ensures
            step == match *self {
                OcrState::Unloaded => OcrStep::Load,
                OcrState::Ready => OcrStep::Recognise,
                OcrState::Failed => OcrStep::Fail,
            },
    {
        match self {
            OcrState::Unloaded => OcrStep::Load,
            OcrState::Ready => OcrStep::Recognise,
            OcrState::Failed => OcrStep::Fail,
        }
    }

    /// Takes note of how loading the models went. Only the first report
    /// counts.
    pub fn loaded(&mut self, ok: bool) -> (r: Result<(), Error>)
        ensures
            *final(self) == after_load(*old(self), ok),
            r is Ok <==> *final(self) == OcrState::Ready,
            r matches Err(e) ==> e == Error::OcrInitFailure,
    {
        if let OcrState::Unloaded = *self {
            *self = if ok {
                OcrState::Ready
            } else {
                OcrState::Failed
            };
        }
        match *self {
            OcrState::Ready => Ok(()),
            _ => Err(Error::OcrInitFailure),
        }
    }
}

/// The state after a report of how loading the models went: the first
/// report decides, later ones change nothing.
pub open spec fn after_load(state: OcrState, ok: bool) -> OcrState {
    match state {
        OcrState::Unloaded => if ok {
            OcrState::Ready
        } else {
            OcrState::Failed
        },
        other => other,
    }
}

impl Frame {
    /// What text recognition takes: the region of the frame, three bytes per
    /// pixel.
    pub fn text_region(&self, start_point: Point, size: Size) -> (r: Result<Mat, Error>)
        ensures
            match r {
                Err(e) => text_fault(*self, size) == Some(e),
                Ok(mat) => text_fault(*self, size) is None && exists|region: Frame| #[trigger]
                    self.cropped_to(start_point, size, region) && is_rgb_of(mat, region),
            },
    {
        if size.width > self.width {
            return Err(Error::InvalidRegion);
        }
        if !self.is_valid() {
            return Err(Error::InvalidFrame);
        }
        let region: Frame = self.crop(start_point, size);
        let mat: Mat = region.to_rgb();
        assert(self.cropped_to(start_point, size, region) && is_rgb_of(mat, region));
        Ok(mat)
    }

    /// The text of a region of the frame, given the blocks of text that
    /// recognition detected on `text_region`, in the order of detection: the
    /// blocks joined, or nothing where that is empty.
    pub fn recognize_text(&self, start_point: Point, size: Size, blocks: &Vec<String>) -> (r: Result<
        Option<String>,
        Error,
    >)
        ensures
            match r {
                Err(e) => text_fault(*self, size) == Some(e),
                Ok(None) => text_fault(*self, size) is None && joined(blocks@).len() == 0,
                Ok(Some(text)) => text_fault(*self, size) is None && text@ == joined(blocks@)
                    && text@.len() > 0,
            },
    {
        if size.width > self.width {
            return Err(Error::InvalidRegion);
        }
        if !self.is_valid() {
            return Err(Error::InvalidFrame);
        }
        Ok(join_blocks(blocks))
    }
}

/// The models are loaded at most once, and a failure to load them is final:
/// whatever is reported after the first report, the state stays what the
/// first report made it.
pub proof fn lemma_ocr_loads_once(state: OcrState, first: bool, second: bool)
    ensures
        after_load(after_load(state, first), second) == after_load(state, first),
        after_load(OcrState::Unloaded, false) == OcrState::Failed,
        after_load(OcrState::Failed, second) == OcrState::Failed,
{
}

} // verus!
