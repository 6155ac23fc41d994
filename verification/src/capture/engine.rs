use vstd::prelude::*;

use crate::capture::frame::Frame;
use crate::error::Error;

verus! {

/// Whether two frames hold the same picture.
pub open spec fn same_picture(a: Frame, b: Frame) -> bool {
    a.width == b.width && a.height == b.height && a.buffer@ == b.buffer@
}

impl Frame {
    /// An independent copy of the frame.
    pub fn copy(&self) -> (twin: Frame)
        ensures
            same_picture(twin, *self),
    {
        let mut buffer: Vec<u8> = Vec::new();
        let mut i: usize = 0;
        while i < self.buffer.len()
            invariant
                i <= self.buffer@.len(),
                buffer@ =~= self.buffer@.subrange(0, i as int),
            decreases self.buffer@.len() - i,
        {
            buffer.push(self.buffer[i]);
            i += 1;
        }
        assert(buffer@ =~= self.buffer@);
        Frame { width: self.width, height: self.height, buffer }
    }
}

/// The capture engine as the rest of the program sees it: whether frames are
/// being produced, and the one frame that is current. A new frame replaces
/// the current one; there is no history.
#[derive(Debug)]
pub struct Engine {
    running: bool,
    frame: Option<Frame>,
}

/// What a one-shot grab has to do.
#[derive(Debug, Clone, Copy, PartialEq, Eq, Structural)]
pub enum GrabPlan {
    /// Frames are being produced: take the current one.
    UseCurrent,
    /// Nothing is being produced: capture one frame now.
    Capture,
}

impl Engine {
    /// Whether frames are being produced.
    pub closed spec fn running(&self) -> bool {
        self.running
    }

    /// The current frame, if there is one.
    pub closed spec fn current(&self) -> Option<Frame> {
        self.frame
    }

    /// An engine that is stopped and holds no frame.
    pub fn new() -> (engine: Engine)
        ensures
            !engine.running(),
            engine.current() is None,
    {
        Engine { running: false, frame: None }
    }

    /// Takes note of an attempt to start continuous capture; `opened` tells
    /// whether the capture surface could be opened. Where it could not,
    /// nothing changes.
    pub fn start(&mut self, opened: bool) -> (r: Result<(), Error>)
        ensures
            opened ==> r is Ok && final(self).running(),
            !opened ==> r == Err::<(), Error>(Error::CaptureInitFailed) && final(self).running()
                == old(self).running(),
            final(self).current() == old(self).current(),
    {
        if opened {
            self.running = true;
            Ok(())
        } else {
            Err(Error::CaptureInitFailed)
        }
    }

    /// As `start`, for capture that runs on a thread of its own.
    pub fn start_background(&mut self, opened: bool) -> (r: Result<(), Error>)
        ensures
            opened ==> r is Ok && final(self).running(),
            !opened ==> r == Err::<(), Error>(Error::CaptureInitFailed) && final(self).running()
                == old(self).running(),
            final(self).current() == old(self).current(),
    {
        self.start(opened)
    }

    /// Stops continuous capture. On a stopped engine this does nothing.
    pub fn stop(&mut self)
        ensures
            !final(self).running(),
            final(self).current() == old(self).current(),
    {
        self.running = false;
    }

    pub fn is_running(&self) -> (running: bool)
        ensures
            running == self.running(),
    {
        self.running
    }

    /// Makes `frame` the current frame, in place of any other.
    pub fn store_frame(&mut self, frame: Frame)
        ensures
            final(self).current() == Some(frame),
            final(self).running() == old(self).running(),
    {
        self.frame = Some(frame);
    }

    /// An independent copy of the current frame, if there is one.
    pub fn get_frame(&self) -> (r: Option<Frame>)
        ensures
            match r {
                Some(twin) => self.current() matches Some(held) && same_picture(twin, held),
                None => self.current() is None,
            },
    {
        match &self.frame {
            Some(held) => Some(held.copy()),
            None => None,
        }
    }

    /// The current frame itself, to read without copying, if there is one.
    pub fn get_frame_arc(&self) -> (r: Option<&Frame>)
        ensures
            match r {
                Some(held) => self.current() == Some(*held),
                None => self.current() is None,
            },
    {
        match &self.frame {
            Some(held) => Some(held),
            None => None,
        }
    }

    /// Forgets the current frame.
    pub fn clear_frame(&mut self)
        ensures
            final(self).current() is None,
            final(self).running() == old(self).running(),
    {
        self.frame = None;
    }

    /// What a one-shot grab has to do: capture only while nothing is being
    /// produced.
    pub fn grab_plan(&self) -> (plan: GrabPlan)
        ensures
            plan == if self.running() {
                GrabPlan::UseCurrent
            } else {
                GrabPlan::Capture
            },
    {
        if self.running {
            GrabPlan::UseCurrent
        } else {
            GrabPlan::Capture
        }
    }

    /// One frame on demand. While frames are being produced it is a copy of
    /// the current one and `captured` is not looked at; else it is
    /// `captured`, what a capture made now has delivered before its time ran
    /// out. Where there is no frame the grab fails.
    pub fn grab(&self, captured: Option<Frame>) -> (r: Result<Frame, Error>)
        ensures
            match r {
                Ok(frame) => if self.running() {
                    self.current() matches Some(held) && same_picture(frame, held)
                } else {
                    captured == Some(frame)
                },
                Err(e) => e == Error::FrameUnavailable && if self.running() {
                    self.current() is None
                } else {
                    captured is None
                },
            },
    {
        if self.running {
            match self.get_frame() {
                Some(frame) => Ok(frame),
                None => Err(Error::FrameUnavailable),
            }
        } else {
            match captured {
                Some(frame) => Ok(frame),
                None => Err(Error::FrameUnavailable),
            }
        }
    }
}

impl Default for Engine {
    fn default() -> (engine: Engine)
        ensures
            !engine.running(),
            engine.current() is None,
    {
        Engine::new()
    }
}

} // verus!
