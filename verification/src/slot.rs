use vstd::prelude::*;
use crate::error::CaptureError;
use crate::frame::{rgb_len, Frame};
use std::sync::Arc;

verus! {

/// Another owner of a shared frame, made by std's `Arc::clone`: a second
/// pointer to the same frame. The contract claims that it is the same frame.
#[verifier::external_body]
fn share(frame: &Arc<Frame>) -> (again: Arc<Frame>)
    ensures
        again == *frame,
{
    Arc::clone(frame)
}

/// The cell that holds the most recently decoded frame, or none.
///
/// A publish replaces the whole content with a new frame that is never
/// changed again, so a reader sees a complete frame or none. Readers share
/// the frame with the slot: taking a snapshot copies no pixels.
#[derive(Debug, PartialEq, Eq)]
pub struct FrameSlot {
    pub latest: Option<Arc<Frame>>,
}

/// What a poll of a slot with this content hands out.
pub open spec fn polled(latest: Option<Frame>) -> Option<(u32, u32, Seq<u8>)> {
    match latest {
        Some(frame) => Some((frame@.width, frame@.height, frame@.pixels)),
        None => None,
    }
}

/// The triple that stands for a frame outside this library.
pub fn frame_parts(snapshot: Option<Arc<Frame>>) -> (got: Option<(u32, u32, Vec<u8>)>)
    ensures
        match got {
            Some(parts) => polled(frame_in(snapshot)) == Some((parts.0, parts.1, parts.2@)),
            None => polled(frame_in(snapshot)) is None,
        },
        got matches Some(parts) ==> parts.2@.len() == rgb_len(parts.0, parts.1),
{
    match snapshot {
        Some(frame) => Some(frame.to_parts()),
        None => None,
    }
}

/// Whether a snapshot is whole: a frame in it holds as many bytes as its
/// size asks for.
pub open spec fn whole(snapshot: Option<Arc<Frame>>) -> bool {
    snapshot matches Some(frame) ==> frame@.pixels.len() == rgb_len(
        frame@.width,
        frame@.height,
    )
}

/// The frame that a snapshot shares, if any.
pub open spec fn frame_in(snapshot: Option<Arc<Frame>>) -> Option<Frame> {
    match snapshot {
        Some(frame) => Some(*frame),
        None => None,
    }
}

impl FrameSlot {
    /// An empty slot.
    pub fn new() -> (slot: FrameSlot)
        ensures
            slot.latest is None,
    {
        FrameSlot { latest: None }
    }

    /// The frame in the slot, if any.
    pub open spec fn frame(self) -> Option<Frame> {
        frame_in(self.latest)
    }

    /// Replaces the content with `frame`.
    pub fn publish(&mut self, frame: Frame)
        ensures
            final(self).frame() == Some(frame),
    {
        self.latest = Some(Arc::new(frame));
    }

    /// Whether no frame has been published yet.
    pub fn is_empty(&self) -> (empty: bool)
        ensures
            empty == (self.frame() is None),
    {
        self.latest.is_none()
    }

    /// The latest frame, shared with the slot, or `None` if nothing was
    /// ever published. The frame is whole: `width * height * 3` bytes.
    pub fn snapshot(&self) -> (shared: Option<Arc<Frame>>)
        ensures
            frame_in(shared) == self.frame(),
            whole(shared),
    {
        match &self.latest {
            Some(frame) => {
                let pixels = frame.pixels();
                assert(pixels@.len() == rgb_len(frame@.width, frame@.height));
                Some(share(frame))
            },
            None => None,
        }
    }

    /// The latest frame as `(width, height, pixels)`, or `None` if nothing
    /// was ever published. The pixels are always `width * height * 3` bytes.
    pub fn poll(&self) -> (got: Option<(u32, u32, Vec<u8>)>)
        ensures
            match got {
                Some(parts) => polled(self.frame()) == Some((parts.0, parts.1, parts.2@)),
                None => polled(self.frame()) is None,
            },
            got matches Some(parts) ==> parts.2@.len() == rgb_len(parts.0, parts.1),
    {
        frame_parts(self.snapshot())
    }
}

/// The cell that keeps the first fatal error of a capture attempt.
#[derive(Debug, PartialEq, Eq)]
pub struct ErrorLatch {
    pub first: Option<CaptureError>,
}

/// The content of a latch after `error` is offered to it: the first one
/// wins.
pub open spec fn latched(before: Option<CaptureError>, error: CaptureError) -> Option<
    CaptureError,
> {
    match before {
        Some(kept) => Some(kept),
        None => Some(error),
    }
}

/// The first error wins: once a latch holds an error, offering it another
/// changes nothing.
pub proof fn lemma_first_error_wins(before: Option<CaptureError>, first: CaptureError, second: CaptureError)
    ensures
        latched(latched(before, first), second) == latched(before, first),
        before is None ==> latched(latched(before, first), second) == Some(first),
{
}

/// What a check of a latch with this content reports.
pub open spec fn checked(first: Option<CaptureError>) -> Result<(), CaptureError> {
    match first {
        Some(error) => Err(error),
        None => Ok(()),
    }
}

impl ErrorLatch {
    /// An empty latch.
    pub fn new() -> (latch: ErrorLatch)
        ensures
            latch.first is None,
    {
        ErrorLatch { first: None }
    }

    /// Offers an error to the latch, which keeps it unless it already holds
    /// one.
    pub fn latch(&mut self, error: CaptureError)
        ensures
            final(self).first == latched(old(self).first, error),
    {
        if self.first.is_none() {
            self.first = Some(error);
        }
    }

    /// Reports the latched error, if any, and leaves it in place.
    pub fn check(&self) -> (report: Result<(), CaptureError>)
        ensures
            report == checked(self.first),
    {
        match &self.first {
            Some(error) => Err(error.clone()),
            None => Ok(()),
        }
    }
}

} // verus!
