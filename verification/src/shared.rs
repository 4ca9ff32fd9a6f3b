use vstd::prelude::*;
use crate::error::CaptureError;
use crate::format::CamFormat;
use crate::frame::{rgb_len, Frame};
use crate::session::{already_opened, Camera, LoopAction};
use crate::slot::{frame_parts, whole};
use parking_lot::lock_api::Mutex;
use parking_lot::{FairMutex, FairMutexGuard, RawFairMutex};
use std::sync::Arc;

verus! {

/// lock_api's `Mutex`, of which parking_lot's `FairMutex` is one: a value
/// behind a lock. Nothing of what it holds is visible here.
#[verifier::external_type_specification]
#[verifier::external_body]
#[verifier::reject_recursive_types(R)]
#[verifier::reject_recursive_types(T)]
pub struct ExMutex<R, T: ?Sized>(Mutex<R, T>);

/// parking_lot's `RawFairMutex`, the lock inside a `FairMutex`: it hands
/// the lock to waiting threads in the order in which they came.
#[verifier::external_type_specification]
#[verifier::external_body]
pub struct ExRawFairMutex(RawFairMutex);

/// The lock on a session while it is held: parking_lot's `FairMutexGuard`.
/// Dropping it gives the lock back.
#[verifier::external_body]
struct Held<'a> {
    guard: FairMutexGuard<'a, Camera>,
}

/// Puts a session behind a new lock, with parking_lot's `FairMutex::new`.
/// Nothing is claimed of the lock.
#[verifier::external_body]
fn locked(camera: Camera) -> FairMutex<Camera> {
    FairMutex::new(camera)
}

/// Takes the lock with parking_lot's `FairMutex::lock`, waiting for its
/// turn, and hands out the guard.
///
/// Nothing is claimed of the session behind the guard: other threads may
/// have changed it since it was last seen. The call returns once the lock
/// is free; every function of this file gives it back before it returns
/// and never asks for it twice.
#[verifier::external_body]
fn acquire<'a>(cell: &'a FairMutex<Camera>) -> Held<'a> {
    Held { guard: cell.lock() }
}

/// The session behind a guard, through the guard's `DerefMut`. Nothing is
/// claimed of it.
#[verifier::external_body]
fn held<'a, 'b>(guard: &'b mut Held<'a>) -> &'b mut Camera {
    &mut *guard.guard
}

/// A session that the caller and its capture loop share between threads.
///
/// Every operation takes the session's lock, makes the one step of
/// `Camera` that bears its name, and gives the lock back. So whatever the
/// threads do, the session goes through its steps one after the other, and
/// what is proved of every sequence of steps holds of it.
///
/// The lock is fair and it is the session's own: the device has another, so
/// that a reader never waits for the device.
///
/// Of a single answer only that is promised which holds whatever the other
/// threads did in between.
pub struct SharedCamera {
    state: FairMutex<Camera>,
}

impl SharedCamera {
    /// Shares a session.
    pub fn new(camera: Camera) -> SharedCamera {
        SharedCamera { state: locked(camera) }
    }

    /// Opens the session with a capture mode: `Camera::open`.
    ///
    /// The only error there is says that the session was not idle.
    pub fn open(&self, format: CamFormat) -> (opened: Result<(), CaptureError>)
        ensures
            opened matches Err(error) ==> (error matches CaptureError::StreamStart(why) && why@
                == already_opened()),
    {
        let mut guard = acquire(&self.state);
        let camera = held(&mut guard);
        camera.open(format)
    }

    /// The loop reports the driver's replies to setting the format and to
    /// starting the stream: `Camera::stream_started`.
    pub fn stream_started(
        &self,
        format_set: Result<(), String>,
        stream_opened: Result<(), String>,
    ) -> LoopAction {
        let mut guard = acquire(&self.state);
        let camera = held(&mut guard);
        camera.stream_started(format_set, stream_opened)
    }

    /// The loop stands at the top of an iteration: `Camera::next_iteration`.
    pub fn next_iteration(&self) -> LoopAction {
        let mut guard = acquire(&self.state);
        let camera = held(&mut guard);
        camera.next_iteration()
    }

    /// The loop reports the outcome of the iteration it began:
    /// `Camera::frame_fetched`. A failure is never published.
    pub fn frame_fetched(&self, outcome: Result<Frame, CaptureError>) -> (published: bool)
        ensures
            outcome is Err ==> !published,
    {
        let mut guard = acquire(&self.state);
        let camera = held(&mut guard);
        camera.frame_fetched(outcome)
    }

    /// Tears the session down: `Camera::stop`.
    pub fn stop(&self) {
        let mut guard = acquire(&self.state);
        let camera = held(&mut guard);
        camera.stop();
    }

    /// The most recently published frame, shared with the session:
    /// `Camera::snapshot`. The lock is held only to take the snapshot.
    ///
    /// Which frame that is depends on what the loop has published so far.
    /// Whichever it is, it is whole: `width * height * 3` bytes.
    pub fn snapshot(&self) -> (shared: Option<Arc<Frame>>)
        ensures
            whole(shared),
    {
        let mut guard = acquire(&self.state);
        let camera = held(&mut guard);
        camera.snapshot()
    }

    /// The most recently published frame as `(width, height, pixels)`, or
    /// `None`. The pixels are always `width * height * 3` bytes, and they
    /// are copied after the lock was given back.
    pub fn poll_frame(&self) -> (got: Option<(u32, u32, Vec<u8>)>)
        ensures
            got matches Some(parts) ==> parts.2@.len() == rgb_len(parts.0, parts.1),
    {
        frame_parts(self.snapshot())
    }

    /// Reports the failure that ended the capture attempt, if there is one:
    /// `Camera::check_err`.
    ///
    /// Whether there is one depends on what the loop has reported so far. An
    /// error that is reported is a failure to set the format or to start the
    /// stream: nothing else is ever latched.
    pub fn check_err(&self) -> (report: Result<(), CaptureError>)
        ensures
            report matches Err(error) ==> error.is_start_failure(),
    {
        let mut guard = acquire(&self.state);
        let camera = held(&mut guard);
        camera.check_err()
    }
}

} // verus!
