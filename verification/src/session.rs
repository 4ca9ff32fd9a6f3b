use vstd::prelude::*;
use crate::control::{ControlDescriptor, ControlHandle};
use crate::error::CaptureError;
use crate::format::{description_text, CamFormat};
use crate::frame::{rgb_len, Frame};
use crate::slot::{checked, frame_in, latched, polled, whole, ErrorLatch, FrameSlot};
use std::sync::Arc;

verus! {

/// Where a capture session stands.
#[derive(Clone, Copy, Debug, PartialEq, Eq, Structural)]
pub enum Phase {
    /// Built, not opened.
    Idle,
    /// Opened; the stream is not confirmed yet.
    Starting,
    /// The stream is open and frames are being published.
    Running,
    /// The format or the stream was refused. Final.
    Failed,
    /// Torn down. Final.
    Stopped,
}

/// What the capture loop does next.
#[derive(Clone, Copy, Debug, PartialEq, Eq, Structural)]
pub enum LoopAction {
    /// Fetch one raw frame from the device and report it.
    Fetch,
    /// Leave the loop.
    Exit,
}

/// Everything that happens to a session.
pub enum Event {
    /// The caller opens the session with a capture mode.
    Open(CamFormat),
    /// The loop reports the driver's replies to setting the format and to
    /// starting the stream.
    Started(Result<(), String>, Result<(), String>),
    /// The loop stands at the top of an iteration and looks at the flag.
    IterationBegins,
    /// The loop reports the frame it fetched and decoded, or the failure.
    Fetched(Result<Frame, CaptureError>),
    /// The caller tears the session down.
    Teardown,
}

/// The state of a session.
pub struct SessionState {
    pub index: u32,
    pub phase: Phase,
    /// The capture flag: true until teardown.
    pub capturing: bool,
    /// Whether the loop has begun an iteration that it has not reported yet.
    pub in_flight: bool,
    /// The capture mode that was asked for, once the session was opened.
    pub format: Option<CamFormat>,
    pub frame: Option<Frame>,
    pub error: Option<CaptureError>,
}

impl SessionState {
    /// The state of a session that was just built around a device.
    pub open spec fn initial(index: u32) -> SessionState {
        SessionState {
            index,
            phase: Phase::Idle,
            capturing: true,
            in_flight: false,
            format: None,
            frame: None,
            error: None,
        }
    }

    /// What holds of every state that a session can reach.
    pub open spec fn wf(self) -> bool {
        &&& self.phase is Idle || self.phase is Starting ==> self.frame is None && !self.in_flight
        &&& self.phase is Failed ==> self.frame is None && !self.in_flight
        &&& self.error is Some <==> self.phase is Failed
        &&& self.error matches Some(error) ==> error.is_fatal()
        &&& self.phase is Stopped ==> !self.capturing
        &&& self.phase is Idle ==> self.format is None
        &&& self.phase is Starting || self.phase is Running || self.phase is Failed
            ==> self.format is Some
        &&& self.phase is Idle || self.phase is Starting || self.phase is Running
            ==> self.capturing
    }

    /// What the loop does at the top of an iteration in this state.
    pub open spec fn loop_action(self) -> LoopAction {
        if self.capturing && self.phase is Running {
            LoopAction::Fetch
        } else {
            LoopAction::Exit
        }
    }

    /// Whether this event puts a new frame into the slot.
    pub open spec fn publishes(self, event: Event) -> bool {
        self.in_flight && event matches Event::Fetched(Ok(_))
    }

    /// The state after one event.
    pub open spec fn step(self, event: Event) -> SessionState {
        match event {
            Event::Open(format) => if self.phase is Idle {
                SessionState { phase: Phase::Starting, format: Some(format), ..self }
            } else {
                self
            },
            Event::Started(format_set, stream_opened) => if self.phase is Starting {
                match start_outcome_of(format_set, stream_opened) {
                    Ok(_) => SessionState { phase: Phase::Running, ..self },
                    Err(error) => SessionState {
                        phase: Phase::Failed,
                        error: latched(self.error, error),
                        ..self
                    },
                }
            } else {
                self
            },
            Event::IterationBegins => if self.loop_action() is Fetch {
                SessionState { in_flight: true, ..self }
            } else {
                self
            },
            Event::Fetched(outcome) => if self.in_flight {
                match outcome {
                    Ok(frame) => SessionState { in_flight: false, frame: Some(frame), ..self },
                    Err(_) => SessionState { in_flight: false, ..self },
                }
            } else {
                self
            },
            Event::Teardown => SessionState {
                capturing: false,
                phase: if self.phase is Failed {
                    Phase::Failed
                } else {
                    Phase::Stopped
                },
                ..self
            },
        }
    }

    /// The state after a sequence of events, taken in order.
    pub open spec fn run(self, events: Seq<Event>) -> SessionState
        decreases events.len(),
    {
        if events.len() == 0 {
            self
        } else {
            self.run(events.drop_last()).step(events.last())
        }
    }

    /// How many of a sequence of events put a new frame into the slot.
    pub open spec fn publish_count(self, events: Seq<Event>) -> nat
        decreases events.len(),
    {
        if events.len() == 0 {
            0
        } else {
            let before = self.run(events.drop_last());
            let earlier = self.publish_count(events.drop_last());
            if before.publishes(events.last()) {
                earlier + 1
            } else {
                earlier
            }
        }
    }
}

/// The outcome of starting a capture: setting the format comes first, so its
/// failure is the one reported; a failure to start the stream comes second.
pub open spec fn start_outcome_of(
    format_set: Result<(), String>,
    stream_opened: Result<(), String>,
) -> Result<(), CaptureError> {
    match format_set {
        Err(why) => Err(CaptureError::FormatNegotiation(why)),
        Ok(_) => match stream_opened {
            Err(why) => Err(CaptureError::StreamStart(why)),
            Ok(_) => Ok(()),
        },
    }
}

/// Combines the driver's replies to the two steps of starting a capture
/// into the outcome of the start.
pub fn start_outcome(format_set: Result<(), String>, stream_opened: Result<(), String>) -> (outcome:
    Result<(), CaptureError>)
    ensures
        outcome == start_outcome_of(format_set, stream_opened),
{
    match format_set {
        Err(why) => Err(CaptureError::FormatNegotiation(why)),
        Ok(_) => match stream_opened {
            Err(why) => Err(CaptureError::StreamStart(why)),
            Ok(_) => Ok(()),
        },
    }
}

/// A capture session around one device.
///
/// The session decides; it never touches the device. The caller opens it,
/// runs the capture loop beside it and reports to the session what the
/// device replied: `stream_started` once, then `next_iteration` and
/// `frame_fetched` in turn for as long as `next_iteration` answers `Fetch`.
/// Readers call `poll_frame` and `check_err` at any time.
#[derive(Debug)]
pub struct Camera {
    index: u32,
    phase: Phase,
    capturing: bool,
    in_flight: bool,
    format: Option<CamFormat>,
    last_frame: FrameSlot,
    last_err: ErrorLatch,
}

impl View for Camera {
    type V = SessionState;

    closed spec fn view(&self) -> SessionState {
        SessionState {
            index: self.index,
            phase: self.phase,
            capturing: self.capturing,
            in_flight: self.in_flight,
            format: self.format,
            frame: self.last_frame.frame(),
            error: self.last_err.first,
        }
    }
}

/// The answer of `get_formats` to the driver's reply.
pub open spec fn formats_of(listed: Result<Vec<CamFormat>, String>) -> Result<
    Vec<CamFormat>,
    CaptureError,
> {
    match listed {
        Ok(formats) => Ok(formats),
        Err(why) => Err(CaptureError::FormatNegotiation(why)),
    }
}

/// A control's name with the handle for it.
pub open spec fn named_handle(descriptor: ControlDescriptor) -> (String, ControlHandle) {
    (descriptor.name, ControlHandle { descriptor })
}

/// The answer of `get_controls` to the driver's reply: a handle for each
/// control in the order of the reply, none where the query failed.
pub open spec fn controls_of(listed: Result<Vec<ControlDescriptor>, String>) -> Seq<
    (String, ControlHandle),
> {
    match listed {
        Ok(descriptors) => Seq::new(descriptors@.len(), |k: int| named_handle(descriptors@[k])),
        Err(_) => Seq::empty(),
    }
}

/// The text of the error that `open` gives on a session that is not idle.
pub open spec fn already_opened() -> Seq<char> {
    "the session was already opened or torn down"@
}

impl Camera {
    /// The latch of a session never holds anything but a failure to start:
    /// nothing else is ever offered to it.
    #[verifier::type_invariant]
    spec fn latch_holds_start_failures(self) -> bool {
        self.last_err.first matches Some(error) ==> error.is_start_failure()
    }

    /// Builds a session from the outcome of connecting to device `index`:
    /// success, or the driver's message.
    pub fn new(index: u32, opened: Result<(), String>) -> (made: Result<Camera, CaptureError>)
        ensures
            match made {
                Ok(camera) => opened is Ok && camera@ == SessionState::initial(index)
                    && camera@.wf(),
                Err(error) => opened is Err && error == CaptureError::DeviceOpen(opened->Err_0),
            },
    {
        match opened {
            Ok(_) => Ok(
                Camera {
                    index,
                    phase: Phase::Idle,
                    capturing: true,
                    in_flight: false,
                    format: None,
                    last_frame: FrameSlot::new(),
                    last_err: ErrorLatch::new(),
                },
            ),
            Err(why) => Err(CaptureError::DeviceOpen(why)),
        }
    }

    /// Opens the session with a capture mode.
    ///
    /// On an idle session this succeeds at once, before the device has
    /// confirmed anything: the caller then spawns the capture loop, and a
    /// failure to start shows only in a later `check_err`. On any other
    /// session nothing changes and the answer is a `StreamStart` error.
    pub fn open(&mut self, format: CamFormat) -> (opened: Result<(), CaptureError>)
        ensures
            final(self)@ == old(self)@.step(Event::Open(format)),
            old(self)@.wf() ==> final(self)@.wf(),
            old(self)@.phase is Idle ==> opened is Ok,
            !(old(self)@.phase is Idle) ==> (opened matches Err(CaptureError::StreamStart(why))
                && why@ == already_opened()),
    {
        proof {
            use_type_invariant(&*self);
        }
        match self.phase {
            Phase::Idle => {
                self.phase = Phase::Starting;
                self.format = Some(format);
                Ok(())
            },
            _ => Err(
                CaptureError::StreamStart("the session was already opened or torn down".to_owned()),
            ),
        }
    }

    /// The loop reports the driver's replies to setting the format and to
    /// starting the stream.
    ///
    /// A failure of either is latched and ends the attempt: the answer is
    /// `Exit`, and no frame is ever published. After a success the loop goes
    /// on to its first iteration.
    pub fn stream_started(
        &mut self,
        format_set: Result<(), String>,
        stream_opened: Result<(), String>,
    ) -> (next: LoopAction)
        ensures
            final(self)@ == old(self)@.step(Event::Started(format_set, stream_opened)),
            old(self)@.wf() ==> final(self)@.wf(),
            next == final(self)@.loop_action(),
    {
        proof {
            use_type_invariant(&*self);
        }
        match self.phase {
            Phase::Starting => match start_outcome(format_set, stream_opened) {
                Ok(_) => {
                    self.phase = Phase::Running;
                },
                Err(error) => {
                    if self.last_err.first.is_none() {
                        self.last_err = ErrorLatch { first: Some(error) };
                    }
                    self.phase = Phase::Failed;
                },
            },
            _ => {},
        }
        self.action()
    }

    fn action(&self) -> (next: LoopAction)
        ensures
            next == self@.loop_action(),
    {
        match self.phase {
            Phase::Running => if self.capturing {
                LoopAction::Fetch
            } else {
                LoopAction::Exit
            },
            _ => LoopAction::Exit,
        }
    }

    /// The loop stands at the top of an iteration.
    ///
    /// While the session is running and not torn down the answer is `Fetch`,
    /// however many fetches have failed before. Otherwise it is `Exit`.
    pub fn next_iteration(&mut self) -> (next: LoopAction)
        ensures
            final(self)@ == old(self)@.step(Event::IterationBegins),
            old(self)@.wf() ==> final(self)@.wf(),
            next == old(self)@.loop_action(),
    {
        proof {
            use_type_invariant(&*self);
        }
        let next = self.action();
        match next {
            LoopAction::Fetch => {
                self.in_flight = true;
            },
            LoopAction::Exit => {},
        }
        next
    }

    /// The loop reports the outcome of the iteration it began.
    ///
    /// A frame replaces the content of the slot. A failure changes nothing
    /// and is reported nowhere. The answer says whether a frame was
    /// published.
    pub fn frame_fetched(&mut self, outcome: Result<Frame, CaptureError>) -> (published: bool)
        ensures
            final(self)@ == old(self)@.step(Event::Fetched(outcome)),
            old(self)@.wf() ==> final(self)@.wf(),
            published == old(self)@.publishes(Event::Fetched(outcome)),
    {
        proof {
            use_type_invariant(&*self);
        }
        if !self.in_flight {
            return false;
        }
        self.in_flight = false;
        match outcome {
            Ok(frame) => {
                self.last_frame = FrameSlot { latest: Some(Arc::new(frame)) };
                true
            },
            Err(_) => false,
        }
    }

    /// Tears the session down: clears the capture flag, for good.
    ///
    /// The loop sees it at the top of its next iteration. An iteration that
    /// is in flight is not interrupted.
    pub fn stop(&mut self)
        ensures
            final(self)@ == old(self)@.step(Event::Teardown),
            old(self)@.wf() ==> final(self)@.wf(),
            !final(self)@.capturing,
    {
        proof {
            use_type_invariant(&*self);
        }
        self.capturing = false;
        match self.phase {
            Phase::Failed => {},
            _ => {
                self.phase = Phase::Stopped;
            },
        }
    }

    /// The most recently published frame as `(width, height, pixels)`, or
    /// `None` if none was ever published. The pixels are always
    /// `width * height * 3` bytes.
    pub fn poll_frame(&self) -> (got: Option<(u32, u32, Vec<u8>)>)
        ensures
            match got {
                Some(parts) => polled(self@.frame) == Some((parts.0, parts.1, parts.2@)),
                None => polled(self@.frame) is None,
            },
            got matches Some(parts) ==> parts.2@.len() == rgb_len(parts.0, parts.1),
    {
        self.last_frame.poll()
    }

    /// The most recently published frame, shared with the session, or
    /// `None` if none was ever published. Taking it copies no pixels.
    pub fn snapshot(&self) -> (shared: Option<Arc<Frame>>)
        ensures
            frame_in(shared) == self@.frame,
            whole(shared),
    {
        self.last_frame.snapshot()
    }

    /// Reports the failure that ended the capture attempt, if there is one,
    /// and leaves it in place. It is always a failure to set the format or
    /// to start the stream.
    pub fn check_err(&self) -> (report: Result<(), CaptureError>)
        ensures
            report == checked(self@.error),
            report matches Err(error) ==> error.is_start_failure(),
    {
        proof {
            use_type_invariant(self);
        }
        self.last_err.check()
    }

    /// The capture modes that the device offers, given the driver's reply
    /// to the query. A failure of the query is a `FormatNegotiation` error
    /// with the driver's message.
    pub fn get_formats(listed: Result<Vec<CamFormat>, String>) -> (formats: Result<
        Vec<CamFormat>,
        CaptureError,
    >)
        ensures
            formats == formats_of(listed),
    {
        match listed {
            Ok(formats) => Ok(formats),
            Err(why) => Err(CaptureError::FormatNegotiation(why)),
        }
    }

    /// A handle for each control of the device, under the control's name,
    /// given the driver's reply to the query. A device that cannot list its
    /// controls has none: the answer is then empty, not an error.
    pub fn get_controls(listed: &Result<Vec<ControlDescriptor>, String>) -> (controls: Vec<
        (String, ControlHandle),
    >)
        ensures
            controls@ == controls_of(*listed),
    {
        let mut controls: Vec<(String, ControlHandle)> = Vec::new();
        match listed {
            Ok(descriptors) => {
                let mut i: usize = 0;
                while i < descriptors.len()
                    invariant
                        i <= descriptors.len(),
                        controls@ == Seq::new(i as nat, |k: int| named_handle(descriptors@[k])),
                    decreases descriptors.len() - i,
                {
                    let descriptor = descriptors[i].clone();
                    controls.push((descriptor.name.clone(), ControlHandle::new(descriptor)));
                    assert(controls@ =~= Seq::new(
                        (i + 1) as nat,
                        |k: int| named_handle(descriptors@[k]),
                    ));
                    i = i + 1;
                }
            },
            Err(_) => {},
        }
        assert(controls@ =~= controls_of(*listed));
        controls
    }

    /// A line that describes the capture mode that the device reports as
    /// its current one.
    pub fn info(current: CamFormat) -> (text: String)
        ensures
            text@ == description_text(current),
    {
        current.describe()
    }

    pub fn index(&self) -> (index: u32)
        ensures
            index == self@.index,
    {
        self.index
    }

    pub fn phase(&self) -> (phase: Phase)
        ensures
            phase == self@.phase,
    {
        self.phase
    }

    /// The capture flag.
    pub fn is_capturing(&self) -> (capturing: bool)
        ensures
            capturing == self@.capturing,
    {
        self.capturing
    }

    /// The capture mode that was asked for, once the session was opened.
    pub fn format(&self) -> (format: Option<CamFormat>)
        ensures
            format == self@.format,
    {
        self.format
    }
}

} // verus!
