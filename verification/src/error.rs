use vstd::prelude::*;

verus! {

/// Everything that can go wrong in a capture session.
///
/// Failures of the device carry the driver's message. `FrameDecode` is the
/// only transient kind: the capture loop swallows it and carries on.
#[derive(Debug, PartialEq, Eq)]
pub enum CaptureError {
    /// The device could not be connected to when the session was built.
    DeviceOpen(String),
    /// The device refused the requested capture mode.
    FormatNegotiation(String),
    /// The hardware stream could not be started.
    StreamStart(String),
    /// One frame could not be fetched or decoded.
    FrameDecode,
    /// The device behind a control handle no longer exists.
    ControlUnavailable,
    /// A value range was asked of a control that is not an integer range.
    ControlKindUnsupported,
    /// The driver refused the value that was sent to a control.
    ControlRejected(String),
}

impl Clone for CaptureError {
    fn clone(&self) -> (copy: CaptureError)
        ensures
            copy == *self,
    {
        match self {
            CaptureError::DeviceOpen(m) => CaptureError::DeviceOpen(m.clone()),
            CaptureError::FormatNegotiation(m) => CaptureError::FormatNegotiation(m.clone()),
            CaptureError::StreamStart(m) => CaptureError::StreamStart(m.clone()),
            CaptureError::FrameDecode => CaptureError::FrameDecode,
            CaptureError::ControlUnavailable => CaptureError::ControlUnavailable,
            CaptureError::ControlKindUnsupported => CaptureError::ControlKindUnsupported,
            CaptureError::ControlRejected(m) => CaptureError::ControlRejected(m.clone()),
        }
    }
}

impl CaptureError {
    /// True of the kinds that end a capture attempt for good.
    pub open spec fn is_fatal(self) -> bool {
        self is DeviceOpen || self is FormatNegotiation || self is StreamStart
    }

    /// True of the two kinds with which a capture fails to start: the
    /// device refused the mode, or the stream.
    pub open spec fn is_start_failure(self) -> bool {
        self is FormatNegotiation || self is StreamStart
    }

    /// The text that a kind without a driver message reports.
    pub open spec fn fixed_message(self) -> Seq<char> {
        match self {
            CaptureError::FrameDecode => "frame could not be decoded"@,
            CaptureError::ControlUnavailable =>
                "Control is unusable as camera object has been dropped"@,
            CaptureError::ControlKindUnsupported =>
                "value range is only available for integer range controls"@,
            _ => Seq::empty(),
        }
    }

    /// The text of this error as a sequence of characters.
    pub open spec fn message_text(self) -> Seq<char> {
        match self {
            CaptureError::DeviceOpen(m) => m@,
            CaptureError::FormatNegotiation(m) => m@,
            CaptureError::StreamStart(m) => m@,
            CaptureError::ControlRejected(m) => m@,
            _ => self.fixed_message(),
        }
    }

    /// Whether this error ends a capture attempt for good.
    pub fn fatal(&self) -> (b: bool)
        ensures
            b == self.is_fatal(),
    {
        match self {
            CaptureError::DeviceOpen(_) => true,
            CaptureError::FormatNegotiation(_) => true,
            CaptureError::StreamStart(_) => true,
            _ => false,
        }
    }

    /// The human-readable message: the driver's own words where it gave
    /// any, a fixed sentence otherwise.
    pub fn message(&self) -> (text: String)
        ensures
            text@ == self.message_text(),
    {
        match self {
            CaptureError::DeviceOpen(m) => m.clone(),
            CaptureError::FormatNegotiation(m) => m.clone(),
            CaptureError::StreamStart(m) => m.clone(),
            CaptureError::ControlRejected(m) => m.clone(),
            CaptureError::FrameDecode => "frame could not be decoded".to_owned(),
            CaptureError::ControlUnavailable =>
                "Control is unusable as camera object has been dropped".to_owned(),
            CaptureError::ControlKindUnsupported =>
                "value range is only available for integer range controls".to_owned(),
        }
    }
}

} // verus!
