use vstd::prelude::*;
use crate::error::CaptureError;

verus! {

/// What kind of value a control takes.
#[derive(Clone, Copy, Debug, PartialEq, Eq, Structural)]
pub enum ControlKind {
    /// An integer between `min` and `max`, in steps of `step`.
    IntegerRange { min: i64, max: i64, step: i64 },
    /// Any kind that this library does not handle yet.
    Other,
}

/// A named, adjustable setting of a device.
#[derive(Debug, PartialEq, Eq)]
pub struct ControlDescriptor {
    pub name: String,
    pub kind: ControlKind,
    pub active: bool,
}

impl Clone for ControlDescriptor {
    fn clone(&self) -> (copy: ControlDescriptor)
        ensures
            copy == *self,
    {
        ControlDescriptor { name: self.name.clone(), kind: self.kind, active: self.active }
    }
}

/// What the caller has to send to the device after `set_value`.
#[derive(Clone, Copy, Debug, PartialEq, Eq, Structural)]
pub enum DeviceCommand {
    /// Nothing: the device is not to be touched.
    Nothing,
    /// Set the control to this integer, holding the device lock.
    SetInteger(i64),
}

/// A control of a device that the handle does not own.
///
/// The handle never reaches the device itself. Each operation is told
/// whether the device still exists and answers with the command to send,
/// so a handle that outlives its device can only fail, never touch it.
#[derive(Debug, PartialEq, Eq)]
pub struct ControlHandle {
    pub descriptor: ControlDescriptor,
}

/// The descriptor after a request to set it to `value`: active exactly when
/// a value was given.
pub open spec fn descriptor_after_set(
    before: ControlDescriptor,
    value: Option<i64>,
) -> ControlDescriptor {
    ControlDescriptor { name: before.name, kind: before.kind, active: value is Some }
}

/// The answer to a request to set a control to `value`, given whether its
/// device is still alive.
pub open spec fn set_value_answer(
    value: Option<i64>,
    device_alive: bool,
) -> Result<DeviceCommand, CaptureError> {
    match value {
        None => Ok(DeviceCommand::Nothing),
        Some(v) => if device_alive {
            Ok(DeviceCommand::SetInteger(v))
        } else {
            Err(CaptureError::ControlUnavailable)
        },
    }
}

/// What the caller of `set_value` reports, given the driver's reply to the
/// command.
pub open spec fn reply_outcome(reply: Result<(), String>) -> Result<(), CaptureError> {
    match reply {
        Ok(_) => Ok(()),
        Err(why) => Err(CaptureError::ControlRejected(why)),
    }
}

impl ControlHandle {
    pub fn new(descriptor: ControlDescriptor) -> (handle: ControlHandle)
        ensures
            handle.descriptor == descriptor,
    {
        ControlHandle { descriptor }
    }

    /// The control's name.
    pub fn name(&self) -> (name: String)
        ensures
            name == self.descriptor.name,
    {
        self.descriptor.name.clone()
    }

    /// Whether the control is currently active.
    pub fn is_active(&self) -> (active: bool)
        ensures
            active == self.descriptor.active,
    {
        self.descriptor.active
    }

    /// The range of an integer control as `(min, max, step)`.
    ///
    /// Any other kind of control has no range to give and is answered with
    /// `ControlKindUnsupported`.
    pub fn value_range(&self) -> (range: Result<(i64, i64, i64), CaptureError>)
        ensures
            range == (match self.descriptor.kind {
                ControlKind::IntegerRange { min, max, step } => Ok::<
                    (i64, i64, i64),
                    CaptureError,
                >((min, max, step)),
                ControlKind::Other => Err(CaptureError::ControlKindUnsupported),
            }),
    {
        match self.descriptor.kind {
            ControlKind::IntegerRange { min, max, step } => Ok((min, max, step)),
            ControlKind::Other => Err(CaptureError::ControlKindUnsupported),
        }
    }

    /// Asks for the control to be set to `value`, or switched off with `None`.
    ///
    /// Switching off needs no device and always succeeds. Setting a value
    /// marks the control active and then needs the device: where it is gone
    /// the request fails with `ControlUnavailable`, otherwise the answer is
    /// the command to send to it.
    pub fn set_value(&mut self, value: Option<i64>, device_alive: bool) -> (answer: Result<
        DeviceCommand,
        CaptureError,
    >)
        ensures
            final(self).descriptor == descriptor_after_set(old(self).descriptor, value),
            answer == set_value_answer(value, device_alive),
    {
        match value {
            None => {
                self.descriptor.active = false;
                Ok(DeviceCommand::Nothing)
            },
            Some(v) => {
                self.descriptor.active = true;
                if device_alive {
                    Ok(DeviceCommand::SetInteger(v))
                } else {
                    Err(CaptureError::ControlUnavailable)
                }
            },
        }
    }

    /// Turns the driver's reply to a `SetInteger` command into the result of
    /// the request: a refusal is surfaced with the driver's message.
    pub fn set_result(reply: Result<(), String>) -> (outcome: Result<(), CaptureError>)
        ensures
            outcome == reply_outcome(reply),
    {
        match reply {
            Ok(_) => Ok(()),
            Err(why) => Err(CaptureError::ControlRejected(why)),
        }
    }
}

/// Switching a control off succeeds whether or not its device still exists,
/// and asks for nothing to be sent.
pub proof fn lemma_deactivation_always_succeeds(device_alive: bool)
    ensures
        set_value_answer(None, device_alive) == Ok::<DeviceCommand, CaptureError>(
            DeviceCommand::Nothing,
        ),
{
}

/// Setting a value on a control whose device is gone fails with
/// `ControlUnavailable`, whatever the value.
pub proof fn lemma_set_after_destroy_fails(v: i64)
    ensures
        set_value_answer(Some(v), false) == Err::<DeviceCommand, CaptureError>(
            CaptureError::ControlUnavailable,
        ),
{
}

} // verus!
