//! Camera capture without waiting for the camera.
//!
//! A capture loop fetches and decodes frames in the background while the
//! caller polls for the latest frame at its own pace, reads and sets device
//! controls, or tears the session down. This crate holds what such a
//! program decides: the session's state machine, the frame slot and the
//! error latch, the control handles, the choice of a capture mode, and the
//! decoding of raw frames. Talking to the device and running the loop's
//! thread are left to the caller.

pub mod control;
pub mod device;
pub mod error;
pub mod format;
pub mod frame;
pub mod laws;
pub mod selector;
pub mod session;
pub mod shared;
pub mod slot;
