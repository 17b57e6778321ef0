//! Errors of the camera layer.

use vstd::prelude::*;
use crate::u3v::U3vError;

verus! {

/// Errors of device control.
#[derive(Debug, Clone, PartialEq, Eq)]
pub enum ControlError {
    /// An error of the device layer.
    Device(U3vError),
    /// The handle is not opened.
    NotOpened,
    /// An I/O error, with its message.
    Io(String),
    /// The device doesn't follow the specification, with the reason.
    InvalidDevice(String),
}

/// Errors of payload streaming.
#[derive(Debug, Clone, PartialEq, Eq)]
pub enum StreamError {
    /// An error of the device layer.
    Device(U3vError),
    /// No interface is opened for streaming.
    NoInterface,
    /// No buffer to parse.
    NoBuffer,
    /// The payload is broken, with the reason.
    InvalidPayload(String),
    /// The stream parameters could not be read from the device.
    StreamParams(ControlError),
}


/// Errors of the camera API.
#[derive(Debug, Clone, PartialEq, Eq)]
pub enum CameleonError {
    /// An error of device control.
    ControlError(ControlError),
    /// An error of payload streaming.
    StreamError(StreamError),
    /// No `GenApi` context is loaded.
    GenApiContextMissing,
    /// The `GenApi` description lacks what the operation needs.
    InvalidGenApiXml(String),
    /// No camera was found.
    NoCamera,
}

} // verus!
