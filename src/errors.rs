//! Errors of the capture domain.

use vstd::prelude::*;

verus! {

/// What went wrong while finding a device or running a capture session.
/// Each message is the platform's own description of the failure.
#[derive(Debug, PartialEq, Eq)]
pub enum CaptureError {
    /// The audio subsystem could not be queried for its endpoints.
    EnumerationError(String),
    /// No endpoint of the snapshot carries this identifier.
    DeviceNotFound(String),
    /// The endpoint could not be opened for capture.
    DeviceInitError(String),
    /// The endpoint rejected the requested sample format.
    FormatNegotiationError(String),
    /// The hardware stream did not start.
    StreamStartError(String),
    /// Reading captured bytes from the stream failed.
    StreamReadError(String),
    /// The operation does not apply in the session's current state.
    InvalidStateError,
}

impl Clone for CaptureError {
    fn clone(&self) -> (r: Self)
        ensures
            r == *self,
    {
        match self {
            CaptureError::EnumerationError(m) => CaptureError::EnumerationError(m.clone()),
            CaptureError::DeviceNotFound(m) => CaptureError::DeviceNotFound(m.clone()),
            CaptureError::DeviceInitError(m) => CaptureError::DeviceInitError(m.clone()),
            CaptureError::FormatNegotiationError(m) => CaptureError::FormatNegotiationError(
                m.clone(),
            ),
            CaptureError::StreamStartError(m) => CaptureError::StreamStartError(m.clone()),
            CaptureError::StreamReadError(m) => CaptureError::StreamReadError(m.clone()),
            CaptureError::InvalidStateError => CaptureError::InvalidStateError,
        }
    }
}

} // verus!
