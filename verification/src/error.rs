//! Error taxonomy of the capture-and-streaming core.

use vstd::prelude::*;
use vstd::string::StringExecFns;

verus! {

/// Every failure the core can report.
#[derive(Clone, Copy, Debug, PartialEq, Eq, Structural)]
pub enum AudioError {
    /// No input device of the requested name exists at start time.
    DeviceNotFound,
    /// The hardware input stream could not be opened; the session stays idle.
    CaptureStartFailed,
    /// The first connection to the recognition endpoint failed; no retry.
    TransportConnectFailed,
    /// A send or receive failed in the middle of a session; this ends the
    /// transport but does not stop the hardware capture.
    TransportIOError,
    /// The consumer of the frame channel is gone while the producer still
    /// pushes; the frame is dropped.
    ChannelClosed,
}

impl AudioError {
    /// Text of the error for logs and user messages.
    pub open spec fn spec_message(self) -> Seq<char> {
        match self {
            AudioError::DeviceNotFound => "input device not found"@,
            AudioError::CaptureStartFailed => "failed to open the capture stream"@,
            AudioError::TransportConnectFailed => "failed to connect to the recognition endpoint"@,
            AudioError::TransportIOError => "streaming transport failed"@,
            AudioError::ChannelClosed => "frame channel closed"@,
        }
    }

    /// Text of the error for logs and user messages.
    pub fn message(&self) -> (text: String)
        ensures
            text@ == self.spec_message(),
    {
        match self {
            AudioError::DeviceNotFound => String::from_str("input device not found"),
            AudioError::CaptureStartFailed => String::from_str("failed to open the capture stream"),
            AudioError::TransportConnectFailed => String::from_str(
                "failed to connect to the recognition endpoint",
            ),
            AudioError::TransportIOError => String::from_str("streaming transport failed"),
            AudioError::ChannelClosed => String::from_str("frame channel closed"),
        }
    }
}

} // verus!
