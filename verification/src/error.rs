//! The errors of starting and stopping the worker, and their messages.

use vstd::prelude::*;
use vstd::string::*;

verus! {

/// Why the one-time handshake failed.
#[derive(Clone, Debug, PartialEq, Eq)]
pub enum HandshakeFailure {
    /// The worker answered with a status outside the 2xx class.
    /// `status_line` is the status as the transport prints it, `body` the
    /// response body, or `None` where it could not be read.
    Status { status: u16, status_line: String, body: Option<String> },
    /// The request never got an answer; the text is the transport's own.
    Transport(String),
}

/// Everything that can go wrong in `start` and `stop`.
#[derive(Clone, Debug, PartialEq, Eq)]
pub enum SidecarError {
    /// The worker process could not be spawned.
    SpawnFailed(String),
    /// The worker wrote nothing to its standard output within the timeout.
    ReadinessTimeout,
    /// The worker's event stream ended before any standard output.
    ReadinessChannelClosed,
    /// The application data directory could not be resolved.
    DataDirUnavailable(String),
    /// The application data directory is not valid UTF-8.
    DataDirNotUtf8,
    /// The worker did not accept its configuration.
    HandshakeFailed(HandshakeFailure),
    /// The termination request for the worker failed.
    KillFailed(String),
}

impl SidecarError {
    /// The human-readable message of an error.
    pub open spec fn message_text(self) -> Seq<char> {
        match self {
            SidecarError::SpawnFailed(reason) => "Failed to spawn sidecar: "@ + reason@,
            SidecarError::ReadinessTimeout =>
                "Timed out waiting for sidecar to start. It may have failed or is not producing any output."@,
            SidecarError::ReadinessChannelClosed =>
                "Failed to receive ready signal from sidecar: channel closed."@,
            SidecarError::DataDirUnavailable(reason) =>
                "Failed to get app data directory: "@ + reason@,
            SidecarError::DataDirNotUtf8 => "Path contains invalid UTF-8"@,
            SidecarError::HandshakeFailed(HandshakeFailure::Status { status, status_line, body }) =>
                "Failed to send appDataDir, status: "@ + status_line@ + ", body: "@ + (match body {
                    Some(text) => text@,
                    None => "N/A"@,
                }),
            SidecarError::HandshakeFailed(HandshakeFailure::Transport(reason)) =>
                "Error sending appDataDir to sidecar: "@ + reason@,
            SidecarError::KillFailed(reason) => "Failed to kill sidecar process: "@ + reason@,
        }
    }

    /// Renders the error as the message that the caller of `start` or `stop`
    /// is shown.
    pub fn message(&self) -> (text: String)
        ensures
            text@ == self.message_text(),
    {
        match self {
            SidecarError::SpawnFailed(reason) => {
                String::from_str("Failed to spawn sidecar: ").concat(reason.as_str())
            },
            SidecarError::ReadinessTimeout => {
                String::from_str(
                    "Timed out waiting for sidecar to start. It may have failed or is not producing any output.",
                )
            },
            SidecarError::ReadinessChannelClosed => {
                String::from_str("Failed to receive ready signal from sidecar: channel closed.")
            },
            SidecarError::DataDirUnavailable(reason) => {
                String::from_str("Failed to get app data directory: ").concat(reason.as_str())
            },
            SidecarError::DataDirNotUtf8 => String::from_str("Path contains invalid UTF-8"),
            SidecarError::HandshakeFailed(HandshakeFailure::Status { status, status_line, body }) => {
                let head = String::from_str("Failed to send appDataDir, status: ").concat(
                    status_line.as_str(),
                ).concat(", body: ");
                match body {
                    Some(text) => head.concat(text.as_str()),
                    None => head.concat("N/A"),
                }
            },
            SidecarError::HandshakeFailed(HandshakeFailure::Transport(reason)) => {
                String::from_str("Error sending appDataDir to sidecar: ").concat(reason.as_str())
            },
            SidecarError::KillFailed(reason) => {
                String::from_str("Failed to kill sidecar process: ").concat(reason.as_str())
            },
        }
    }
}

} // verus!
