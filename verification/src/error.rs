//! Why a start of the backend can fail.

use vstd::prelude::*;
use crate::launch::LaunchStrategy;
use crate::text::{decimal, push_decimal};

verus! {

/// A failed start. Each of these is fatal to the start that met it; none is
/// retried by the supervisor.
#[derive(Debug, PartialEq, Eq)]
pub enum StartError {
    /// Every port of the range was occupied.
    NoPortAvailable,
    /// The bundled executable could not be resolved.
    ResourceNotFound(String),
    /// The operating system refused to spawn the child.
    SpawnFailed { strategy: LaunchStrategy, reason: String },
    /// The backend did not answer its health endpoint within the deadline.
    ReadinessTimeout { seconds: u64 },
}

/// The rendered text of a start error.
pub open spec fn start_error_text(error: StartError) -> Seq<char> {
    match error {
        StartError::NoPortAvailable => "No available port found in range 8100-8199"@,
        StartError::ResourceNotFound(detail) => "Failed to create sidecar command: "@ + detail@,
        StartError::SpawnFailed { strategy, reason } => match strategy {
            LaunchStrategy::Development => "Failed to spawn dev backend: "@ + reason@,
            LaunchStrategy::Production => "Failed to spawn sidecar: "@ + reason@,
        },
        StartError::ReadinessTimeout { seconds } => "Backend failed to respond within "@ + decimal(
            seconds as nat,
        ) + " seconds. Check logs at ~/.ragkit/logs/"@,
    }
}

impl StartError {
    /// The error as one line of text, for the log and for the error dialog.
    pub fn message(&self) -> (text: String)
        ensures
            text@ == start_error_text(*self),
    {
        match self {
            StartError::NoPortAvailable => String::from_str(
                "No available port found in range 8100-8199",
            ),
            StartError::ResourceNotFound(detail) => {
                let mut text = String::from_str("Failed to create sidecar command: ");
                text.append(detail.as_str());
                text
            },
            StartError::SpawnFailed { strategy, reason } => {
                let mut text = match strategy {
                    LaunchStrategy::Development => String::from_str(
                        "Failed to spawn dev backend: ",
                    ),
                    LaunchStrategy::Production => String::from_str("Failed to spawn sidecar: "),
                };
                text.append(reason.as_str());
                text
            },
            StartError::ReadinessTimeout { seconds } => {
                let mut text = String::from_str("Backend failed to respond within ");
                push_decimal(&mut text, *seconds);
                text.append(" seconds. Check logs at ~/.ragkit/logs/");
                text
            },
        }
    }
}

} // verus!
