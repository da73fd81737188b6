//! What can go wrong while supervising a server, and how each failure reads.
//!
//! A `SupervisorError` ends the operation that met it and is handed to the caller.
//! A `SoftError` is only reported: the operation goes on.

use vstd::prelude::*;

verus! {

/// One of the two output streams of a child process.
#[derive(Debug, Clone, Copy, PartialEq, Eq, Structural)]
pub enum StreamKind {
    Stdout,
    Stderr,
}

impl StreamKind {
    /// The stream's name as it appears in messages.
    pub open spec fn label_text(self) -> Seq<char> {
        match self {
            StreamKind::Stdout => "stdout"@,
            StreamKind::Stderr => "stderr"@,
        }
    }

    pub fn label(&self) -> (text: &'static str)
        ensures
            text@ == self.label_text(),
    {
        match self {
            StreamKind::Stdout => "stdout",
            StreamKind::Stderr => "stderr",
        }
    }
}

/// A failure that ends a start, handed to the caller.
#[derive(Debug, Clone, PartialEq, Eq)]
pub enum SupervisorError {
    /// The operating system did not create the process.
    SpawnFailure { reason: String },
    /// The process had already exited when it was probed.
    EarlyExit { status: String },
    /// A standard stream of the new process could not be taken over.
    StreamCaptureFailure { stream: StreamKind },
    /// The exit status of the new process could not be read.
    ProbeFailure { reason: String },
    /// The name is already tracked; a second start is refused.
    AlreadyRunning { name: String },
    /// The lock around the registry could not be taken.
    LockContentionFailure { reason: String },
}

impl SupervisorError {
    pub open spec fn message_text(self) -> Seq<char> {
        match self {
            SupervisorError::SpawnFailure { reason } => "Failed to start MCP server: "@ + reason@,
            SupervisorError::EarlyExit { status } =>
                "MCP server failed to start: process exited with status "@ + status@,
            SupervisorError::StreamCaptureFailure { stream } => "Failed to capture "@
                + stream.label_text(),
            SupervisorError::ProbeFailure { reason } => "Failed to check process status: "@
                + reason@,
            SupervisorError::AlreadyRunning { name } => "MCP server "@ + name@
                + " is already running"@,
            SupervisorError::LockContentionFailure { reason } => "Failed to lock servers: "@
                + reason@,
        }
    }

    /// The message shown to the caller, with the underlying reason embedded.
    pub fn message(&self) -> (text: String)
        ensures
            text@ == self.message_text(),
    {
        match self {
            SupervisorError::SpawnFailure { reason } => {
                let mut text = String::from_str("Failed to start MCP server: ");
                text.append(reason.as_str());
                text
            },
            SupervisorError::EarlyExit { status } => {
                let mut text = String::from_str(
                    "MCP server failed to start: process exited with status ",
                );
                text.append(status.as_str());
                text
            },
            SupervisorError::StreamCaptureFailure { stream } => {
                let mut text = String::from_str("Failed to capture ");
                text.append(stream.label());
                text
            },
            SupervisorError::ProbeFailure { reason } => {
                let mut text = String::from_str("Failed to check process status: ");
                text.append(reason.as_str());
                text
            },
            SupervisorError::AlreadyRunning { name } => {
                let mut text = String::from_str("MCP server ");
                text.append(name.as_str());
                text.append(" is already running");
                text
            },
            SupervisorError::LockContentionFailure { reason } => {
                let mut text = String::from_str("Failed to lock servers: ");
                text.append(reason.as_str());
                text
            },
        }
    }
}

/// A failure that is reported and otherwise ignored.
#[derive(Debug, Clone, PartialEq, Eq)]
pub enum SoftError {
    /// The first termination request failed; a forced kill follows.
    TerminationFailure { reason: String },
    /// The forced kill failed too.
    EscalationFailure { reason: String },
    /// The exit status of a stopped process could not be collected.
    ReapFailure { reason: String },
    /// A process could not be terminated during the shutdown sweep.
    SweepFailure { name: String, reason: String },
    /// The status sink could not repaint.
    SinkFailure { reason: String },
}

impl SoftError {
    pub open spec fn message_text(self) -> Seq<char> {
        match self {
            SoftError::TerminationFailure { reason } => "Failed to kill process: "@ + reason@,
            SoftError::EscalationFailure { reason } => "Failed to force kill process: "@
                + reason@,
            SoftError::ReapFailure { reason } => "Error waiting for process to exit: "@
                + reason@,
            SoftError::SweepFailure { name, reason } => "Failed to stop MCP server "@ + name@
                + ": "@ + reason@,
            SoftError::SinkFailure { reason } => "Failed to update tray status: "@ + reason@,
        }
    }

    /// The line to write to the log.
    pub fn message(&self) -> (text: String)
        ensures
            text@ == self.message_text(),
    {
        match self {
            SoftError::TerminationFailure { reason } => {
                let mut text = String::from_str("Failed to kill process: ");
                text.append(reason.as_str());
                text
            },
            SoftError::EscalationFailure { reason } => {
                let mut text = String::from_str("Failed to force kill process: ");
                text.append(reason.as_str());
                text
            },
            SoftError::ReapFailure { reason } => {
                let mut text = String::from_str("Error waiting for process to exit: ");
                text.append(reason.as_str());
                text
            },
            SoftError::SweepFailure { name, reason } => {
                let mut text = String::from_str("Failed to stop MCP server ");
                text.append(name.as_str());
                text.append(": ");
                text.append(reason.as_str());
                text
            },
            SoftError::SinkFailure { reason } => {
                let mut text = String::from_str("Failed to update tray status: ");
                text.append(reason.as_str());
                text
            },
        }
    }
}

} // verus!
