//! What one non-blocking look at a child process can show.

use vstd::prelude::*;

verus! {

/// The result of polling a process's exit status once, without waiting.
#[derive(Debug, Clone, PartialEq, Eq)]
pub enum PollOutcome {
    /// The process has not exited.
    Running,
    /// The process has exited; `status` is the exit status as the system words it.
    Exited { status: String },
    /// The status could not be read.
    Failed { reason: String },
}

} // verus!
