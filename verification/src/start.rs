//! The start of a server, as a sequence of steps.
//!
//! The library decides; the caller acts. Each `StartStep` names one thing for the caller to
//! do. The caller does it and reports what happened as a `StartEvent`; `advance` then gives
//! the next step. The step `Register` is answered by `Supervisor::register`, which gives the
//! next step itself. An event that does not answer the current step changes nothing.

use vstd::prelude::*;
use crate::failure::{SoftError, StreamKind, SupervisorError};
use crate::probe::PollOutcome;

verus! {

/// How long a new process is left alone before it is probed, in milliseconds.
pub const PROBE_DELAY_MS: u64 = 500;

/// What the caller has to do next.
#[derive(Debug, PartialEq, Eq)]
pub enum StartStep {
    /// Spawn the command with its arguments, with stdin, stdout and stderr piped and the
    /// definition's environment entries added to the child's environment.
    Spawn,
    /// Hand stdout and stderr to two relay workers, wait `delay_ms` milliseconds, then poll
    /// the exit status once without blocking.
    Probe { delay_ms: u64 },
    /// Kill the new process and collect its exit status; the start fails with `error`.
    Abandon { error: SupervisorError },
    /// Hand the process to the supervisor with `Supervisor::register`.
    Register,
    /// Tell the status sink to repaint.
    Notify,
    /// Nothing is left to do; `result` goes to the caller of the start.
    Finish { result: Result<(), SupervisorError> },
}

/// What the caller saw when it did what a step asked.
#[derive(Debug, Clone, PartialEq, Eq)]
pub enum StartEvent {
    /// The operating system did not create the process.
    SpawnFailed { reason: String },
    /// The process was created; the flags say which output streams could be taken over.
    Spawned { stdout_captured: bool, stderr_captured: bool },
    /// The exit status was polled.
    Polled { outcome: PollOutcome },
    /// The registry could not be reached to register the process.
    RegistryUnavailable { reason: String },
    /// The new process was given up; `failure` tells why killing it failed, if it did.
    Abandoned { failure: Option<String> },
    /// The status sink was told; `failure` tells why repainting failed, if it did.
    Notified { failure: Option<String> },
}

/// The next step, and a failure to log if the event carried one.
#[derive(Debug, PartialEq, Eq)]
pub struct StartTransition {
    pub next: StartStep,
    pub report: Option<SoftError>,
}

/// Whether the event is an answer to the step.
pub open spec fn answers(step: StartStep, event: StartEvent) -> bool {
    match step {
        StartStep::Spawn => event is SpawnFailed || event is Spawned,
        StartStep::Probe { .. } => event is Polled,
        StartStep::Abandon { .. } => event is Abandoned,
        StartStep::Register => event is RegistryUnavailable,
        StartStep::Notify => event is Notified,
        StartStep::Finish { .. } => false,
    }
}

/// The step that follows the capture of the output streams of a new process.
pub open spec fn after_capture(stdout_captured: bool, stderr_captured: bool) -> StartStep {
    if !stdout_captured {
        StartStep::Abandon {
            error: SupervisorError::StreamCaptureFailure { stream: StreamKind::Stdout },
        }
    } else if !stderr_captured {
        StartStep::Abandon {
            error: SupervisorError::StreamCaptureFailure { stream: StreamKind::Stderr },
        }
    } else {
        StartStep::Probe { delay_ms: PROBE_DELAY_MS }
    }
}

/// The step that follows the liveness probe.
pub open spec fn after_probe(outcome: PollOutcome) -> StartStep {
    match outcome {
        PollOutcome::Running => StartStep::Register,
        PollOutcome::Exited { status } => StartStep::Finish {
            result: Err(SupervisorError::EarlyExit { status }),
        },
        PollOutcome::Failed { reason } => StartStep::Finish {
            result: Err(SupervisorError::ProbeFailure { reason }),
        },
    }
}

/// The failure to log for an optional reason, built by `make`.
pub open spec fn reported(failure: Option<String>, make: spec_fn(String) -> SoftError) -> Option<
    SoftError,
> {
    match failure {
        Some(reason) => Some(make(reason)),
        None => None,
    }
}

/// The transition table of a start.
pub open spec fn successor(step: StartStep, event: StartEvent) -> StartTransition {
    match (step, event) {
        (StartStep::Spawn, StartEvent::SpawnFailed { reason }) => StartTransition {
            next: StartStep::Finish { result: Err(SupervisorError::SpawnFailure { reason }) },
            report: None,
        },
        (StartStep::Spawn, StartEvent::Spawned { stdout_captured, stderr_captured }) =>
            StartTransition { next: after_capture(stdout_captured, stderr_captured), report: None },
        (StartStep::Probe { .. }, StartEvent::Polled { outcome }) => StartTransition {
            next: after_probe(outcome),
            report: None,
        },
        (StartStep::Register, StartEvent::RegistryUnavailable { reason }) => StartTransition {
            next: StartStep::Abandon { error: SupervisorError::LockContentionFailure { reason } },
            report: None,
        },
        (StartStep::Abandon { error }, StartEvent::Abandoned { failure }) => StartTransition {
            next: StartStep::Finish { result: Err(error) },
            report: reported(failure, |reason: String| SoftError::TerminationFailure { reason }),
        },
        (StartStep::Notify, StartEvent::Notified { failure }) => StartTransition {
            next: StartStep::Finish { result: Ok(()) },
            report: reported(failure, |reason: String| SoftError::SinkFailure { reason }),
        },
        (step, _) => StartTransition { next: step, report: None },
    }
}

/// How many answered steps a start can still take, at most.
pub open spec fn steps_left(step: StartStep) -> nat {
    match step {
        StartStep::Spawn => 5,
        StartStep::Probe { .. } => 4,
        StartStep::Register => 3,
        StartStep::Abandon { .. } => 1,
        StartStep::Notify => 1,
        StartStep::Finish { .. } => 0,
    }
}

/// Gives the step that follows `step` once the caller reports `event`.
pub fn advance(step: StartStep, event: StartEvent) -> (transition: StartTransition)
    ensures
        transition == successor(step, event),
{
    match step {
        StartStep::Spawn => match event {
            StartEvent::SpawnFailed { reason } => StartTransition {
                next: StartStep::Finish { result: Err(SupervisorError::SpawnFailure { reason }) },
                report: None,
            },
            StartEvent::Spawned { stdout_captured, stderr_captured } => {
                let next = if !stdout_captured {
                    StartStep::Abandon {
                        error: SupervisorError::StreamCaptureFailure { stream: StreamKind::Stdout },
                    }
                } else if !stderr_captured {
                    StartStep::Abandon {
                        error: SupervisorError::StreamCaptureFailure { stream: StreamKind::Stderr },
                    }
                } else {
                    StartStep::Probe { delay_ms: PROBE_DELAY_MS }
                };
                StartTransition { next, report: None }
            },
            _ => StartTransition { next: StartStep::Spawn, report: None },
        },
        StartStep::Probe { delay_ms } => match event {
            StartEvent::Polled { outcome } => {
                let next = match outcome {
                    PollOutcome::Running => StartStep::Register,
                    PollOutcome::Exited { status } => StartStep::Finish {
                        result: Err(SupervisorError::EarlyExit { status }),
                    },
                    PollOutcome::Failed { reason } => StartStep::Finish {
                        result: Err(SupervisorError::ProbeFailure { reason }),
                    },
                };
                StartTransition { next, report: None }
            },
            _ => StartTransition { next: StartStep::Probe { delay_ms }, report: None },
        },
        StartStep::Register => match event {
            StartEvent::RegistryUnavailable { reason } => StartTransition {
                next: StartStep::Abandon {
                    error: SupervisorError::LockContentionFailure { reason },
                },
                report: None,
            },
            _ => StartTransition { next: StartStep::Register, report: None },
        },
        StartStep::Abandon { error } => match event {
            StartEvent::Abandoned { failure } => {
                let report = match failure {
                    Some(reason) => Some(SoftError::TerminationFailure { reason }),
                    None => None,
                };
                StartTransition { next: StartStep::Finish { result: Err(error) }, report }
            },
            _ => StartTransition { next: StartStep::Abandon { error }, report: None },
        },
        StartStep::Notify => match event {
            StartEvent::Notified { failure } => {
                let report = match failure {
                    Some(reason) => Some(SoftError::SinkFailure { reason }),
                    None => None,
                };
                StartTransition { next: StartStep::Finish { result: Ok(()) }, report }
            },
            _ => StartTransition { next: StartStep::Notify, report: None },
        },
        StartStep::Finish { result } => StartTransition {
            next: StartStep::Finish { result },
            report: None,
        },
    }
}

/// Every answered step brings the start closer to its end, and an event that does not answer
/// the current step leaves the start where it is and reports nothing.
pub proof fn law_start_progress(step: StartStep, event: StartEvent)
    ensures
        answers(step, event) ==> steps_left(successor(step, event).next) < steps_left(step),
        !answers(step, event) ==> successor(step, event) == (StartTransition {
            next: step,
            report: None,
        }),
{
}

/// A process reaches registration only from a probe that saw it running.
pub proof fn law_register_only_when_running(step: StartStep, event: StartEvent)
    requires
        successor(step, event).next is Register,
    ensures
        step is Register || (step is Probe && event == (StartEvent::Polled {
            outcome: PollOutcome::Running,
        })),
{
}

/// A start reports success only after the status sink was told, and a start that was probed
/// and found exited, or could not be probed, fails without registering anything.
pub proof fn law_start_outcomes(step: StartStep, event: StartEvent)
    ensures
        successor(step, event).next == (StartStep::Finish { result: Ok(()) }) ==> step is Notify
            || step == (StartStep::Finish { result: Ok(()) }),
        step is Probe && event is Polled && !(event->outcome is Running) ==> successor(
            step,
            event,
        ).next matches StartStep::Finish { result: Err(_) },
{
}

} // verus!
