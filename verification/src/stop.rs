//! The stop of a server, as a sequence of steps.
//!
//! `Supervisor::stop_mcp_server` takes the process out of the registry and gives the first
//! step. The caller does what each `StopStep` asks and reports the result as a `StopEvent`;
//! `advance` gives the next step. No failure on the way ends the stop: each one is handed
//! back to be logged, and the stop goes on to its end.

use vstd::prelude::*;
use crate::failure::SoftError;
use crate::platform::{CommandLine, Platform};
use crate::text::{decimal, decimal_text};

verus! {

/// What the caller has to do next.
#[derive(Debug, Clone, Copy, PartialEq, Eq, Structural)]
pub enum StopStep {
    /// Ask the process to terminate.
    Terminate,
    /// Kill the process by its id with the system's own means.
    ForceKill,
    /// Wait for the process to exit and collect its exit status.
    Reap,
    /// Tell the status sink to repaint.
    Notify,
    /// Nothing is left to do; the stop has succeeded.
    Finish,
}

/// What the caller saw when it did what a step asked. In each, `failure` tells why the
/// action failed, if it did.
#[derive(Debug, Clone, PartialEq, Eq)]
pub enum StopEvent {
    Terminated { failure: Option<String> },
    ForceKilled { failure: Option<String> },
    Reaped { failure: Option<String> },
    Notified { failure: Option<String> },
}

/// The next step, and a failure to log if the event carried one.
#[derive(Debug, PartialEq, Eq)]
pub struct StopTransition {
    pub next: StopStep,
    pub report: Option<SoftError>,
}

/// Whether the event is an answer to the step.
pub open spec fn answers(step: StopStep, event: StopEvent) -> bool {
    match step {
        StopStep::Terminate => event is Terminated,
        StopStep::ForceKill => event is ForceKilled,
        StopStep::Reap => event is Reaped,
        StopStep::Notify => event is Notified,
        StopStep::Finish => false,
    }
}

/// The step with which a stop begins: a process that was tracked is terminated, and where
/// nothing was tracked only the status sink is told.
pub open spec fn opening(found: bool) -> StopStep {
    if found {
        StopStep::Terminate
    } else {
        StopStep::Notify
    }
}

/// The transition table of a stop.
pub open spec fn successor(step: StopStep, event: StopEvent) -> StopTransition {
    match (step, event) {
        (StopStep::Terminate, StopEvent::Terminated { failure: None }) => StopTransition {
            next: StopStep::Reap,
            report: None,
        },
        (StopStep::Terminate, StopEvent::Terminated { failure: Some(reason) }) => StopTransition {
            next: StopStep::ForceKill,
            report: Some(SoftError::TerminationFailure { reason }),
        },
        (StopStep::ForceKill, StopEvent::ForceKilled { failure: None }) => StopTransition {
            next: StopStep::Reap,
            report: None,
        },
        (StopStep::ForceKill, StopEvent::ForceKilled { failure: Some(reason) }) => StopTransition {
            next: StopStep::Reap,
            report: Some(SoftError::EscalationFailure { reason }),
        },
        (StopStep::Reap, StopEvent::Reaped { failure: None }) => StopTransition {
            next: StopStep::Notify,
            report: None,
        },
        (StopStep::Reap, StopEvent::Reaped { failure: Some(reason) }) => StopTransition {
            next: StopStep::Notify,
            report: Some(SoftError::ReapFailure { reason }),
        },
        (StopStep::Notify, StopEvent::Notified { failure: None }) => StopTransition {
            next: StopStep::Finish,
            report: None,
        },
        (StopStep::Notify, StopEvent::Notified { failure: Some(reason) }) => StopTransition {
            next: StopStep::Finish,
            report: Some(SoftError::SinkFailure { reason }),
        },
        (step, _) => StopTransition { next: step, report: None },
    }
}

/// How many answered steps a stop can still take, at most.
pub open spec fn steps_left(step: StopStep) -> nat {
    match step {
        StopStep::Terminate => 4,
        StopStep::ForceKill => 3,
        StopStep::Reap => 2,
        StopStep::Notify => 1,
        StopStep::Finish => 0,
    }
}

/// Gives the step with which a stop begins; `found` tells whether a process was tracked
/// under the name.
pub fn first_step(found: bool) -> (step: StopStep)
    ensures
        step == opening(found),
{
    if found {
        StopStep::Terminate
    } else {
        StopStep::Notify
    }
}

/// Gives the step that follows `step` once the caller reports `event`.
pub fn advance(step: StopStep, event: StopEvent) -> (transition: StopTransition)
    ensures
        transition == successor(step, event),
{
    match step {
        StopStep::Terminate => match event {
            StopEvent::Terminated { failure } => match failure {
                None => StopTransition { next: StopStep::Reap, report: None },
                Some(reason) => StopTransition {
                    next: StopStep::ForceKill,
                    report: Some(SoftError::TerminationFailure { reason }),
                },
            },
            _ => StopTransition { next: step, report: None },
        },
        StopStep::ForceKill => match event {
            StopEvent::ForceKilled { failure } => match failure {
                None => StopTransition { next: StopStep::Reap, report: None },
                Some(reason) => StopTransition {
                    next: StopStep::Reap,
                    report: Some(SoftError::EscalationFailure { reason }),
                },
            },
            _ => StopTransition { next: step, report: None },
        },
        StopStep::Reap => match event {
            StopEvent::Reaped { failure } => match failure {
                None => StopTransition { next: StopStep::Notify, report: None },
                Some(reason) => StopTransition {
                    next: StopStep::Notify,
                    report: Some(SoftError::ReapFailure { reason }),
                },
            },
            _ => StopTransition { next: step, report: None },
        },
        StopStep::Notify => match event {
            StopEvent::Notified { failure } => match failure {
                None => StopTransition { next: StopStep::Finish, report: None },
                Some(reason) => StopTransition {
                    next: StopStep::Finish,
                    report: Some(SoftError::SinkFailure { reason }),
                },
            },
            _ => StopTransition { next: step, report: None },
        },
        StopStep::Finish => StopTransition { next: step, report: None },
    }
}

/// The arguments of the command that kills the process with the given id by force.
pub open spec fn force_kill_arguments(platform: Platform, pid: u32) -> Seq<Seq<char>> {
    match platform {
        Platform::Windows => seq!["/F"@, "/PID"@, decimal_text(pid as nat)],
        _ => seq!["-9"@, decimal_text(pid as nat)],
    }
}

/// The command for `StopStep::ForceKill`: `taskkill` on Windows, `kill` elsewhere.
pub fn force_kill_command(platform: Platform, pid: u32) -> (command: CommandLine)
    ensures
        command.program@ == if platform is Windows {
            "taskkill"@
        } else {
            "kill"@
        },
        command.arguments@.map_values(|argument: String| argument@) == force_kill_arguments(
            platform,
            pid,
        ),
{
    let mut arguments: Vec<String> = Vec::new();
    match platform {
        Platform::Windows => {
            arguments.push(String::from_str("/F"));
            arguments.push(String::from_str("/PID"));
            arguments.push(decimal(pid));
            assert(arguments@.map_values(|argument: String| argument@) =~= force_kill_arguments(
                platform,
                pid,
            ));
            CommandLine { program: String::from_str("taskkill"), arguments }
        },
        _ => {
            arguments.push(String::from_str("-9"));
            arguments.push(decimal(pid));
            assert(arguments@.map_values(|argument: String| argument@) =~= force_kill_arguments(
                platform,
                pid,
            ));
            CommandLine { program: String::from_str("kill"), arguments }
        },
    }
}

/// Every answered step brings the stop closer to its end, whether the action failed or not,
/// and an event that does not answer the current step leaves the stop where it is and
/// reports nothing. A stop therefore ends after at most four answered steps.
pub proof fn law_stop_progress(step: StopStep, event: StopEvent)
    ensures
        answers(step, event) ==> steps_left(successor(step, event).next) < steps_left(step),
        !answers(step, event) ==> successor(step, event) == (StopTransition {
            next: step,
            report: None,
        }),
{
}

/// The forced kill is asked for only after a termination request failed, and whatever
/// comes of it the process is reaped next.
pub proof fn law_escalation(step: StopStep, event: StopEvent)
    ensures
        successor(step, event).next is ForceKill ==> step is ForceKill || (step is Terminate
            && event is Terminated && event->Terminated_failure is Some),
        step is ForceKill && event is ForceKilled ==> successor(step, event).next is Reap,
        step is Terminate && event is Terminated ==> (successor(step, event).next is ForceKill
            <==> event->Terminated_failure is Some),
{
}

/// A stop of a name that was not tracked asks for nothing but to tell the status sink.
pub proof fn law_absent_stop_only_notifies(event: StopEvent)
    ensures
        opening(false) is Notify,
        answers(opening(false), event) ==> successor(opening(false), event).next is Finish,
{
}

} // verus!
