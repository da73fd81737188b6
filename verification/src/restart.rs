//! The restart of the desktop application, as a sequence of steps.
//!
//! The application is killed by name, left half a second to go, and opened again. The caller
//! runs the commands and reports how each went; `advance` gives the next step.

use vstd::prelude::*;
use crate::platform::CommandLine;

verus! {

/// How long the application is given to go before it is opened again, in milliseconds.
pub const RESTART_DELAY_MS: u64 = 500;

/// What the caller has to do next.
#[derive(Debug, PartialEq, Eq)]
pub enum RestartStep {
    /// Run the command given by `kill_command` and wait for it to end.
    Kill,
    /// Wait `delay_ms` milliseconds.
    Wait { delay_ms: u64 },
    /// Run the command given by `open_command` and wait for it to end.
    Open,
    /// Nothing is left to do; `result` goes to the caller.
    Finish { result: Result<(), String> },
}

/// What the caller saw when it did what a step asked.
#[derive(Debug, Clone, PartialEq, Eq)]
pub enum RestartEvent {
    /// The command could not be run, for the reason given.
    NotRun { reason: String },
    /// The command ran; `succeeded` tells whether it ended in success.
    Ran { succeeded: bool },
    /// The wait is over.
    Waited,
}

/// The command that kills the application by name.
pub fn kill_command(application: &str) -> (command: CommandLine)
    ensures
        command.program@ == "killall"@,
        command.arguments.len() == 1,
        command.arguments[0]@ == application@,
{
    let mut arguments: Vec<String> = Vec::new();
    arguments.push(String::from_str(application));
    CommandLine { program: String::from_str("killall"), arguments }
}

/// The command that opens the application by name.
pub fn open_command(application: &str) -> (command: CommandLine)
    ensures
        command.program@ == "open"@,
        command.arguments.len() == 2,
        command.arguments[0]@ == "-a"@,
        command.arguments[1]@ == application@,
{
    let mut arguments: Vec<String> = Vec::new();
    arguments.push(String::from_str("-a"));
    arguments.push(String::from_str(application));
    CommandLine { program: String::from_str("open"), arguments }
}

/// Whether the event is an answer to the step.
pub open spec fn answers(step: RestartStep, event: RestartEvent) -> bool {
    match step {
        RestartStep::Kill => event is NotRun || event is Ran,
        RestartStep::Wait { .. } => event is Waited,
        RestartStep::Open => event is NotRun || event is Ran,
        RestartStep::Finish { .. } => false,
    }
}

/// What a step stands for, with the message of a failure as a text.
pub enum StepText {
    Kill,
    Wait { delay_ms: u64 },
    Open,
    Succeeded,
    Failed { message: Seq<char> },
}

pub open spec fn step_text(step: RestartStep) -> StepText {
    match step {
        RestartStep::Kill => StepText::Kill,
        RestartStep::Wait { delay_ms } => StepText::Wait { delay_ms },
        RestartStep::Open => StepText::Open,
        RestartStep::Finish { result: Ok(_) } => StepText::Succeeded,
        RestartStep::Finish { result: Err(message) } => StepText::Failed { message: message@ },
    }
}

/// The transition table of a restart.
pub open spec fn successor(step: RestartStep, event: RestartEvent, application: Seq<char>) -> StepText {
    match (step, event) {
        (RestartStep::Kill, RestartEvent::NotRun { reason }) => StepText::Failed {
            message: "Failed to kill "@ + application + ": "@ + reason@,
        },
        (RestartStep::Kill, RestartEvent::Ran { succeeded }) => if succeeded {
            StepText::Wait { delay_ms: RESTART_DELAY_MS }
        } else {
            StepText::Failed { message: "Failed to kill "@ + application + " process"@ }
        },
        (RestartStep::Wait { .. }, RestartEvent::Waited) => StepText::Open,
        (RestartStep::Open, RestartEvent::NotRun { reason }) => StepText::Failed {
            message: "Failed to start "@ + application + ": "@ + reason@,
        },
        (RestartStep::Open, RestartEvent::Ran { succeeded }) => if succeeded {
            StepText::Succeeded
        } else {
            StepText::Failed { message: "Failed to start "@ + application }
        },
        (step, _) => step_text(step),
    }
}

/// How many answered steps a restart can still take, at most.
pub open spec fn steps_left(step: StepText) -> nat {
    match step {
        StepText::Kill => 3,
        StepText::Wait { .. } => 2,
        StepText::Open => 1,
        _ => 0,
    }
}

/// The step with which a restart begins.
pub fn first_step() -> (step: RestartStep)
    ensures
        step == RestartStep::Kill,
{
    RestartStep::Kill
}

/// Gives the step that follows `step` once the caller reports `event`. `application` is
/// the name that the application is killed and opened by.
pub fn advance(step: RestartStep, event: RestartEvent, application: &str) -> (next: RestartStep)
    ensures
        step_text(next) == successor(step, event, application@),
{
    match step {
        RestartStep::Kill => match event {
            RestartEvent::NotRun { reason } => {
                let mut message = String::from_str("Failed to kill ");
                message.append(application);
                message.append(": ");
                message.append(reason.as_str());
                RestartStep::Finish { result: Err(message) }
            },
            RestartEvent::Ran { succeeded } => {
                if succeeded {
                    RestartStep::Wait { delay_ms: RESTART_DELAY_MS }
                } else {
                    let mut message = String::from_str("Failed to kill ");
                    message.append(application);
                    message.append(" process");
                    RestartStep::Finish { result: Err(message) }
                }
            },
            RestartEvent::Waited => RestartStep::Kill,
        },
        RestartStep::Wait { delay_ms } => match event {
            RestartEvent::Waited => RestartStep::Open,
            _ => RestartStep::Wait { delay_ms },
        },
        RestartStep::Open => match event {
            RestartEvent::NotRun { reason } => {
                let mut message = String::from_str("Failed to start ");
                message.append(application);
                message.append(": ");
                message.append(reason.as_str());
                RestartStep::Finish { result: Err(message) }
            },
            RestartEvent::Ran { succeeded } => {
                if succeeded {
                    RestartStep::Finish { result: Ok(()) }
                } else {
                    let mut message = String::from_str("Failed to start ");
                    message.append(application);
                    RestartStep::Finish { result: Err(message) }
                }
            },
            RestartEvent::Waited => RestartStep::Open,
        },
        RestartStep::Finish { result } => RestartStep::Finish { result },
    }
}

/// Every answered step brings the restart closer to its end, and an event that does not
/// answer the current step leaves the restart where it is.
pub proof fn law_restart_progress(step: RestartStep, event: RestartEvent, application: Seq<char>)
    ensures
        answers(step, event) ==> steps_left(successor(step, event, application)) < steps_left(
            step_text(step),
        ),
        !answers(step, event) ==> successor(step, event, application) == step_text(step),
{
}

/// The application is opened only after it was killed with success and the wait is over,
/// and the restart succeeds only when opening did.
pub proof fn law_restart_order(step: RestartStep, event: RestartEvent, application: Seq<char>)
    ensures
        successor(step, event, application) is Open ==> step is Open || (step is Wait && event
            is Waited),
        successor(step, event, application) is Wait ==> step is Wait || (step is Kill && event
            == (RestartEvent::Ran { succeeded: true })),
        successor(step, event, application) is Succeeded ==> step_text(step) is Succeeded || (step
            is Open && event == (RestartEvent::Ran { succeeded: true })),
{
}

} // verus!
