use mcp_supervisor::failure::SoftError;
use mcp_supervisor::platform::{CommandLine, Platform};
use mcp_supervisor::stop::{
    advance, first_step, force_kill_command, StopEvent, StopStep, StopTransition,
};

fn quiet(next: StopStep) -> StopTransition {
    StopTransition { next, report: None }
}

fn events(failure: Option<&str>) -> Vec<StopEvent> {
    let failure = failure.map(String::from);
    vec![
        StopEvent::Terminated { failure: failure.clone() },
        StopEvent::ForceKilled { failure: failure.clone() },
        StopEvent::Reaped { failure: failure.clone() },
        StopEvent::Notified { failure },
    ]
}

#[test]
fn a_stop_of_a_known_process_begins_with_terminate() {
    assert_eq!(first_step(true), StopStep::Terminate);
}

#[test]
fn a_stop_of_nothing_only_notifies() {
    assert_eq!(first_step(false), StopStep::Notify);
    assert_eq!(
        advance(first_step(false), StopEvent::Notified { failure: None }),
        quiet(StopStep::Finish)
    );
}

#[test]
fn clean_stop_terminates_reaps_and_notifies() {
    let step = advance(StopStep::Terminate, StopEvent::Terminated { failure: None });
    assert_eq!(step, quiet(StopStep::Reap));
    let step = advance(StopStep::Reap, StopEvent::Reaped { failure: None });
    assert_eq!(step, quiet(StopStep::Notify));
    let step = advance(StopStep::Notify, StopEvent::Notified { failure: None });
    assert_eq!(step, quiet(StopStep::Finish));
}

#[test]
fn failed_termination_escalates() {
    let transition = advance(
        StopStep::Terminate,
        StopEvent::Terminated { failure: Some("EPERM".to_string()) },
    );
    assert_eq!(
        transition,
        StopTransition {
            next: StopStep::ForceKill,
            report: Some(SoftError::TerminationFailure { reason: "EPERM".to_string() }),
        }
    );
}

#[test]
fn forced_kill_is_followed_by_reaping_whatever_came_of_it() {
    assert_eq!(
        advance(StopStep::ForceKill, StopEvent::ForceKilled { failure: None }),
        quiet(StopStep::Reap)
    );
    assert_eq!(
        advance(StopStep::ForceKill, StopEvent::ForceKilled { failure: Some("gone".to_string()) }),
        StopTransition {
            next: StopStep::Reap,
            report: Some(SoftError::EscalationFailure { reason: "gone".to_string() }),
        }
    );
}

#[test]
fn failed_reap_and_failed_repaint_are_reported_and_passed_over() {
    assert_eq!(
        advance(StopStep::Reap, StopEvent::Reaped { failure: Some("ECHILD".to_string()) }),
        StopTransition {
            next: StopStep::Notify,
            report: Some(SoftError::ReapFailure { reason: "ECHILD".to_string() }),
        }
    );
    assert_eq!(
        advance(StopStep::Notify, StopEvent::Notified { failure: Some("no tray".to_string()) }),
        StopTransition {
            next: StopStep::Finish,
            report: Some(SoftError::SinkFailure { reason: "no tray".to_string() }),
        }
    );
}

#[test]
fn a_stop_ignores_an_event_that_answers_another_step() {
    let steps = [
        StopStep::Terminate,
        StopStep::ForceKill,
        StopStep::Reap,
        StopStep::Notify,
        StopStep::Finish,
    ];
    for (position, step) in steps.into_iter().enumerate() {
        for failure in [None, Some("x")] {
            for (index, event) in events(failure).into_iter().enumerate() {
                if index != position {
                    assert_eq!(advance(step, event), quiet(step));
                }
            }
        }
    }
}

#[test]
fn every_stop_ends_within_four_answered_steps() {
    for failing in [false, true] {
        let failure = if failing { Some("x") } else { None };
        let mut step = first_step(true);
        let mut answered = 0;
        while step != StopStep::Finish {
            let index = match step {
                StopStep::Terminate => 0,
                StopStep::ForceKill => 1,
                StopStep::Reap => 2,
                StopStep::Notify => 3,
                StopStep::Finish => unreachable!(),
            };
            step = advance(step, events(failure).remove(index)).next;
            answered += 1;
        }
        assert_eq!(answered, if failing { 4 } else { 3 });
    }
}

#[test]
fn forced_kill_goes_by_the_process_id() {
    for platform in [Platform::MacOs, Platform::Linux] {
        assert_eq!(
            force_kill_command(platform, 4312),
            CommandLine {
                program: "kill".to_string(),
                arguments: vec!["-9".to_string(), "4312".to_string()],
            }
        );
    }
    assert_eq!(
        force_kill_command(Platform::Windows, 7),
        CommandLine {
            program: "taskkill".to_string(),
            arguments: vec!["/F".to_string(), "/PID".to_string(), "7".to_string()],
        }
    );
}
