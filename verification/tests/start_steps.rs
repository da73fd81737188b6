use mcp_supervisor::failure::{SoftError, StreamKind, SupervisorError};
use mcp_supervisor::probe::PollOutcome;
use mcp_supervisor::start::{advance, StartEvent, StartStep, StartTransition};

fn quiet(next: StartStep) -> StartTransition {
    StartTransition { next, report: None }
}

fn all_events() -> Vec<StartEvent> {
    vec![
        StartEvent::SpawnFailed { reason: "no".to_string() },
        StartEvent::Spawned { stdout_captured: true, stderr_captured: true },
        StartEvent::Polled { outcome: PollOutcome::Running },
        StartEvent::RegistryUnavailable { reason: "poisoned".to_string() },
        StartEvent::Abandoned { failure: None },
        StartEvent::Notified { failure: None },
    ]
}

#[test]
fn spawn_failure_ends_the_start() {
    let transition =
        advance(StartStep::Spawn, StartEvent::SpawnFailed { reason: "not found".to_string() });
    assert_eq!(
        transition,
        quiet(StartStep::Finish {
            result: Err(SupervisorError::SpawnFailure { reason: "not found".to_string() })
        })
    );
}

#[test]
fn spawned_with_both_streams_goes_on_to_the_probe() {
    let transition = advance(
        StartStep::Spawn,
        StartEvent::Spawned { stdout_captured: true, stderr_captured: true },
    );
    assert_eq!(transition, quiet(StartStep::Probe { delay_ms: 500 }));
}

#[test]
fn missing_stdout_abandons_the_process() {
    for stderr_captured in [true, false] {
        let transition = advance(
            StartStep::Spawn,
            StartEvent::Spawned { stdout_captured: false, stderr_captured },
        );
        assert_eq!(
            transition,
            quiet(StartStep::Abandon {
                error: SupervisorError::StreamCaptureFailure { stream: StreamKind::Stdout }
            })
        );
    }
}

#[test]
fn missing_stderr_abandons_the_process() {
    let transition = advance(
        StartStep::Spawn,
        StartEvent::Spawned { stdout_captured: true, stderr_captured: false },
    );
    assert_eq!(
        transition,
        quiet(StartStep::Abandon {
            error: SupervisorError::StreamCaptureFailure { stream: StreamKind::Stderr }
        })
    );
}

#[test]
fn probe_that_sees_the_process_running_goes_on_to_register() {
    let transition = advance(
        StartStep::Probe { delay_ms: 500 },
        StartEvent::Polled { outcome: PollOutcome::Running },
    );
    assert_eq!(transition, quiet(StartStep::Register));
}

#[test]
fn probe_that_sees_the_process_gone_fails_the_start() {
    let transition = advance(
        StartStep::Probe { delay_ms: 500 },
        StartEvent::Polled { outcome: PollOutcome::Exited { status: "signal: 9".to_string() } },
    );
    assert_eq!(
        transition,
        quiet(StartStep::Finish {
            result: Err(SupervisorError::EarlyExit { status: "signal: 9".to_string() })
        })
    );
}

#[test]
fn probe_that_cannot_poll_fails_the_start() {
    let transition = advance(
        StartStep::Probe { delay_ms: 500 },
        StartEvent::Polled { outcome: PollOutcome::Failed { reason: "ECHILD".to_string() } },
    );
    assert_eq!(
        transition,
        quiet(StartStep::Finish {
            result: Err(SupervisorError::ProbeFailure { reason: "ECHILD".to_string() })
        })
    );
}

#[test]
fn unreachable_registry_abandons_the_process() {
    let transition = advance(
        StartStep::Register,
        StartEvent::RegistryUnavailable { reason: "poisoned lock".to_string() },
    );
    assert_eq!(
        transition,
        quiet(StartStep::Abandon {
            error: SupervisorError::LockContentionFailure { reason: "poisoned lock".to_string() }
        })
    );
}

#[test]
fn abandoning_ends_with_the_error_and_reports_a_failed_kill() {
    let error = SupervisorError::StreamCaptureFailure { stream: StreamKind::Stdout };
    let clean = advance(
        StartStep::Abandon { error: error.clone() },
        StartEvent::Abandoned { failure: None },
    );
    assert_eq!(clean, quiet(StartStep::Finish { result: Err(error.clone()) }));

    let failed = advance(
        StartStep::Abandon { error: error.clone() },
        StartEvent::Abandoned { failure: Some("EPERM".to_string()) },
    );
    assert_eq!(
        failed,
        StartTransition {
            next: StartStep::Finish { result: Err(error) },
            report: Some(SoftError::TerminationFailure { reason: "EPERM".to_string() }),
        }
    );
}

#[test]
fn notifying_ends_in_success_even_when_the_sink_fails() {
    let clean = advance(StartStep::Notify, StartEvent::Notified { failure: None });
    assert_eq!(clean, quiet(StartStep::Finish { result: Ok(()) }));

    let failed =
        advance(StartStep::Notify, StartEvent::Notified { failure: Some("no tray".to_string()) });
    assert_eq!(
        failed,
        StartTransition {
            next: StartStep::Finish { result: Ok(()) },
            report: Some(SoftError::SinkFailure { reason: "no tray".to_string() }),
        }
    );
}

#[test]
fn a_start_ignores_an_event_that_answers_another_step() {
    let unanswered: Vec<(fn() -> StartStep, Vec<usize>)> = vec![
        (|| StartStep::Spawn, vec![2, 3, 4, 5]),
        (|| StartStep::Probe { delay_ms: 500 }, vec![0, 1, 3, 4, 5]),
        (|| StartStep::Register, vec![0, 1, 2, 4, 5]),
        (
            || StartStep::Abandon { error: SupervisorError::AlreadyRunning { name: "n".to_string() } },
            vec![0, 1, 2, 3, 5],
        ),
        (|| StartStep::Notify, vec![0, 1, 2, 3, 4]),
        (|| StartStep::Finish { result: Ok(()) }, vec![0, 1, 2, 3, 4, 5]),
        (
            || StartStep::Finish { result: Err(SupervisorError::EarlyExit { status: "1".to_string() }) },
            vec![0, 1, 2, 3, 4, 5],
        ),
    ];
    for (make, indices) in unanswered {
        for index in indices {
            let event = all_events().remove(index);
            assert_eq!(advance(make(), event), quiet(make()));
        }
    }
}

#[test]
fn every_start_ends_within_five_answered_steps() {
    // The longest way: spawn, probe, register (answered by the supervisor), notify.
    let step = advance(
        StartStep::Spawn,
        StartEvent::Spawned { stdout_captured: true, stderr_captured: true },
    )
    .next;
    let step = advance(step, StartEvent::Polled { outcome: PollOutcome::Running }).next;
    assert_eq!(step, StartStep::Register);
    let step = advance(StartStep::Notify, StartEvent::Notified { failure: None }).next;
    assert_eq!(step, StartStep::Finish { result: Ok(()) });
}
