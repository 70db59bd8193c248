use sidecar_supervisor::{
    initialize_sidecar, kill_finished, shutdown_sidecar, DataDirOutcome, HandshakeFailure,
    InitPayload, ReadinessOutcome, SidecarError, SidecarState, StartAction, StartEvent, StartPhase,
    StopAction, APP_DATA_DIR_FIELD, HANDSHAKE_URL, READINESS_TIMEOUT_SECS,
};

fn step(
    state: &mut SidecarState<u32>,
    phase: StartPhase,
    event: StartEvent<u32>,
) -> (StartPhase, StartAction<u32>) {
    initialize_sidecar(state, phase, event)
}

/// Runs a start up to the point where the worker is ready and the data
/// directory is asked for.
fn start_until_ready(state: &mut SidecarState<u32>, handle: u32) -> StartPhase {
    let (phase, action) = step(state, StartPhase::Idle, StartEvent::Begin);
    assert_eq!(action, StartAction::Spawn);
    let (phase, action) = step(state, phase, StartEvent::Spawned(Ok(handle)));
    assert_eq!(action, StartAction::AwaitReadiness { timeout_secs: 15 });
    let (phase, action) = step(state, phase, StartEvent::Readiness(ReadinessOutcome::Signaled));
    assert_eq!(action, StartAction::ResolveDataDir);
    phase
}

#[test]
fn fixed_interface_values() {
    assert_eq!(HANDSHAKE_URL, "http://127.0.0.1:4130/api/init");
    assert_eq!(APP_DATA_DIR_FIELD, "appDataDir");
    assert_eq!(READINESS_TIMEOUT_SECS, 15);
}

#[test]
fn state_store_take_and_replace() {
    let mut state: SidecarState<u32> = SidecarState::new();
    assert!(!state.is_running());
    assert_eq!(state.take(), None);
    assert_eq!(state.replace(4), None);
    assert!(state.is_running());
    assert_eq!(state.replace(5), Some(4));
    assert_eq!(state.take(), Some(5));
    assert!(!state.is_running());
    let fresh: SidecarState<u32> = SidecarState::default();
    assert_eq!(fresh.child_process, None);
}

#[test]
fn start_succeeds_after_ready_and_accepted_handshake() {
    let mut state = SidecarState::new();
    let phase = start_until_ready(&mut state, 7);
    assert_eq!(phase, StartPhase::ResolvingDataDir);
    let (phase, action) = step(
        &mut state,
        phase,
        StartEvent::DataDir(DataDirOutcome::Resolved("/data/app".to_string())),
    );
    assert_eq!(phase, StartPhase::Handshaking);
    assert_eq!(
        action,
        StartAction::SendHandshake(InitPayload { app_data_dir: "/data/app".to_string() })
    );
    let (phase, action) = step(
        &mut state,
        phase,
        StartEvent::HandshakeAnswered { status: 200, status_line: "200 OK".to_string() },
    );
    assert_eq!(phase, StartPhase::Finished);
    assert_eq!(action, StartAction::Return(Ok(())));
    assert_eq!(state.child_process, Some(7));
}

#[test]
fn start_with_worker_running_does_not_spawn() {
    let mut state = SidecarState::new();
    let _ = start_until_ready(&mut state, 7);
    let (phase, action) = step(&mut state, StartPhase::Idle, StartEvent::Begin);
    assert_eq!(phase, StartPhase::Finished);
    assert_eq!(action, StartAction::Return(Ok(())));
    assert_eq!(state.child_process, Some(7));
}

#[test]
fn spawn_failure_leaves_store_empty() {
    let mut state = SidecarState::new();
    let (phase, _) = step(&mut state, StartPhase::Idle, StartEvent::Begin);
    assert_eq!(phase, StartPhase::Spawning);
    let (phase, action) = step(&mut state, phase, StartEvent::Spawned(Err("no such file".to_string())));
    assert_eq!(phase, StartPhase::Finished);
    assert_eq!(
        action,
        StartAction::Return(Err(SidecarError::SpawnFailed("no such file".to_string())))
    );
    assert_eq!(state.child_process, None);
}

#[test]
fn timeout_is_reported_and_handle_stays() {
    let mut state = SidecarState::new();
    let (phase, _) = step(&mut state, StartPhase::Idle, StartEvent::Begin);
    let (phase, action) = step(&mut state, phase, StartEvent::Spawned(Ok(3)));
    assert_eq!(action, StartAction::AwaitReadiness { timeout_secs: READINESS_TIMEOUT_SECS });
    let (phase, action) = step(&mut state, phase, StartEvent::Readiness(ReadinessOutcome::TimedOut));
    assert_eq!(phase, StartPhase::Finished);
    assert_eq!(action, StartAction::Return(Err(SidecarError::ReadinessTimeout)));
    assert_eq!(state.child_process, Some(3));
}

#[test]
fn closed_channel_is_reported_and_handle_stays() {
    let mut state = SidecarState::new();
    let (phase, _) = step(&mut state, StartPhase::Idle, StartEvent::Begin);
    let (phase, _) = step(&mut state, phase, StartEvent::Spawned(Ok(3)));
    let (phase, action) = step(&mut state, phase, StartEvent::Readiness(ReadinessOutcome::Closed));
    assert_eq!(phase, StartPhase::Finished);
    assert_eq!(action, StartAction::Return(Err(SidecarError::ReadinessChannelClosed)));
    assert_eq!(state.child_process, Some(3));
}

#[test]
fn data_dir_failures_end_the_start() {
    let mut state = SidecarState::new();
    let phase = start_until_ready(&mut state, 1);
    let (_, action) = step(
        &mut state,
        phase.clone(),
        StartEvent::DataDir(DataDirOutcome::Unavailable("unknown path".to_string())),
    );
    assert_eq!(
        action,
        StartAction::Return(Err(SidecarError::DataDirUnavailable("unknown path".to_string())))
    );
    let (next, action) = step(&mut state, phase, StartEvent::DataDir(DataDirOutcome::NotUtf8));
    assert_eq!(next, StartPhase::Finished);
    assert_eq!(action, StartAction::Return(Err(SidecarError::DataDirNotUtf8)));
    assert_eq!(state.child_process, Some(1));
}

#[test]
fn refused_handshake_reads_body_and_leaves_worker_running() {
    let mut state = SidecarState::new();
    let phase = start_until_ready(&mut state, 9);
    let (phase, _) = step(
        &mut state,
        phase,
        StartEvent::DataDir(DataDirOutcome::Resolved("/data/app".to_string())),
    );
    let (phase, action) = step(
        &mut state,
        phase,
        StartEvent::HandshakeAnswered {
            status: 500,
            status_line: "500 Internal Server Error".to_string(),
        },
    );
    assert_eq!(action, StartAction::ReadFailureBody);
    assert_eq!(
        phase,
        StartPhase::ReadingFailureBody {
            status: 500,
            status_line: "500 Internal Server Error".to_string()
        }
    );
    let (phase, action) = step(&mut state, phase, StartEvent::FailureBody(Some("boom".to_string())));
    assert_eq!(phase, StartPhase::Finished);
    let expected = SidecarError::HandshakeFailed(HandshakeFailure::Status {
        status: 500,
        status_line: "500 Internal Server Error".to_string(),
        body: Some("boom".to_string()),
    });
    assert_eq!(action, StartAction::Return(Err(expected)));
    assert_eq!(state.child_process, Some(9));
}

#[test]
fn handshake_status_classes() {
    for (status, accepted) in [(199u16, false), (200, true), (204, true), (299, true), (300, false), (404, false)] {
        let mut state = SidecarState::new();
        let phase = start_until_ready(&mut state, 9);
        let (phase, _) = step(
            &mut state,
            phase,
            StartEvent::DataDir(DataDirOutcome::Resolved("/d".to_string())),
        );
        let (_, action) = step(
            &mut state,
            phase,
            StartEvent::HandshakeAnswered { status, status_line: format!("{}", status) },
        );
        if accepted {
            assert_eq!(action, StartAction::Return(Ok(())));
        } else {
            assert_eq!(action, StartAction::ReadFailureBody);
        }
    }
}

#[test]
fn unanswered_handshake_is_a_transport_failure() {
    let mut state = SidecarState::new();
    let phase = start_until_ready(&mut state, 9);
    let (phase, _) = step(
        &mut state,
        phase,
        StartEvent::DataDir(DataDirOutcome::Resolved("/d".to_string())),
    );
    let (phase, action) = step(
        &mut state,
        phase,
        StartEvent::HandshakeUnanswered("connection refused".to_string()),
    );
    assert_eq!(phase, StartPhase::Finished);
    assert_eq!(
        action,
        StartAction::Return(Err(SidecarError::HandshakeFailed(HandshakeFailure::Transport(
            "connection refused".to_string()
        ))))
    );
}

#[test]
fn handshake_is_not_asked_for_before_readiness() {
    let mut state = SidecarState::new();
    let (phase, _) = step(&mut state, StartPhase::Idle, StartEvent::Begin);
    let (phase, _) = step(&mut state, phase, StartEvent::Spawned(Ok(2)));
    let early = StartEvent::DataDir(DataDirOutcome::Resolved("/data/app".to_string()));
    let (phase, action) = step(&mut state, phase, early);
    assert_eq!(phase, StartPhase::AwaitingReady);
    assert_eq!(
        action,
        StartAction::Rejected(StartEvent::DataDir(DataDirOutcome::Resolved(
            "/data/app".to_string()
        )))
    );
}

#[test]
fn out_of_turn_events_are_handed_back() {
    let mut state = SidecarState::new();
    let (phase, action) = step(&mut state, StartPhase::Idle, StartEvent::Spawned(Ok(5)));
    assert_eq!(phase, StartPhase::Idle);
    assert_eq!(action, StartAction::Rejected(StartEvent::Spawned(Ok(5))));
    assert_eq!(state.child_process, None);

    let (phase, action) = step(&mut state, StartPhase::Finished, StartEvent::Begin);
    assert_eq!(phase, StartPhase::Finished);
    assert_eq!(action, StartAction::Rejected(StartEvent::Begin));

    let mut busy = SidecarState::new();
    let _ = busy.replace(1);
    let (phase, action) = step(&mut busy, StartPhase::Spawning, StartEvent::Spawned(Ok(2)));
    assert_eq!(phase, StartPhase::Spawning);
    assert_eq!(action, StartAction::Rejected(StartEvent::Spawned(Ok(2))));
    assert_eq!(busy.child_process, Some(1));
}

#[test]
fn stop_without_worker_is_a_no_op() {
    let mut state: SidecarState<u32> = SidecarState::new();
    assert_eq!(shutdown_sidecar(&mut state), StopAction::Return(Ok(())));
    assert_eq!(state.child_process, None);
}

#[test]
fn stop_twice_kills_once() {
    let mut state = SidecarState::new();
    let _ = start_until_ready(&mut state, 11);
    assert_eq!(shutdown_sidecar(&mut state), StopAction::Kill(11));
    assert_eq!(state.child_process, None);
    assert_eq!(kill_finished(Ok(())), Ok(()));
    assert_eq!(shutdown_sidecar(&mut state), StopAction::Return(Ok(())));
    assert_eq!(state.child_process, None);
}

#[test]
fn start_after_stop_spawns_again() {
    let mut state = SidecarState::new();
    let _ = start_until_ready(&mut state, 11);
    let _ = shutdown_sidecar(&mut state);
    let (phase, action) = step(&mut state, StartPhase::Idle, StartEvent::Begin);
    assert_eq!(phase, StartPhase::Spawning);
    assert_eq!(action, StartAction::Spawn);
}

#[test]
fn failed_kill_is_reported_and_store_is_empty() {
    let mut state = SidecarState::new();
    let _ = state.replace(8u32);
    assert_eq!(shutdown_sidecar(&mut state), StopAction::Kill(8));
    assert_eq!(
        kill_finished(Err("no such process".to_string())),
        Err(SidecarError::KillFailed("no such process".to_string()))
    );
    assert_eq!(state.child_process, None);
}

#[test]
fn error_messages() {
    assert_eq!(
        SidecarError::SpawnFailed("x".to_string()).message(),
        "Failed to spawn sidecar: x"
    );
    assert_eq!(
        SidecarError::ReadinessTimeout.message(),
        "Timed out waiting for sidecar to start. It may have failed or is not producing any output."
    );
    assert_eq!(
        SidecarError::ReadinessChannelClosed.message(),
        "Failed to receive ready signal from sidecar: channel closed."
    );
    assert_eq!(
        SidecarError::DataDirUnavailable("y".to_string()).message(),
        "Failed to get app data directory: y"
    );
    assert_eq!(SidecarError::DataDirNotUtf8.message(), "Path contains invalid UTF-8");
    assert_eq!(
        SidecarError::HandshakeFailed(HandshakeFailure::Status {
            status: 404,
            status_line: "404 Not Found".to_string(),
            body: Some("missing".to_string()),
        })
        .message(),
        "Failed to send appDataDir, status: 404 Not Found, body: missing"
    );
    assert_eq!(
        SidecarError::HandshakeFailed(HandshakeFailure::Status {
            status: 502,
            status_line: "502 Bad Gateway".to_string(),
            body: None,
        })
        .message(),
        "Failed to send appDataDir, status: 502 Bad Gateway, body: N/A"
    );
    assert_eq!(
        SidecarError::HandshakeFailed(HandshakeFailure::Transport("refused".to_string())).message(),
        "Error sending appDataDir to sidecar: refused"
    );
    assert_eq!(
        SidecarError::KillFailed("z".to_string()).message(),
        "Failed to kill sidecar process: z"
    );
}
