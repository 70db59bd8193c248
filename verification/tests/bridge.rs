use sidecar_supervisor::{
    initialize_sidecar, EventBridge, GateState, Payload, Publication, ReadinessOutcome,
    SenderSlot, SidecarError, SidecarEvent, SidecarState, StartAction, StartEvent, StartPhase,
    Topic,
};

fn line(text: &str) -> Payload {
    Payload::Line(text.to_string())
}

#[test]
fn topic_names() {
    assert_eq!(Topic::StandardOutput.name(), "sidecar-stdout");
    assert_eq!(Topic::StandardError.name(), "sidecar-stderr");
    assert_eq!(Topic::Terminated.name(), "sidecar-terminated");
}

#[test]
fn first_output_line_fires_and_is_published() {
    let mut bridge = EventBridge::new(42u32);
    assert_eq!(bridge.gate(), GateState::Pending);
    let step = bridge.on_event(SidecarEvent::StandardOutputLine(b"ready".to_vec()));
    assert_eq!(step.fire, Some(42));
    assert_eq!(step.publish, Publication { topic: Topic::StandardOutput, payload: line("ready") });
    assert_eq!(bridge.gate(), GateState::Signaled);
    assert_eq!(bridge.slot, SenderSlot::Fired);
}

#[test]
fn later_output_lines_do_not_fire_again() {
    for n in 1usize..6 {
        let mut bridge = EventBridge::new(1u8);
        let mut fired = 0;
        for i in 0..n {
            let step = bridge.on_event(SidecarEvent::StandardOutputLine(format!("l{}", i).into_bytes()));
            if step.fire.is_some() {
                assert_eq!(i, 0);
                fired += 1;
            }
            assert_eq!(step.publish.topic, Topic::StandardOutput);
            assert_eq!(step.publish.payload, Payload::Line(format!("l{}", i)));
        }
        assert_eq!(fired, 1);
        assert_eq!(bridge.close(), None);
        assert_eq!(bridge.gate(), GateState::Signaled);
    }
}

#[test]
fn other_events_do_not_affect_readiness() {
    let mut bridge = EventBridge::new(5u32);
    let step = bridge.on_event(SidecarEvent::ErrorOutputLine(b"warn".to_vec()));
    assert_eq!(step.fire, None);
    assert_eq!(step.publish, Publication { topic: Topic::StandardError, payload: line("warn") });
    let step = bridge.on_event(SidecarEvent::SpawnError("pipe broke".to_string()));
    assert_eq!(step.fire, None);
    assert_eq!(step.publish, Publication { topic: Topic::StandardError, payload: line("pipe broke") });
    assert_eq!(bridge.gate(), GateState::Pending);
    let step = bridge.on_event(SidecarEvent::StandardOutputLine(b"up".to_vec()));
    assert_eq!(step.fire, Some(5));
}

#[test]
fn termination_carries_code_and_signal() {
    let mut bridge = EventBridge::new(());
    let step = bridge.on_event(SidecarEvent::Terminated { code: Some(0), signal: None });
    assert_eq!(step.fire, None);
    assert_eq!(
        step.publish,
        Publication {
            topic: Topic::Terminated,
            payload: Payload::Exit { code: Some(0), signal: None },
        }
    );
    let step = bridge.on_event(SidecarEvent::Terminated { code: None, signal: Some(9) });
    assert_eq!(step.publish.payload, Payload::Exit { code: None, signal: Some(9) });
    assert_ne!(
        Payload::Exit { code: None, signal: None },
        Payload::Exit { code: Some(0), signal: Some(0) }
    );
}

#[test]
fn lines_are_decoded_best_effort_and_not_trimmed() {
    let mut bridge = EventBridge::new(());
    let step = bridge.on_event(SidecarEvent::StandardOutputLine(vec![b'a', 0xff, b'b']));
    assert_eq!(step.publish.payload, line("a\u{fffd}b"));
    let step = bridge.on_event(SidecarEvent::ErrorOutputLine("  gr\u{fc}n \n".as_bytes().to_vec()));
    assert_eq!(step.publish.payload, line("  gr\u{fc}n \n"));
    let step = bridge.on_event(SidecarEvent::StandardOutputLine(Vec::new()));
    assert_eq!(step.publish.payload, line(""));
}

#[test]
fn close_before_output_abandons_the_gate() {
    let mut bridge = EventBridge::new(77u32);
    assert_eq!(bridge.close(), Some(77));
    assert_eq!(bridge.gate(), GateState::Abandoned);
    assert_eq!(bridge.close(), None);
    let step = bridge.on_event(SidecarEvent::StandardOutputLine(b"late".to_vec()));
    assert_eq!(step.fire, None);
    assert_eq!(bridge.gate(), GateState::Abandoned);
}

#[test]
fn gate_transitions() {
    assert_eq!(GateState::Pending.signal(), GateState::Signaled);
    assert_eq!(GateState::Signaled.signal(), GateState::Signaled);
    assert_eq!(GateState::Abandoned.signal(), GateState::Abandoned);
    assert_eq!(GateState::Pending.abandon(), GateState::Abandoned);
    assert_eq!(GateState::Signaled.abandon(), GateState::Signaled);
    assert_eq!(GateState::Abandoned.abandon(), GateState::Abandoned);
}

#[test]
fn gate_times_out_at_fifteen_seconds_and_not_before() {
    assert_eq!(GateState::Pending.observe(0), None);
    assert_eq!(GateState::Pending.observe(14), None);
    assert_eq!(GateState::Pending.observe(15), Some(ReadinessOutcome::TimedOut));
    assert_eq!(GateState::Pending.observe(u64::MAX), Some(ReadinessOutcome::TimedOut));
    assert_eq!(GateState::Signaled.observe(0), Some(ReadinessOutcome::Signaled));
    assert_eq!(GateState::Signaled.observe(20), Some(ReadinessOutcome::Signaled));
    assert_eq!(GateState::Abandoned.observe(0), Some(ReadinessOutcome::Closed));
}

/// The worker writes `ready` as its first line after two seconds and the
/// endpoint answers 200.
#[test]
fn worker_becomes_ready_and_takes_its_configuration() {
    let mut state = SidecarState::new();
    let (phase, action) = initialize_sidecar(&mut state, StartPhase::Idle, StartEvent::Begin);
    assert_eq!(action, StartAction::Spawn);
    let (phase, action) = initialize_sidecar(&mut state, phase, StartEvent::Spawned(Ok(1u32)));
    assert_eq!(action, StartAction::AwaitReadiness { timeout_secs: 15 });

    let mut bridge = EventBridge::new("sender");
    let mut published = Vec::new();
    let step = bridge.on_event(SidecarEvent::StandardOutputLine(b"ready".to_vec()));
    assert_eq!(step.fire, Some("sender"));
    published.push(step.publish);
    let outcome = bridge.gate().observe(2).unwrap();
    assert_eq!(outcome, ReadinessOutcome::Signaled);

    let (phase, action) = initialize_sidecar(&mut state, phase, StartEvent::Readiness(outcome));
    assert_eq!(action, StartAction::ResolveDataDir);
    let (phase, action) = initialize_sidecar(
        &mut state,
        phase,
        StartEvent::DataDir(sidecar_supervisor::DataDirOutcome::Resolved("/data/app".to_string())),
    );
    match action {
        StartAction::SendHandshake(payload) => assert_eq!(payload.app_data_dir, "/data/app"),
        other => panic!("unexpected action {:?}", other),
    }
    let (_, action) = initialize_sidecar(
        &mut state,
        phase,
        StartEvent::HandshakeAnswered { status: 200, status_line: "200 OK".to_string() },
    );
    assert_eq!(action, StartAction::Return(Ok(())));
    assert_eq!(
        published,
        vec![Publication { topic: Topic::StandardOutput, payload: line("ready") }]
    );
}

/// The worker is killed from outside before it writes anything.
#[test]
fn worker_dies_before_any_output() {
    let mut state = SidecarState::new();
    let (phase, _) = initialize_sidecar(&mut state, StartPhase::Idle, StartEvent::Begin);
    let (phase, _) = initialize_sidecar(&mut state, phase, StartEvent::Spawned(Ok(1u32)));

    let mut bridge = EventBridge::new("sender");
    let step = bridge.on_event(SidecarEvent::Terminated { code: None, signal: Some(9) });
    assert_eq!(step.fire, None);
    assert_eq!(bridge.close(), Some("sender"));
    let outcome = bridge.gate().observe(1).unwrap();
    assert_eq!(outcome, ReadinessOutcome::Closed);

    let (phase, action) = initialize_sidecar(&mut state, phase, StartEvent::Readiness(outcome));
    assert_eq!(phase, StartPhase::Finished);
    assert_eq!(action, StartAction::Return(Err(SidecarError::ReadinessChannelClosed)));
    assert_eq!(state.child_process, Some(1));
}
