//! The supervisor: starting the worker, waiting for it, the handshake, and
//! stopping it. Each operation is a state machine that is fed the outcome of
//! the last action and answers with the next one.

use vstd::prelude::*;
use crate::error::{HandshakeFailure, SidecarError};
use crate::gate::{ReadinessOutcome, READINESS_TIMEOUT_SECS};
use crate::handshake::{is_success, status_accepts, InitPayload};
use crate::store::SidecarState;

verus! {

/// How far one start attempt has come.
#[derive(Clone, Debug, PartialEq, Eq)]
pub enum StartPhase {
    /// Nothing was done yet.
    Idle,
    /// The worker is being spawned.
    Spawning,
    /// The handle is stored and the bridge runs; the first line of standard
    /// output is awaited.
    AwaitingReady,
    /// The worker is ready; the data directory is being resolved.
    ResolvingDataDir,
    /// The handshake request is on its way.
    Handshaking,
    /// The worker refused the handshake; the body of its answer is being
    /// read.
    ReadingFailureBody { status: u16, status_line: String },
    /// The attempt is over.
    Finished,
}

/// How resolving the application's data directory ended.
#[derive(Clone, Debug, PartialEq, Eq)]
pub enum DataDirOutcome {
    Resolved(String),
    /// The host could not name the directory; the text is the host's own.
    Unavailable(String),
    /// The directory's path is not valid UTF-8.
    NotUtf8,
}

/// What the host hands back to a start attempt.
#[derive(Debug, PartialEq, Eq)]
pub enum StartEvent<H> {
    /// The caller asked for a start.
    Begin,
    /// The spawn ended, with the worker's handle or the reason of failure.
    Spawned(Result<H, String>),
    /// The wait at the readiness gate ended.
    Readiness(ReadinessOutcome),
    /// The data directory was looked up.
    DataDir(DataDirOutcome),
    /// The worker answered the handshake. `status_line` is the status as the
    /// transport prints it.
    HandshakeAnswered { status: u16, status_line: String },
    /// The handshake got no answer; the text is the transport's own.
    HandshakeUnanswered(String),
    /// The body of a refusing answer was read, or could not be.
    FailureBody(Option<String>),
}

/// What a start attempt asks of the host next.
#[derive(Debug, PartialEq, Eq)]
pub enum StartAction<H> {
    /// Spawn the worker under its fixed name and report `Spawned`.
    Spawn,
    /// Start the event bridge with a fresh readiness signal, wait for the
    /// signal for at most `timeout_secs` seconds and report `Readiness`.
    AwaitReadiness { timeout_secs: u64 },
    /// Look up the application's data directory and report `DataDir`.
    ResolveDataDir,
    /// Send the payload to the handshake endpoint and report
    /// `HandshakeAnswered` or `HandshakeUnanswered`.
    SendHandshake(InitPayload),
    /// Read the body of the refusing answer and report `FailureBody`.
    ReadFailureBody,
    /// The attempt is over: hand this result to the caller.
    Return(Result<(), SidecarError>),
    /// The event does not answer the pending action. It is handed back
    /// untouched and nothing has changed.
    Rejected(StartEvent<H>),
}

/// One step of a start attempt: the store, the phase and the action after
/// an event.
pub struct StartStep<H> {
    pub store: Option<H>,
    pub phase: StartPhase,
    pub action: StartAction<H>,
}

/// The step that a start attempt in `phase` takes on `event`, with `store`
/// as the content of the handle store.
pub open spec fn start_step<H>(store: Option<H>, phase: StartPhase, event: StartEvent<H>)
    -> StartStep<H> {
    let finished = |result: Result<(), SidecarError>|
        StartStep { store, phase: StartPhase::Finished, action: StartAction::Return(result) };
    match (phase, event) {
        (StartPhase::Idle, StartEvent::Begin) => if store is Some {
            finished(Ok(()))
        } else {
            StartStep { store, phase: StartPhase::Spawning, action: StartAction::Spawn }
        },
        (StartPhase::Spawning, StartEvent::Spawned(Ok(handle))) => if store is None {
            StartStep {
                store: Some(handle),
                phase: StartPhase::AwaitingReady,
                action: StartAction::AwaitReadiness { timeout_secs: READINESS_TIMEOUT_SECS },
            }
        } else {
            StartStep { store, phase, action: StartAction::Rejected(event) }
        },
        (StartPhase::Spawning, StartEvent::Spawned(Err(reason))) => finished(
            Err(SidecarError::SpawnFailed(reason)),
        ),
        (StartPhase::AwaitingReady, StartEvent::Readiness(ReadinessOutcome::Signaled)) => StartStep {
            store,
            phase: StartPhase::ResolvingDataDir,
            action: StartAction::ResolveDataDir,
        },
        (StartPhase::AwaitingReady, StartEvent::Readiness(ReadinessOutcome::Closed)) => finished(
            Err(SidecarError::ReadinessChannelClosed),
        ),
        (StartPhase::AwaitingReady, StartEvent::Readiness(ReadinessOutcome::TimedOut)) => finished(
            Err(SidecarError::ReadinessTimeout),
        ),
        (StartPhase::ResolvingDataDir, StartEvent::DataDir(DataDirOutcome::Resolved(dir))) => StartStep {
            store,
            phase: StartPhase::Handshaking,
            action: StartAction::SendHandshake(InitPayload { app_data_dir: dir }),
        },
        (StartPhase::ResolvingDataDir, StartEvent::DataDir(DataDirOutcome::Unavailable(reason))) =>
            finished(Err(SidecarError::DataDirUnavailable(reason))),
        (StartPhase::ResolvingDataDir, StartEvent::DataDir(DataDirOutcome::NotUtf8)) => finished(
            Err(SidecarError::DataDirNotUtf8),
        ),
        (StartPhase::Handshaking, StartEvent::HandshakeAnswered { status, status_line }) =>
            if status_accepts(status) {
                finished(Ok(()))
            } else {
                StartStep {
                    store,
                    phase: StartPhase::ReadingFailureBody { status, status_line },
                    action: StartAction::ReadFailureBody,
                }
            },
        (StartPhase::Handshaking, StartEvent::HandshakeUnanswered(reason)) => finished(
            Err(SidecarError::HandshakeFailed(HandshakeFailure::Transport(reason))),
        ),
        (StartPhase::ReadingFailureBody { status, status_line }, StartEvent::FailureBody(body)) =>
            finished(
                Err(
                    SidecarError::HandshakeFailed(
                        HandshakeFailure::Status { status, status_line, body },
                    ),
                ),
            ),
        _ => StartStep { store, phase, action: StartAction::Rejected(event) },
    }
}

/// Advances a start attempt by one event.
///
/// The attempt begins in `StartPhase::Idle` with `StartEvent::Begin`. The
/// caller performs the action that comes back and calls again with the
/// phase that came back and the event that reports the outcome, until the
/// action is `Return`. The store must not be touched by anyone else between
/// `Begin` and the report of the spawn.
pub fn initialize_sidecar<H>(
    state: &mut SidecarState<H>,
    phase: StartPhase,
    event: StartEvent<H>,
) -> (next: (StartPhase, StartAction<H>))
    ensures
        start_step(old(state).child_process, phase, event) == (StartStep {
            store: final(state).child_process,
            phase: next.0,
            action: next.1,
        }),
{
    match (phase, event) {
        (StartPhase::Idle, StartEvent::Begin) => {
            if state.is_running() {
                (StartPhase::Finished, StartAction::Return(Ok(())))
            } else {
                (StartPhase::Spawning, StartAction::Spawn)
            }
        },
        (StartPhase::Spawning, StartEvent::Spawned(Ok(handle))) => {
            if state.is_running() {
                (StartPhase::Spawning, StartAction::Rejected(StartEvent::Spawned(Ok(handle))))
            } else {
                state.child_process = Some(handle);
                (
                    StartPhase::AwaitingReady,
                    StartAction::AwaitReadiness { timeout_secs: READINESS_TIMEOUT_SECS },
                )
            }
        },
        (StartPhase::Spawning, StartEvent::Spawned(Err(reason))) => {
            (StartPhase::Finished, StartAction::Return(Err(SidecarError::SpawnFailed(reason))))
        },
        (StartPhase::AwaitingReady, StartEvent::Readiness(outcome)) => {
            match outcome {
                ReadinessOutcome::Signaled => (
                    StartPhase::ResolvingDataDir,
                    StartAction::ResolveDataDir,
                ),
                ReadinessOutcome::Closed => (
                    StartPhase::Finished,
                    StartAction::Return(Err(SidecarError::ReadinessChannelClosed)),
                ),
                ReadinessOutcome::TimedOut => (
                    StartPhase::Finished,
                    StartAction::Return(Err(SidecarError::ReadinessTimeout)),
                ),
            }
        },
        (StartPhase::ResolvingDataDir, StartEvent::DataDir(outcome)) => {
            match outcome {
                DataDirOutcome::Resolved(dir) => (
                    StartPhase::Handshaking,
                    StartAction::SendHandshake(InitPayload { app_data_dir: dir }),
                ),
                DataDirOutcome::Unavailable(reason) => (
                    StartPhase::Finished,
                    StartAction::Return(Err(SidecarError::DataDirUnavailable(reason))),
                ),
                DataDirOutcome::NotUtf8 => (
                    StartPhase::Finished,
                    StartAction::Return(Err(SidecarError::DataDirNotUtf8)),
                ),
            }
        },
        (StartPhase::Handshaking, StartEvent::HandshakeAnswered { status, status_line }) => {
            if is_success(status) {
                (StartPhase::Finished, StartAction::Return(Ok(())))
            } else {
                (
                    StartPhase::ReadingFailureBody { status, status_line },
                    StartAction::ReadFailureBody,
                )
            }
        },
        (StartPhase::Handshaking, StartEvent::HandshakeUnanswered(reason)) => {
            (
                StartPhase::Finished,
                StartAction::Return(
                    Err(SidecarError::HandshakeFailed(HandshakeFailure::Transport(reason))),
                ),
            )
        },
        (StartPhase::ReadingFailureBody { status, status_line }, StartEvent::FailureBody(body)) => {
            (
                StartPhase::Finished,
                StartAction::Return(
                    Err(
                        SidecarError::HandshakeFailed(
                            HandshakeFailure::Status { status, status_line, body },
                        ),
                    ),
                ),
            )
        },
        (phase, event) => (phase, StartAction::Rejected(event)),
    }
}

/// What a stop asks of the host.
#[derive(Debug, PartialEq, Eq)]
pub enum StopAction<H> {
    /// Send a termination request for this worker and hand the outcome to
    /// `kill_finished`.
    Kill(H),
    /// The stop is over without any request to the operating system: hand
    /// this result to the caller.
    Return(Result<(), SidecarError>),
}

/// The action of a stop that finds `store` in the handle store: a stop with
/// nothing to stop succeeds at once.
pub open spec fn stop_action<H>(store: Option<H>) -> StopAction<H> {
    match store {
        Some(handle) => StopAction::Kill(handle),
        None => StopAction::Return(Ok(())),
    }
}

/// The result of a stop whose termination request ended with `outcome`.
pub open spec fn kill_result(outcome: Result<(), String>) -> Result<(), SidecarError> {
    match outcome {
        Ok(()) => Ok(()),
        Err(reason) => Err(SidecarError::KillFailed(reason)),
    }
}

/// The handle store after a stop: it is empty whatever was in it and
/// however the termination request will end.
pub open spec fn store_after_stop<H>(store: Option<H>) -> Option<H> {
    None
}

/// Stops the worker: takes the handle out of the store, which is empty
/// afterwards whatever follows, and asks for the worker to be killed if
/// there was one.
pub fn shutdown_sidecar<H>(state: &mut SidecarState<H>) -> (action: StopAction<H>)
    ensures
        final(state).child_process == store_after_stop(old(state).child_process),
        action == stop_action(old(state).child_process),
{
    match state.take() {
        Some(handle) => StopAction::Kill(handle),
        None => StopAction::Return(Ok(())),
    }
}

/// Turns the outcome of the termination request into the result of the
/// stop. The handle is gone from the store either way.
pub fn kill_finished(outcome: Result<(), String>) -> (result: Result<(), SidecarError>)
    ensures
        result == kill_result(outcome),
{
    match outcome {
        Ok(()) => Ok(()),
        Err(reason) => Err(SidecarError::KillFailed(reason)),
    }
}

/// The store and the phase after a start attempt that began in `Idle` has
/// taken `events`, in order.
pub open spec fn start_state_after<H>(store: Option<H>, events: Seq<StartEvent<H>>) -> (
    Option<H>,
    StartPhase,
)
    decreases events.len(),
{
    if events.len() == 0 {
        (store, StartPhase::Idle)
    } else {
        let before = start_state_after(store, events.drop_last());
        let step = start_step(before.0, before.1, events.last());
        (step.store, step.phase)
    }
}

/// The action with which such an attempt answers the event at index `k`.
pub open spec fn start_action_at<H>(store: Option<H>, events: Seq<StartEvent<H>>, k: int)
    -> StartAction<H> {
    let before = start_state_after(store, events.take(k));
    start_step(before.0, before.1, events[k]).action
}

/// Whether the phase is one that only a received readiness signal leads to.
pub open spec fn past_readiness(phase: StartPhase) -> bool {
    phase is ResolvingDataDir || phase is Handshaking || phase is ReadingFailureBody
}

/// A start that finds a handle in the store succeeds at once, asks for no
/// spawn and leaves the store as it is.
pub proof fn law_start_with_worker_running<H>(handle: H)
    ensures
        start_step(Some(handle), StartPhase::Idle, StartEvent::<H>::Begin) == (StartStep {
            store: Some(handle),
            phase: StartPhase::Finished,
            action: StartAction::Return(Ok(())),
        }),
{
}

/// A spawn is asked for by nothing but the beginning of a start on an empty
/// store.
pub proof fn law_spawn_only_on_empty_store<H>(
    store: Option<H>,
    phase: StartPhase,
    event: StartEvent<H>,
)
    requires
        start_step(store, phase, event).action is Spawn,
    ensures
        store is None,
        phase is Idle,
        event is Begin,
{
}

/// A start attempt never takes a handle out of the store, nor replaces one.
pub proof fn law_start_keeps_stored_handle<H>(
    handle: H,
    phase: StartPhase,
    event: StartEvent<H>,
)
    ensures
        start_step(Some(handle), phase, event).store == Some(handle),
{
}

/// Once a start attempt has stored a handle, the store holds that handle
/// after every further event of the attempt.
pub proof fn lemma_handle_stays_stored<H>(handle: H, events: Seq<StartEvent<H>>)
    requires
        events.len() >= 2,
        events[0] == StartEvent::<H>::Begin,
        events[1] == StartEvent::<H>::Spawned(Ok(handle)),
    ensures
        start_state_after(None, events).0 == Some(handle),
    decreases events.len(),
{
    let front = events.drop_last();
    if events.len() == 2 {
        let first = front.drop_last();
        assert(first.len() == 0);
        assert(front.last() == events[0]);
        assert(start_state_after(None::<H>, first) == (None::<H>, StartPhase::Idle));
        assert(start_state_after(None::<H>, front) == (None::<H>, StartPhase::Spawning));
    } else {
        assert(front[0] == events[0] && front[1] == events[1]);
        lemma_handle_stays_stored(handle, front);
    }
}

/// Two starts in a row spawn one worker: when a first start has spawned a
/// worker and stored its handle, then however far that start has come, a
/// second start succeeds without asking for a spawn and the store still
/// holds the first worker's handle.
pub proof fn law_second_start_does_not_spawn<H>(handle: H, first_call: Seq<StartEvent<H>>)
    requires
        first_call.len() >= 2,
        first_call[0] == StartEvent::<H>::Begin,
        first_call[1] == StartEvent::<H>::Spawned(Ok(handle)),
    ensures
        start_step(start_state_after(None, first_call).0, StartPhase::Idle, StartEvent::<H>::Begin)
            == (StartStep {
            store: Some(handle),
            phase: StartPhase::Finished,
            action: StartAction::Return(Ok(())),
        }),
{
    lemma_handle_stays_stored(handle, first_call);
}

/// The readiness timeout is reported for a wait that timed out and for
/// nothing else, and the store is left as it was: the handle stays stored.
pub proof fn law_timeout_keeps_handle<H>(store: Option<H>, phase: StartPhase, event: StartEvent<H>)
    ensures
        start_step(store, phase, event).action == StartAction::<H>::Return(
            Err(SidecarError::ReadinessTimeout),
        ) <==> phase is AwaitingReady && event == StartEvent::<H>::Readiness(
            ReadinessOutcome::TimedOut,
        ),
        phase is AwaitingReady && event is Readiness ==> start_step(store, phase, event).store
            == store,
{
}

/// A start whose worker never writes to its standard output: the spawn is
/// asked for, the wait is bounded by the readiness timeout, the timeout is
/// reported, and the worker's handle is in the store at the end.
pub proof fn law_start_without_output_times_out<H>(handle: H)
    ensures
        ({
            let events = seq![
                StartEvent::<H>::Begin,
                StartEvent::Spawned(Ok(handle)),
                StartEvent::Readiness(ReadinessOutcome::TimedOut),
            ];
            &&& start_action_at(None, events, 0) == StartAction::<H>::Spawn
            &&& start_action_at(None, events, 1) == StartAction::<H>::AwaitReadiness {
                timeout_secs: 15,
            }
            &&& start_action_at(None, events, 2) == StartAction::<H>::Return(
                Err(SidecarError::ReadinessTimeout),
            )
            &&& start_state_after(None, events) == (Some(handle), StartPhase::Finished)
        }),
{
    let events = seq![
        StartEvent::<H>::Begin,
        StartEvent::Spawned(Ok(handle)),
        StartEvent::Readiness(ReadinessOutcome::TimedOut),
    ];
    let none = events.take(0);
    let one = events.take(1);
    let two = events.take(2);
    assert(none.len() == 0);
    assert(one.drop_last() == none && one.last() == events[0]);
    assert(two.drop_last() == one && two.last() == events[1]);
    assert(events.drop_last() == two && events.last() == events[2]);
    assert(start_state_after(None::<H>, none) == (None::<H>, StartPhase::Idle));
    assert(start_state_after(None::<H>, one) == (None::<H>, StartPhase::Spawning));
    assert(start_state_after(None::<H>, two) == (Some(handle), StartPhase::AwaitingReady));
}

/// A start attempt is past the readiness gate only if it was handed a
/// received readiness signal before.
pub proof fn lemma_past_readiness_was_signaled<H>(store: Option<H>, events: Seq<StartEvent<H>>)
    requires
        past_readiness(start_state_after(store, events).1),
    ensures
        exists|j: int|
            0 <= j < events.len() && #[trigger] events[j] == StartEvent::<H>::Readiness(
                ReadinessOutcome::Signaled,
            ),
    decreases events.len(),
{
    if events.len() > 0 {
        let front = events.drop_last();
        let before = start_state_after(store, front);
        if past_readiness(before.1) {
            lemma_past_readiness_was_signaled(store, front);
            let j = choose|j: int|
                0 <= j < front.len() && #[trigger] front[j] == StartEvent::<H>::Readiness(
                    ReadinessOutcome::Signaled,
                );
            assert(events[j] == front[j]);
        } else {
            assert(events[events.len() - 1] == StartEvent::<H>::Readiness(
                ReadinessOutcome::Signaled,
            ));
        }
    }
}

/// Whatever events a start attempt is fed, it asks for the handshake to be
/// sent only after it was handed a received readiness signal.
pub proof fn law_handshake_follows_readiness<H>(
    store: Option<H>,
    events: Seq<StartEvent<H>>,
    k: int,
)
    requires
        0 <= k < events.len(),
        start_action_at(store, events, k) is SendHandshake,
    ensures
        exists|j: int|
            0 <= j < k && #[trigger] events[j] == StartEvent::<H>::Readiness(
                ReadinessOutcome::Signaled,
            ),
{
    let front = events.take(k);
    lemma_past_readiness_was_signaled(store, front);
    let j = choose|j: int|
        0 <= j < front.len() && #[trigger] front[j] == StartEvent::<H>::Readiness(
            ReadinessOutcome::Signaled,
        );
    assert(events[j] == front[j]);
}

/// How far a phase is along the way of a start attempt.
pub open spec fn progress(phase: StartPhase) -> nat {
    match phase {
        StartPhase::Idle => 0,
        StartPhase::Spawning => 1,
        StartPhase::AwaitingReady => 2,
        StartPhase::ResolvingDataDir => 3,
        StartPhase::Handshaking => 4,
        StartPhase::ReadingFailureBody { .. } => 5,
        StartPhase::Finished => 6,
    }
}

/// A start attempt never goes back: a step leaves the phase where it is or
/// moves it forward, and what it asks for tells where the attempt stands.
pub proof fn law_start_only_moves_forward<H>(
    store: Option<H>,
    phase: StartPhase,
    event: StartEvent<H>,
)
    ensures
        progress(phase) <= progress(start_step(store, phase, event).phase),
        start_step(store, phase, event).action is Rejected ==> start_step(
            store,
            phase,
            event,
        ).phase == phase && start_step(store, phase, event).store == store,
        start_step(store, phase, event).action is Spawn ==> progress(phase) == 0 && progress(
            start_step(store, phase, event).phase,
        ) == 1,
        start_step(store, phase, event).action is SendHandshake ==> progress(phase) == 3
            && progress(start_step(store, phase, event).phase) == 4,
        start_step(store, phase, event).action is Return <==> !(phase is Finished) && start_step(
            store,
            phase,
            event,
        ).phase is Finished,
{
}

/// A finished attempt takes no further event: each one is handed back.
pub proof fn law_finished_start_rejects_every_event<H>(store: Option<H>, event: StartEvent<H>)
    ensures
        start_step(store, StartPhase::Finished, event) == (StartStep {
            store,
            phase: StartPhase::Finished,
            action: StartAction::Rejected(event),
        }),
{
}

/// Along the events of one attempt the progress never falls.
pub proof fn lemma_progress_is_monotone<H>(
    store: Option<H>,
    events: Seq<StartEvent<H>>,
    i: int,
    j: int,
)
    requires
        0 <= i <= j <= events.len(),
    ensures
        progress(start_state_after(store, events.take(i)).1) <= progress(
            start_state_after(store, events.take(j)).1,
        ),
    decreases j - i,
{
    if i < j {
        lemma_progress_is_monotone(store, events, i, j - 1);
        let front = events.take(j);
        assert(front.drop_last() == events.take(j - 1));
        let before = start_state_after(store, events.take(j - 1));
        law_start_only_moves_forward(before.0, before.1, front.last());
    }
}

/// The payload is sent once: whatever events a start attempt is fed, it
/// asks for the handshake at most once, and for a spawn at most once.
pub proof fn law_handshake_and_spawn_at_most_once<H>(
    store: Option<H>,
    events: Seq<StartEvent<H>>,
    k1: int,
    k2: int,
)
    requires
        0 <= k1 < k2 < events.len(),
    ensures
        !(start_action_at(store, events, k1) is SendHandshake && start_action_at(
            store,
            events,
            k2,
        ) is SendHandshake),
        !(start_action_at(store, events, k1) is Spawn && start_action_at(store, events, k2)
            is Spawn),
{
    let front = events.take(k1 + 1);
    assert(front.drop_last() == events.take(k1));
    assert(front.last() == events[k1]);
    let before = start_state_after(store, events.take(k1));
    law_start_only_moves_forward(before.0, before.1, events[k1]);
    lemma_progress_is_monotone(store, events, k1 + 1, k2);
    let later = start_state_after(store, events.take(k2));
    law_start_only_moves_forward(later.0, later.1, events[k2]);
}

/// A stop with no worker running succeeds without any request to the
/// operating system and leaves the store empty.
pub proof fn law_stop_without_worker<H>()
    ensures
        stop_action(None::<H>) == StopAction::<H>::Return(Ok(())),
        store_after_stop(None::<H>) == None::<H>,
{
}

/// Two stops in a row kill one worker: of two stops after a start that
/// stored `handle`, the first asks for exactly that worker to be killed and
/// the second, which finds the store as the first left it, succeeds without
/// any request.
pub proof fn law_second_stop_is_a_no_op<H>(handle: H, first_call: Seq<StartEvent<H>>)
    requires
        first_call.len() >= 2,
        first_call[0] == StartEvent::<H>::Begin,
        first_call[1] == StartEvent::<H>::Spawned(Ok(handle)),
    ensures
        stop_action(start_state_after(None, first_call).0) == StopAction::Kill(handle),
        stop_action(store_after_stop(start_state_after(None, first_call).0))
            == StopAction::<H>::Return(Ok(())),
{
    lemma_handle_stays_stored(handle, first_call);
}

} // verus!
