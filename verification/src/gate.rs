//! The readiness gate: a single-use signal from the event bridge to the
//! start operation, raced against a deadline.

use vstd::prelude::*;

verus! {

/// How long `start` waits for the worker's first line of standard output.
pub const READINESS_TIMEOUT_SECS: u64 = 15;

/// The state of the readiness gate as its producer leaves it.
#[derive(Clone, Copy, PartialEq, Eq, Debug, Structural)]
pub enum GateState {
    /// Nothing was sent yet.
    Pending,
    /// The signal was sent; the consumer may proceed.
    Signaled,
    /// The producer went away without sending.
    Abandoned,
}

/// What the consumer of the readiness gate comes back with.
#[derive(Clone, Copy, PartialEq, Eq, Debug, Structural)]
pub enum ReadinessOutcome {
    /// The signal arrived.
    Signaled,
    /// The sending half was dropped unfired.
    Closed,
    /// The deadline passed while the readiness gate was still pending.
    TimedOut,
}

impl GateState {
    /// The readiness gate after an attempt to signal: only a pending gate
    /// changes.
    pub open spec fn after_signal(self) -> GateState {
        if self is Pending {
            GateState::Signaled
        } else {
            self
        }
    }

    /// The readiness gate after its producer went away: only a pending gate
    /// changes.
    pub open spec fn after_abandon(self) -> GateState {
        if self is Pending {
            GateState::Abandoned
        } else {
            self
        }
    }

    /// What a consumer that has waited `waited_secs` seconds observes, if
    /// its wait is over.
    pub open spec fn observed(self, waited_secs: nat) -> Option<ReadinessOutcome> {
        match self {
            GateState::Signaled => Some(ReadinessOutcome::Signaled),
            GateState::Abandoned => Some(ReadinessOutcome::Closed),
            GateState::Pending => if waited_secs >= READINESS_TIMEOUT_SECS {
                Some(ReadinessOutcome::TimedOut)
            } else {
                None
            },
        }
    }

    /// The producer sends the signal.
    pub fn signal(self) -> (next: GateState)
        ensures
            next == self.after_signal(),
    {
        match self {
            GateState::Pending => GateState::Signaled,
            other => other,
        }
    }

    /// The producer goes away.
    pub fn abandon(self) -> (next: GateState)
        ensures
            next == self.after_abandon(),
    {
        match self {
            GateState::Pending => GateState::Abandoned,
            other => other,
        }
    }

    /// The consumer's side of the readiness gate: a signal or a dropped
    /// sender ends the wait at once, a pending gate ends it when the timeout
    /// has passed and not before.
    pub fn observe(self, waited_secs: u64) -> (outcome: Option<ReadinessOutcome>)
        ensures
            outcome == self.observed(waited_secs as nat),
    {
        match self {
            GateState::Signaled => Some(ReadinessOutcome::Signaled),
            GateState::Abandoned => Some(ReadinessOutcome::Closed),
            GateState::Pending => if waited_secs >= READINESS_TIMEOUT_SECS {
                Some(ReadinessOutcome::TimedOut)
            } else {
                None
            },
        }
    }
}

/// The timeout fires for a pending gate when the wait has lasted as long as
/// the readiness timeout, and not before; a pending gate ends the wait in
/// no other way.
pub proof fn law_timeout_not_before_deadline(waited_secs: nat)
    ensures
        GateState::Pending.observed(waited_secs) == Some(ReadinessOutcome::TimedOut)
            <==> waited_secs >= 15,
        waited_secs < 15 ==> GateState::Pending.observed(waited_secs) is None,
{
}

/// The readiness gate is signaled at most once: a second signal changes
/// nothing, and a gate that was signaled is not abandoned by the end of its
/// producer.
pub proof fn law_gate_settles(gate: GateState)
    ensures
        gate.after_signal().after_signal() == gate.after_signal(),
        gate.after_signal().after_abandon() == gate.after_signal(),
        gate.after_abandon().after_signal() == gate.after_abandon(),
        !(gate.after_signal() is Pending),
        !(gate.after_abandon() is Pending),
{
}

} // verus!
