//! The event bridge: it republishes each worker event and fires the
//! readiness signal on the first line of standard output.

use vstd::prelude::*;
use crate::events::{publication_of, publish, Publication, SidecarEvent};
use crate::gate::GateState;

verus! {

/// The slot that holds the sending half of the readiness signal. The sender
/// leaves the slot at most once, so a second signal cannot be sent.
#[derive(Debug, PartialEq, Eq)]
pub enum SenderSlot<S> {
    /// The sender is still here: nothing was sent.
    Held(S),
    /// The sender was handed out to be fired.
    Fired,
    /// The sender was handed out to be dropped unfired.
    Dropped,
}

impl<S> SenderSlot<S> {
    /// The readiness gate as the consumer will find it.
    pub open spec fn gate(self) -> GateState {
        match self {
            SenderSlot::Held(_) => GateState::Pending,
            SenderSlot::Fired => GateState::Signaled,
            SenderSlot::Dropped => GateState::Abandoned,
        }
    }

    /// The sender that `event` takes out of the slot to be fired, if any.
    pub open spec fn fired_by(self, event: SidecarEvent) -> Option<S> {
        match self {
            SenderSlot::Held(sender) if event is StandardOutputLine => Some(sender),
            _ => None,
        }
    }

    /// The slot after `event` went through the bridge.
    pub open spec fn after(self, event: SidecarEvent) -> SenderSlot<S> {
        if self is Held && event is StandardOutputLine {
            SenderSlot::Fired
        } else {
            self
        }
    }

    /// The slot after all of `events` went through the bridge, in order.
    pub open spec fn after_all(self, events: Seq<SidecarEvent>) -> SenderSlot<S>
        decreases events.len(),
    {
        if events.len() == 0 {
            self
        } else {
            self.after_all(events.drop_last()).after(events.last())
        }
    }

    /// The sender that the end of the event stream takes out of the slot to
    /// be dropped, if any.
    pub open spec fn dropped_by_close(self) -> Option<S> {
        match self {
            SenderSlot::Held(sender) => Some(sender),
            _ => None,
        }
    }

    /// The slot after the event stream has ended.
    pub open spec fn after_close(self) -> SenderSlot<S> {
        if self is Held {
            SenderSlot::Dropped
        } else {
            self
        }
    }
}

/// Whether no event of `events` is a line of standard output.
pub open spec fn silent(events: Seq<SidecarEvent>) -> bool {
    forall|j: int| 0 <= j < events.len() ==> !(#[trigger] events[j] is StandardOutputLine)
}

/// The bridge between one worker's event stream and the outbound bus. It
/// owns the sending half `S` of the readiness signal until the first line of
/// standard output comes by.
#[derive(Debug)]
pub struct EventBridge<S> {
    pub slot: SenderSlot<S>,
}

/// What the bridge asks for after one event.
#[derive(Debug, PartialEq, Eq)]
pub struct BridgeStep<S> {
    /// The readiness sender, to be fired now. Sending to a receiver that is
    /// gone is a no-op, not an error.
    pub fire: Option<S>,
    /// The event to put on the outbound bus.
    pub publish: Publication,
}

impl<S> EventBridge<S> {
    /// A bridge for a fresh worker: it holds `sender`, and the readiness
    /// gate is pending.
    pub fn new(sender: S) -> (bridge: Self)
        ensures
            bridge.slot == SenderSlot::Held(sender),
    {
        EventBridge { slot: SenderSlot::Held(sender) }
    }

    /// The state of the readiness gate on the producer's side.
    pub fn gate(&self) -> (gate: GateState)
        ensures
            gate == self.slot.gate(),
    {
        match &self.slot {
            SenderSlot::Held(_) => GateState::Pending,
            SenderSlot::Fired => GateState::Signaled,
            SenderSlot::Dropped => GateState::Abandoned,
        }
    }

    /// Handles one event of the worker. Every event is republished; a line
    /// of standard output also takes the readiness sender out of the slot,
    /// if it is still there.
    pub fn on_event(&mut self, event: SidecarEvent) -> (step: BridgeStep<S>)
        ensures
            final(self).slot == old(self).slot.after(event),
            step.fire == old(self).slot.fired_by(event),
            step.publish@ == publication_of(event),
    {
        let fire = match &event {
            SidecarEvent::StandardOutputLine(_) => self.take_sender(SenderSlot::Fired),
            _ => None,
        };
        BridgeStep { fire, publish: publish(event) }
    }

    /// Ends the bridge when the worker's event stream has closed. A sender
    /// that was never fired is handed out to be dropped, which the consumer
    /// observes as a closed channel.
    pub fn close(&mut self) -> (unfired: Option<S>)
        ensures
            final(self).slot == old(self).slot.after_close(),
            unfired == old(self).slot.dropped_by_close(),
    {
        self.take_sender(SenderSlot::Dropped)
    }

    /// Takes the sender out of the slot, if it is there, and leaves `then`
    /// in its place.
    fn take_sender(&mut self, then: SenderSlot<S>) -> (sender: Option<S>)
        requires
            !(then is Held),
        ensures
            sender == old(self).slot.dropped_by_close(),
            final(self).slot == (if old(self).slot is Held {
                then
            } else {
                old(self).slot
            }),
    {
        let mut slot = then;
        if let SenderSlot::Held(_) = &self.slot {
            std::mem::swap(&mut self.slot, &mut slot);
        }
        match slot {
            SenderSlot::Held(sender) => Some(sender),
            _ => None,
        }
    }
}

/// A slot that holds its sender keeps it through events without standard
/// output and gives it up to the first event with it.
pub proof fn lemma_slot_after_all<S>(sender: S, events: Seq<SidecarEvent>)
    ensures
        SenderSlot::Held(sender).after_all(events) == (if silent(events) {
            SenderSlot::Held(sender)
        } else {
            SenderSlot::Fired
        }),
    decreases events.len(),
{
    if events.len() > 0 {
        let front = events.drop_last();
        lemma_slot_after_all(sender, front);
        if silent(front) {
            if events.last() is StandardOutputLine {
                assert(events[events.len() - 1] is StandardOutputLine);
            } else {
                assert forall|j: int| 0 <= j < events.len() implies !(#[trigger] events[j]
                    is StandardOutputLine) by {
                    if j < front.len() {
                        assert(front[j] == events[j]);
                    }
                }
            }
        } else {
            let j = choose|j: int| 0 <= j < front.len() && #[trigger] front[j] is StandardOutputLine;
            assert(events[j] == front[j]);
        }
    }
}

/// When any sequence of events goes through a bridge
/// that starts out holding the sender, the sender is fired by the first
/// line of standard output and by no other event.
pub proof fn law_signal_fires_on_first_output_only<S>(
    sender: S,
    events: Seq<SidecarEvent>,
    k: int,
)
    requires
        0 <= k < events.len(),
    ensures
        SenderSlot::Held(sender).after_all(events.take(k)).fired_by(events[k]) == (if events[k]
            is StandardOutputLine && silent(events.take(k)) {
            Some(sender)
        } else {
            None
        }),
{
    lemma_slot_after_all(sender, events.take(k));
}

/// Two different events of one run never both fire the sender.
pub proof fn law_signal_fires_at_most_once<S>(
    sender: S,
    events: Seq<SidecarEvent>,
    k1: int,
    k2: int,
)
    requires
        0 <= k1 < k2 < events.len(),
    ensures
        !(SenderSlot::Held(sender).after_all(events.take(k1)).fired_by(events[k1]) is Some
            && SenderSlot::Held(sender).after_all(events.take(k2)).fired_by(events[k2]) is Some),
{
    law_signal_fires_on_first_output_only(sender, events, k1);
    law_signal_fires_on_first_output_only(sender, events, k2);
    if events[k1] is StandardOutputLine {
        assert(events.take(k2)[k1] == events[k1]);
    }
}

/// The slot moves as the readiness gate does: a line of standard output is
/// an attempt to signal, the end of the stream is the producer going away,
/// and no other event touches the readiness gate.
pub proof fn law_slot_follows_gate<S>(slot: SenderSlot<S>, event: SidecarEvent)
    ensures
        slot.after(event).gate() == (if event is StandardOutputLine {
            slot.gate().after_signal()
        } else {
            slot.gate()
        }),
        slot.after_close().gate() == slot.gate().after_abandon(),
        slot.fired_by(event) is Some <==> slot.gate() is Pending && event is StandardOutputLine,
        slot.dropped_by_close() is Some <==> slot.gate() is Pending,
{
}

/// A stream that ends before any standard output leaves the readiness gate
/// abandoned; one with standard output leaves it signaled.
pub proof fn law_gate_after_stream<S>(sender: S, events: Seq<SidecarEvent>)
    ensures
        SenderSlot::Held(sender).after_all(events).after_close().gate() == (if silent(events) {
            GateState::Abandoned
        } else {
            GateState::Signaled
        }),
{
    lemma_slot_after_all(sender, events);
}

} // verus!
