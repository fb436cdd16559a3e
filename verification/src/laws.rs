//! System-wide laws of the state machine, stated over a ghost model of a
//! call's whole event history and proved by induction: which states are
//! reachable for which direction, that the terminal state absorbs every
//! event, that the reconnection payload faithfully records whether the
//! call was ever connected, and that duplicate connectivity callbacks are
//! absorbed without re-emitting directives.

use vstd::prelude::*;

use crate::machine::accepts;
use crate::machine::emitted;
use crate::machine::next_ever_connected;
use crate::machine::next_state;
use crate::machine::record_wf;
use crate::types::CallDirection;
use crate::types::CallState;
use crate::types::Directive;
use crate::types::DisconnectPolicy;
use crate::types::Event;
use crate::types::ReconnectingState;

verus! {

/// One step of a call's ghost history: the successor pair (state, history
/// flag) on acceptance, the same pair on rejection — a rejected event
/// leaves the record unchanged.
pub open spec fn step(
    direction: CallDirection,
    policy: DisconnectPolicy,
    state: CallState,
    ever_connected: bool,
    event: Event,
) -> (CallState, bool) {
    if accepts(state, direction, ever_connected, policy, event) {
        (next_state(state, ever_connected, event), next_ever_connected(state, ever_connected, event))
    } else {
        (state, ever_connected)
    }
}

/// The (state, history flag) pair a call reaches after delivering `events`
/// in order to a fresh record: `Idle` with a clear flag at the start, one
/// [`step`] per event.
pub open spec fn run(direction: CallDirection, policy: DisconnectPolicy, events: Seq<Event>) -> (
    CallState,
    bool,
)
    decreases events.len(),
{
    if events.len() == 0 {
        (CallState::Idle, false)
    } else {
        let prev = run(direction, policy, events.drop_last());
        step(direction, policy, prev.0, prev.1, events.last())
    }
}

/// Whether some prefix of `events` (including the whole of it) leaves the
/// call in `CallConnected`.
pub open spec fn reached_call_connected(
    direction: CallDirection,
    policy: DisconnectPolicy,
    events: Seq<Event>,
) -> bool
    decreases events.len(),
{
    if events.len() == 0 {
        false
    } else {
        reached_call_connected(direction, policy, events.drop_last()) || run(
            direction,
            policy,
            events,
        ).0 is CallConnected
    }
}

/// Every reachable (direction, state, history flag) triple is well-formed:
/// well-formedness holds initially and every step preserves it.
pub proof fn lemma_run_wf(direction: CallDirection, policy: DisconnectPolicy, events: Seq<Event>)
    ensures
        record_wf(direction, run(direction, policy, events).0, run(direction, policy, events).1),
    decreases events.len(),
{
    if events.len() > 0 {
        lemma_run_wf(direction, policy, events.drop_last());
    }
}

/// Whatever the event and the current state, an accepted transition ends
/// in `SendingOffer` only for an outgoing call.
pub proof fn lemma_sending_offer_requires_outgoing(
    state: CallState,
    direction: CallDirection,
    ever_connected: bool,
    policy: DisconnectPolicy,
    event: Event,
)
    requires
        accepts(state, direction, ever_connected, policy, event),
        next_state(state, ever_connected, event) is SendingOffer,
    ensures
        direction is Outgoing,
{
}

/// An incoming call is never in `SendingOffer`, whatever its history.
pub proof fn lemma_incoming_never_sends_offer(policy: DisconnectPolicy, events: Seq<Event>)
    ensures
        !(run(CallDirection::Incoming, policy, events).0 is SendingOffer),
{
    lemma_run_wf(CallDirection::Incoming, policy, events);
}

/// The terminal state absorbs every event: nothing is accepted from
/// `Terminating`, so a step from it changes nothing.
pub proof fn lemma_terminating_is_terminal(
    direction: CallDirection,
    ever_connected: bool,
    policy: DisconnectPolicy,
    event: Event,
)
    ensures
        !accepts(CallState::Terminating, direction, ever_connected, policy, event),
        step(direction, policy, CallState::Terminating, ever_connected, event) == (
            CallState::Terminating,
            ever_connected,
        ),
{
}

/// Once a history reaches `Terminating`, every extension of it stays
/// there: the terminal state absorbs the rest of the event sequence.
pub proof fn lemma_terminating_absorbs_history(
    direction: CallDirection,
    policy: DisconnectPolicy,
    events: Seq<Event>,
    more: Seq<Event>,
)
    requires
        run(direction, policy, events).0 is Terminating,
    ensures
        run(direction, policy, events + more).0 is Terminating,
        run(direction, policy, events + more).1 == run(direction, policy, events).1,
    decreases more.len(),
{
    if more.len() == 0 {
        assert(events + more =~= events);
    } else {
        lemma_terminating_absorbs_history(direction, policy, events, more.drop_last());
        assert((events + more).drop_last() =~= events + more.drop_last());
        assert((events + more).last() == more.last());
    }
}

/// The history flag is exact: after any event sequence it is set if and
/// only if some prefix of the sequence left the call in `CallConnected`.
pub proof fn lemma_flag_records_history(
    direction: CallDirection,
    policy: DisconnectPolicy,
    events: Seq<Event>,
)
    ensures
        run(direction, policy, events).1 == reached_call_connected(direction, policy, events),
    decreases events.len(),
{
    if events.len() > 0 {
        lemma_flag_records_history(direction, policy, events.drop_last());
        lemma_run_wf(direction, policy, events.drop_last());
    }
}

/// The reconnection payload is faithful to the call's history:
/// `IceReconnecting(AfterConnected)` is producible only by a history that
/// passed through `CallConnected`, and `IceReconnecting(BeforeConnected)`
/// only by one that never did.
pub proof fn lemma_reconnecting_payload_matches_history(
    direction: CallDirection,
    policy: DisconnectPolicy,
    events: Seq<Event>,
)
    ensures
        run(direction, policy, events).0 == CallState::IceReconnecting(
            ReconnectingState::AfterConnected,
        ) ==> reached_call_connected(direction, policy, events),
        run(direction, policy, events).0 == CallState::IceReconnecting(
            ReconnectingState::BeforeConnected,
        ) ==> !reached_call_connected(direction, policy, events),
{
    lemma_run_wf(direction, policy, events);
    lemma_flag_records_history(direction, policy, events);
}

/// A connectivity callback delivered again while already `IceConnected`
/// is absorbed: it is accepted, the state does not change, and no
/// directive is re-emitted — so a second delivery in succession changes
/// nothing either.
pub proof fn lemma_ice_connected_event_idempotent(
    direction: CallDirection,
    ever_connected: bool,
    policy: DisconnectPolicy,
)
    ensures
        accepts(CallState::IceConnected, direction, ever_connected, policy, Event::IceConnectedEvent),
        next_state(CallState::IceConnected, ever_connected, Event::IceConnectedEvent)
            == CallState::IceConnected,
        next_ever_connected(CallState::IceConnected, ever_connected, Event::IceConnectedEvent)
            == ever_connected,
        emitted(CallState::IceConnected, Event::IceConnectedEvent) == Seq::<Directive>::empty(),
{
    assert(emitted(CallState::IceConnected, Event::IceConnectedEvent) =~= Seq::<
        Directive,
    >::empty());
}

/// Absorbed duplicates are silent in general: an accepted event that
/// reproduces the current state emits no directive.
pub proof fn lemma_noop_emits_nothing(
    state: CallState,
    direction: CallDirection,
    ever_connected: bool,
    policy: DisconnectPolicy,
    event: Event,
)
    requires
        accepts(state, direction, ever_connected, policy, event),
        next_state(state, ever_connected, event) == state,
    ensures
        emitted(state, event) == Seq::<Directive>::empty(),
{
    assert(emitted(state, event) =~= Seq::<Directive>::empty());
}

} // verus!
