//! What holds of a session over whole runs of events, proved from the state
//! functions that its operations are specified by.

use crate::session::{Action, Event, Phase, SessionState, CLIENT_TIMEOUT};
use vstd::prelude::*;

verus! {

/// The state of a session after `events`, in order.
pub open spec fn run(state: SessionState, events: Seq<Event>) -> SessionState
    decreases events.len(),
{
    if events.len() == 0 {
        state
    } else {
        run(state, events.drop_last()).after(events.last())
    }
}

/// How often a session that goes through `events` asks to be ended.
pub open spec fn terminations(state: SessionState, events: Seq<Event>) -> nat
    decreases events.len(),
{
    if events.len() == 0 {
        0
    } else {
        let before = run(state, events.drop_last());
        let now: nat = if before.action(events.last()) is Terminate {
            1
        } else {
            0
        };
        terminations(state, events.drop_last()) + now
    }
}

/// A session that is over stays over and does nothing, whatever happens.
pub proof fn lemma_terminated_is_final(state: SessionState, event: Event)
    requires
        state.phase == Phase::Terminated,
    ensures
        state.after(event) == state,
        state.action(event) == Action::Idle,
{
}

/// A session asks to be ended exactly on the step that takes it to its end.
pub proof fn lemma_terminates_on_entry(state: SessionState, event: Event)
    ensures
        state.action(event) is Terminate <==> state.phase != Phase::Terminated && state.after(
            event,
        ).phase == Phase::Terminated,
{
}

/// A registered session that ends withdraws its own identifier, whatever
/// ended it.
pub proof fn lemma_active_session_withdraws_its_id(state: SessionState, event: Event)
    requires
        state.phase == Phase::Active,
        state.after(event).phase == Phase::Terminated,
    ensures
        state.action(event) == Action::Terminate(Some(state.id)),
{
}

/// A registered session whose peer has been silent for longer than
/// `CLIENT_TIMEOUT` when the heartbeat fires is ended and withdraws its
/// identifier, although the connection reported nothing.
pub proof fn lemma_silent_session_is_ended(state: SessionState, now: u64)
    requires
        state.phase == Phase::Active,
        now - state.heartbeat > CLIENT_TIMEOUT,
    ensures
        state.after(Event::Heartbeat(now)).phase == Phase::Terminated,
        state.action(Event::Heartbeat(now)) == Action::Terminate(Some(state.id)),
{
}

/// Over any run a session asks to be ended once if the run takes it to its
/// end, and never otherwise.
pub proof fn lemma_terminates_exactly_once(state: SessionState, events: Seq<Event>)
    ensures
        terminations(state, events) == if state.phase != Phase::Terminated && run(
            state,
            events,
        ).phase == Phase::Terminated {
            1nat
        } else {
            0nat
        },
        state.phase == Phase::Terminated ==> run(state, events) == state,
    decreases events.len(),
{
    if events.len() > 0 {
        let front = events.drop_last();
        lemma_terminates_exactly_once(state, front);
        lemma_terminates_on_entry(run(state, front), events.last());
        if run(state, front).phase == Phase::Terminated {
            lemma_terminated_is_final(run(state, front), events.last());
        }
    }
}

/// The identifiers that a session going through `events` asks to have
/// withdrawn from the server, in order.
pub open spec fn withdrawals(state: SessionState, events: Seq<Event>) -> Seq<usize>
    decreases events.len(),
{
    if events.len() == 0 {
        Seq::empty()
    } else {
        let earlier = withdrawals(state, events.drop_last());
        match run(state, events.drop_last()).action(events.last()) {
            Action::Terminate(Some(id)) => earlier.push(id),
            _ => earlier,
        }
    }
}

/// Whether nothing in `events` shows that the peer is alive or gone: the
/// heartbeat fires and the server pushes, and that is all.
pub open spec fn quiet(events: Seq<Event>) -> bool {
    forall|i: int|
        0 <= i < events.len() ==> (#[trigger] events[i]) is Heartbeat || events[i] is Push
}

/// Whatever happens to a session, it asks for at most one withdrawal.
pub proof fn lemma_withdraws_at_most_once(state: SessionState, events: Seq<Event>)
    ensures
        withdrawals(state, events).len() <= terminations(state, events) <= 1,
    decreases events.len(),
{
    lemma_terminates_exactly_once(state, events);
    if events.len() > 0 {
        lemma_withdraws_at_most_once(state, events.drop_last());
    }
}

/// A registered session keeps its identifier, and withdraws exactly that
/// identifier, once, if the run takes it to its end, and nothing otherwise.
pub proof fn lemma_registered_session_withdraws_its_id_once(
    state: SessionState,
    events: Seq<Event>,
)
    requires
        state.phase == Phase::Active,
    ensures
        run(state, events).id == state.id,
        run(state, events).phase == Phase::Active || run(state, events).phase
            == Phase::Terminated,
        withdrawals(state, events) == if run(state, events).phase == Phase::Terminated {
            seq![state.id]
        } else {
            Seq::empty()
        },
    decreases events.len(),
{
    if events.len() > 0 {
        let front = events.drop_last();
        lemma_registered_session_withdraws_its_id_once(state, front);
        let before = run(state, front);
        if before.phase == Phase::Terminated {
            lemma_terminated_is_final(before, events.last());
        } else {
            lemma_terminates_on_entry(before, events.last());
            if before.after(events.last()).phase == Phase::Terminated {
                lemma_active_session_withdraws_its_id(before, events.last());
                assert(Seq::<usize>::empty().push(state.id) =~= seq![state.id]);
            }
        }
    }
}

/// While nothing is heard from the peer, a registered session stays as it
/// is until it is ended.
pub proof fn lemma_quiet_run_changes_nothing_or_ends(state: SessionState, events: Seq<Event>)
    requires
        state.phase == Phase::Active,
        quiet(events),
    ensures
        run(state, events) == state || run(state, events) == state.ended(),
    decreases events.len(),
{
    if events.len() > 0 {
        let front = events.drop_last();
        assert forall|i: int| 0 <= i < front.len() implies (#[trigger] front[i]) is Heartbeat
            || front[i] is Push by {
            assert(front[i] == events[i]);
        }
        lemma_quiet_run_changes_nothing_or_ends(state, front);
        assert(events.last() == events[events.len() - 1]);
    }
}

/// A registered session from whose peer nothing is heard is ended by the
/// first heartbeat that finds the silence longer than `CLIENT_TIMEOUT`, and
/// withdraws its identifier exactly once, however the run goes on.
pub proof fn lemma_silence_ends_the_session(
    state: SessionState,
    events: Seq<Event>,
    k: int,
    now: u64,
)
    requires
        state.phase == Phase::Active,
        quiet(events),
        0 <= k < events.len(),
        events[k] == Event::Heartbeat(now),
        now - state.heartbeat > CLIENT_TIMEOUT,
    ensures
        run(state, events).phase == Phase::Terminated,
        withdrawals(state, events) == seq![state.id],
    decreases events.len(),
{
    let front = events.drop_last();
    assert forall|i: int| 0 <= i < front.len() implies (#[trigger] front[i]) is Heartbeat
        || front[i] is Push by {
        assert(front[i] == events[i]);
    }
    if k < front.len() {
        assert(front[k] == events[k]);
        lemma_silence_ends_the_session(state, front, k, now);
        lemma_terminated_is_final(run(state, front), events.last());
    } else {
        lemma_quiet_run_changes_nothing_or_ends(state, front);
        assert(events.last() == events[k]);
    }
    lemma_registered_session_withdraws_its_id_once(state, events);
}

} // verus!
