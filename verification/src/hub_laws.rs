//! What holds of the statistics server over whole runs, proved from the
//! state functions that its operations are specified by.

use crate::error::BlogError;
use crate::ring::{lemma_pushed_keeps_newest, newest};
use crate::stats::{ticked, Broadcast, HubState, MemoryMeasurement, Reading, HISTORY_CAPACITY};
use vstd::prelude::*;

verus! {

/// The state after every reading of `readings` has been recorded, in order.
pub open spec fn recorded_all<H>(state: HubState<H>, readings: Seq<Reading>) -> HubState<H>
    decreases readings.len(),
{
    if readings.len() == 0 {
        state
    } else {
        recorded_all(state, readings.drop_last()).recorded(readings.last())
    }
}

/// Recording keeps the histories within their capacity and leaves the
/// sessions alone.
pub proof fn lemma_recorded_stays_bounded<H>(state: HubState<H>, reading: Reading)
    requires
        state.bounded(),
    ensures
        state.recorded(reading).bounded(),
        state.recorded(reading).sessions == state.sessions,
        state.recorded(reading).counter == state.counter,
{
}

/// After any number of recorded readings the histories hold the newest
/// `HISTORY_CAPACITY` samples of what they held before followed by what was
/// read, oldest first, and the memory last reported is the host's total.
pub proof fn lemma_history_holds_newest_readings<H>(state: HubState<H>, readings: Seq<Reading>)
    requires
        state.bounded(),
    ensures
        recorded_all(state, readings).memory_used == newest(
            state.memory_used + readings.map_values(|r: Reading| r.spec_memory_used()),
            HISTORY_CAPACITY as nat,
        ),
        recorded_all(state, readings).load_average == newest(
            state.load_average + readings.map_values(|r: Reading| r.load_average),
            HISTORY_CAPACITY as nat,
        ),
        recorded_all(state, readings).sessions == state.sessions,
        recorded_all(state, readings).counter == state.counter,
        recorded_all(state, readings).max_memory == if readings.len() == 0 {
            state.max_memory
        } else {
            MemoryMeasurement(readings.last().memory_total)
        },
    decreases readings.len(),
{
    let used = |r: Reading| r.spec_memory_used();
    let load = |r: Reading| r.load_average;
    let limit = HISTORY_CAPACITY as nat;
    if readings.len() == 0 {
        assert(state.memory_used + readings.map_values(used) =~= state.memory_used);
        assert(state.load_average + readings.map_values(load) =~= state.load_average);
    } else {
        let front = readings.drop_last();
        let last = readings.last();
        lemma_history_holds_newest_readings(state, front);
        let seen_memory = state.memory_used + front.map_values(used);
        let seen_load = state.load_average + front.map_values(load);
        assert(seen_memory.push(used(last)) =~= state.memory_used + readings.map_values(used));
        assert(seen_load.push(load(last)) =~= state.load_average + readings.map_values(load));
        lemma_pushed_keeps_newest(seen_memory, limit, used(last));
        lemma_pushed_keeps_newest(seen_load, limit, load(last));
    }
}

/// A server that starts empty and records no more readings than its
/// histories can hold remembers every one of them, in the order read.
pub proof fn lemma_fresh_history_is_what_was_read<H>(readings: Seq<Reading>)
    requires
        readings.len() <= HISTORY_CAPACITY,
    ensures
        recorded_all(HubState::<H>::initial(), readings).memory_used == readings.map_values(
            |r: Reading| r.spec_memory_used(),
        ),
        recorded_all(HubState::<H>::initial(), readings).load_average == readings.map_values(
            |r: Reading| r.load_average,
        ),
{
    let state = HubState::<H>::initial();
    lemma_history_holds_newest_readings(state, readings);
    assert(state.memory_used + readings.map_values(|r: Reading| r.spec_memory_used())
        =~= readings.map_values(|r: Reading| r.spec_memory_used()));
    assert(state.load_average + readings.map_values(|r: Reading| r.load_average)
        =~= readings.map_values(|r: Reading| r.load_average));
}

/// A tick on which the host could not be sampled changes nothing: the
/// history, the sessions and the next identifier are what they were, and the
/// failure is what the tick hands back.
pub proof fn lemma_failed_tick_changes_nothing<H>(
    before: HubState<H>,
    error: BlogError,
    after: HubState<H>,
    out: Result<Broadcast, BlogError>,
)
    requires
        ticked(before, Err(error), after, out),
    ensures
        after == before,
        out == Err::<Broadcast, BlogError>(error),
{
}

/// Two registrations in a row are given different identifiers, and both
/// sessions are known afterwards, each with its own handle.
pub proof fn lemma_registrations_are_distinct<H>(state: HubState<H>, first: H, second: H)
    ensures
        ({
            let one = state.registered(first);
            let two = one.registered(second);
            &&& state.counter != one.counter
            &&& two.sessions.contains_key(state.counter)
            &&& two.sessions.contains_key(one.counter)
            &&& two.sessions[state.counter] == first
            &&& two.sessions[one.counter] == second
        }),
{
}

/// The identifier that the registration after `ahead` others is given, when
/// the next one to be given is `counter`.
pub open spec fn id_after(counter: usize, ahead: nat) -> usize
    decreases ahead,
{
    if ahead == 0 {
        counter
    } else {
        HubState::<()>::following(id_after(counter, (ahead - 1) as nat))
    }
}

/// The state after every handle of `handles` has been registered, in order.
pub open spec fn registered_all<H>(state: HubState<H>, handles: Seq<H>) -> HubState<H>
    decreases handles.len(),
{
    if handles.len() == 0 {
        state
    } else {
        registered_all(state, handles.drop_last()).registered(handles.last())
    }
}

/// Identifiers count upwards and start again at zero after the largest.
pub proof fn lemma_id_after_counts_up(counter: usize, ahead: nat)
    ensures
        id_after(counter, ahead) == (counter as int + ahead) % (usize::MAX + 1),
    decreases ahead,
{
    let m = usize::MAX + 1;
    if ahead == 0 {
        let c = counter as int;
        assert(c % m == c) by (nonlinear_arith)
            requires
                0 <= c < m,
        ;
    } else {
        let before = (ahead - 1) as nat;
        lemma_id_after_counts_up(counter, before);
        let sum = counter + before;
        let q = sum / m;
        let r = sum % m;
        assert(sum == q * m + r && 0 <= r < m) by (nonlinear_arith)
            requires
                q == sum / m,
                r == sum % m,
                m > 0,
        ;
        if r == m - 1 {
            assert((sum + 1) % m == 0) by (nonlinear_arith)
                requires
                    sum + 1 == (q + 1) * m,
                    m > 0,
            ;
        } else {
            assert((sum + 1) % m == r + 1) by (nonlinear_arith)
                requires
                    sum + 1 == q * m + (r + 1),
                    0 <= r + 1 < m,
            ;
        }
    }
}

/// As long as fewer registrations follow one another than there are
/// identifiers, no two of them are given the same identifier.
pub proof fn lemma_ids_are_not_reused(counter: usize, first: nat, second: nat)
    requires
        first < second <= usize::MAX,
    ensures
        id_after(counter, first) != id_after(counter, second),
{
    let m = usize::MAX + 1;
    lemma_id_after_counts_up(counter, first);
    lemma_id_after_counts_up(counter, second);
    let a = counter + first;
    let b = counter + second;
    assert(a % m != b % m) by (nonlinear_arith)
        requires
            0 < b - a < m,
            0 <= a,
    {
        assert(a == (a / m) * m + a % m);
        assert(b == (b / m) * m + b % m);
        if a % m == b % m {
            assert(b - a == (b / m - a / m) * m);
            assert(b / m - a / m >= 1 ==> (b / m - a / m) * m >= m);
            assert(b / m - a / m <= 0 ==> (b / m - a / m) * m <= 0);
        }
    }
}

/// After a run of registrations, fewer than there are identifiers, every
/// one of the sessions is known under the identifier it was given, with its
/// own handle, and the next identifier is the one after the last given.
pub proof fn lemma_every_registration_is_kept<H>(state: HubState<H>, handles: Seq<H>, i: int)
    requires
        handles.len() <= usize::MAX,
        0 <= i < handles.len(),
    ensures
        registered_all(state, handles).counter == id_after(state.counter, handles.len()),
        registered_all(state, handles).sessions.contains_key(id_after(state.counter, i as nat)),
        registered_all(state, handles).sessions[id_after(state.counter, i as nat)] == handles[i],
    decreases handles.len(),
{
    let front = handles.drop_last();
    lemma_registered_all_counter(state, front);
    lemma_registered_all_counter(state, handles);
    if i < front.len() {
        lemma_every_registration_is_kept(state, front, i);
        lemma_ids_are_not_reused(state.counter, i as nat, front.len());
    }
}

/// A run of registrations moves the next identifier on by its length.
pub proof fn lemma_registered_all_counter<H>(state: HubState<H>, handles: Seq<H>)
    ensures
        registered_all(state, handles).counter == id_after(state.counter, handles.len()),
    decreases handles.len(),
{
    if handles.len() > 0 {
        lemma_registered_all_counter(state, handles.drop_last());
    }
}

/// Unregistering a session a second time changes nothing.
pub proof fn lemma_unregister_is_idempotent<H>(state: HubState<H>, id: usize)
    ensures
        state.unregistered(id).unregistered(id) == state.unregistered(id),
{
    assert(state.sessions.remove(id).remove(id) =~= state.sessions.remove(id));
}

/// Unregistering an identifier that no session has changes nothing.
pub proof fn lemma_unregister_unknown_is_noop<H>(state: HubState<H>, id: usize)
    requires
        !state.sessions.contains_key(id),
    ensures
        state.unregistered(id) == state,
{
    assert(state.sessions.remove(id) =~= state.sessions);
}

/// Unregistering one session leaves every other session registered with its
/// handle, and the next successful tick still reaches it.
pub proof fn lemma_unregister_spares_the_others<H>(
    state: HubState<H>,
    id: usize,
    other: usize,
    reading: Reading,
    after: HubState<H>,
    out: Result<Broadcast, BlogError>,
)
    requires
        other != id,
        state.sessions.contains_key(other),
        ticked(state.unregistered(id), Ok(reading), after, out),
    ensures
        state.unregistered(id).sessions.contains_key(other),
        state.unregistered(id).sessions[other] == state.sessions[other],
        out matches Ok(broadcast) && broadcast.recipients@.contains(other),
        after.sessions.contains_key(other),
{
    let broadcast = out->Ok_0;
    assert(broadcast.recipients@.to_set().contains(other));
}

/// A successful tick reaches exactly the sessions registered when it runs,
/// each of them once: a session registered before it is among the
/// recipients at one position only, and one that is not registered is not
/// among them.
pub proof fn lemma_tick_reaches_each_session_once<H>(
    before: HubState<H>,
    reading: Reading,
    after: HubState<H>,
    out: Result<Broadcast, BlogError>,
    id: usize,
)
    requires
        ticked(before, Ok(reading), after, out),
    ensures
        out matches Ok(broadcast) && (broadcast.recipients@.contains(id)
            <==> before.sessions.contains_key(id)) && (forall|i: int, j: int|
            0 <= i < broadcast.recipients@.len() && 0 <= j < broadcast.recipients@.len()
                && broadcast.recipients@[i] == id && broadcast.recipients@[j] == id ==> i == j),
{
    let broadcast = out->Ok_0;
    assert(broadcast.recipients@.to_set().contains(id) <==> broadcast.recipients@.contains(id));
}

/// A session that registers before a tick is among that tick's recipients.
pub proof fn lemma_registered_before_tick_is_reached<H>(
    state: HubState<H>,
    handle: H,
    reading: Reading,
    after: HubState<H>,
    out: Result<Broadcast, BlogError>,
)
    requires
        ticked(state.registered(handle), Ok(reading), after, out),
    ensures
        out matches Ok(broadcast) && broadcast.recipients@.contains(state.counter),
{
    let broadcast = out->Ok_0;
    assert(state.registered(handle).sessions.contains_key(state.counter));
    assert(broadcast.recipients@.to_set().contains(state.counter));
}

/// A session that registers after a tick, under an identifier that was free
/// when the tick ran, is not among that tick's recipients; it is registered
/// all the same, and the history it finds is the one the tick left.
pub proof fn lemma_registered_after_tick_is_missed<H>(
    state: HubState<H>,
    handle: H,
    reading: Reading,
    after: HubState<H>,
    out: Result<Broadcast, BlogError>,
)
    requires
        ticked(state, Ok(reading), after, out),
        !state.sessions.contains_key(state.counter),
    ensures
        after.counter == state.counter,
        out matches Ok(broadcast) && !broadcast.recipients@.contains(after.counter),
        after.registered(handle).sessions.contains_key(after.counter),
        after.registered(handle).memory_used == state.recorded(reading).memory_used,
        after.registered(handle).load_average == state.recorded(reading).load_average,
{
    let broadcast = out->Ok_0;
    assert(broadcast.recipients@.to_set().contains(state.counter)
        <==> broadcast.recipients@.contains(state.counter));
}

} // verus!
