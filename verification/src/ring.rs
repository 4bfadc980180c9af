//! A fixed-capacity history of samples that forgets the oldest entry once it
//! is full, kept in a `circular_queue::CircularQueue`.

use circular_queue::CircularQueue;
use vstd::prelude::*;

verus! {

/// `circular_queue::CircularQueue`. What it holds is spoken of through
/// `queue_items` and `queue_limit`.
#[verifier::external_type_specification]
#[verifier::external_body]
#[verifier::reject_recursive_types(T)]
pub struct ExCircularQueue<T>(CircularQueue<T>);

/// The items a queue holds, oldest first.
pub uninterp spec fn queue_items(q: CircularQueue<u64>) -> Seq<u64>;

/// The capacity a queue was created with.
pub uninterp spec fn queue_limit(q: CircularQueue<u64>) -> nat;

/// What a queue of capacity `limit` holds after `item` is pushed onto `items`:
/// the item goes to the back, and once the queue is full the front leaves.
pub open spec fn pushed<T>(items: Seq<T>, limit: nat, item: T) -> Seq<T> {
    if limit == 0 {
        items
    } else if items.len() < limit {
        items.push(item)
    } else {
        items.drop_first().push(item)
    }
}

/// The item that leaves a queue of capacity `limit` holding `items` when one
/// more is pushed.
pub open spec fn evicted<T>(items: Seq<T>, limit: nat) -> Option<T> {
    if limit == 0 || items.len() < limit {
        None
    } else {
        Some(items[0])
    }
}

/// The newest `limit` items of `all`, or all of them when there are fewer.
pub open spec fn newest<T>(all: Seq<T>, limit: nat) -> Seq<T> {
    if all.len() <= limit {
        all
    } else {
        all.subrange(all.len() - limit, all.len() as int)
    }
}

/// What a queue of capacity `limit` holds after every item of `more` has been
/// pushed onto `items`, in order.
pub open spec fn pushed_all<T>(items: Seq<T>, limit: nat, more: Seq<T>) -> Seq<T>
    decreases more.len(),
{
    if more.len() == 0 {
        items
    } else {
        pushed(pushed_all(items, limit, more.drop_last()), limit, more.last())
    }
}

/// Pushing never lets a queue grow past its capacity.
pub proof fn lemma_pushed_stays_bounded<T>(items: Seq<T>, limit: nat, item: T)
    requires
        items.len() <= limit,
    ensures
        pushed(items, limit, item).len() <= limit,
{
}

/// One push keeps exactly the newest `limit` items of everything seen so far.
pub proof fn lemma_pushed_keeps_newest<T>(all: Seq<T>, limit: nat, item: T)
    requires
        0 < limit,
    ensures
        pushed(newest(all, limit), limit, item) == newest(all.push(item), limit),
{
    assert(pushed(newest(all, limit), limit, item) =~= newest(all.push(item), limit));
}

/// After any run of pushes a queue holds the newest `limit` items of what it
/// held before followed by what was pushed, in push order.
pub proof fn lemma_pushed_all_keeps_newest<T>(items: Seq<T>, limit: nat, more: Seq<T>)
    requires
        0 < limit,
        items.len() <= limit,
    ensures
        pushed_all(items, limit, more) == newest(items + more, limit),
    decreases more.len(),
{
    if more.len() == 0 {
        assert(items + more =~= items);
    } else {
        let front = more.drop_last();
        lemma_pushed_all_keeps_newest(items, limit, front);
        lemma_pushed_keeps_newest(items + front, limit, more.last());
        assert((items + front).push(more.last()) =~= items + more);
    }
}

/// Pushing and then mapping every item is the same as mapping and then
/// pushing.
pub proof fn lemma_pushed_commutes_with_map<A, B>(
    items: Seq<A>,
    limit: nat,
    item: A,
    f: spec_fn(A) -> B,
)
    ensures
        pushed(items, limit, item).map_values(f) == pushed(items.map_values(f), limit, f(item)),
{
    assert(pushed(items, limit, item).map_values(f) =~= pushed(
        items.map_values(f),
        limit,
        f(item),
    ));
}

/// Once at least `limit` items have been pushed onto an empty queue of that
/// capacity, it holds exactly the last `limit` of them, in push order.
pub proof fn lemma_full_queue_holds_last_pushes<T>(limit: nat, more: Seq<T>)
    requires
        0 < limit <= more.len(),
    ensures
        pushed_all(Seq::<T>::empty(), limit, more) == more.subrange(
            more.len() - limit,
            more.len() as int,
        ),
{
    lemma_pushed_all_keeps_newest(Seq::<T>::empty(), limit, more);
    assert(Seq::<T>::empty() + more =~= more);
    assert(newest(more, limit) =~= more.subrange(more.len() - limit, more.len() as int));
}

/// The largest capacity a queue can be created with: room for more items
/// cannot be asked of the allocator.
pub const MAX_CAPACITY: usize = usize::MAX / 16;

/// `CircularQueue::with_capacity`: the new queue is empty and remembers the
/// capacity it was given.
#[verifier::external_body]
fn queue_with_capacity(capacity: usize) -> (q: CircularQueue<u64>)
    requires
        capacity <= MAX_CAPACITY,
    ensures
        queue_items(q) == Seq::<u64>::empty(),
        queue_limit(q) == capacity,
{
    CircularQueue::with_capacity(capacity)
}

/// `CircularQueue::push`: below capacity the item is appended; at capacity it
/// takes the place of the oldest item, which is handed back. The capacity
/// stays as it was.
#[verifier::external_body]
fn queue_push(q: &mut CircularQueue<u64>, item: u64) -> (out: Option<u64>)
    ensures
        queue_limit(*final(q)) == queue_limit(*old(q)),
        queue_items(*final(q)) == pushed(queue_items(*old(q)), queue_limit(*old(q)), item),
        out == evicted(queue_items(*old(q)), queue_limit(*old(q))),
{
    q.push(item)
}

/// `CircularQueue::asc_iter`, collected: every item, from the oldest to the
/// newest.
#[verifier::external_body]
fn queue_to_vec(q: &CircularQueue<u64>) -> (items: Vec<u64>)
    ensures
        items@ == queue_items(*q),
{
    q.asc_iter().cloned().collect()
}

/// A bounded history of `u64` samples in insertion order.
pub struct RingBuffer {
    queue: CircularQueue<u64>,
}

impl View for RingBuffer {
    type V = Seq<u64>;

    closed spec fn view(&self) -> Seq<u64> {
        queue_items(self.queue)
    }
}

impl RingBuffer {
    /// The largest number of samples the buffer keeps.
    pub closed spec fn limit(&self) -> nat {
        queue_limit(self.queue)
    }

    /// The buffer's invariant: a positive capacity that is never exceeded.
    pub open spec fn wf(&self) -> bool {
        &&& 0 < self.limit()
        &&& self@.len() <= self.limit()
    }

    /// An empty buffer that keeps at most `capacity` samples.
    pub fn with_capacity(capacity: usize) -> (buffer: RingBuffer)
        requires
            0 < capacity <= MAX_CAPACITY,
        ensures
            buffer.wf(),
            buffer@ == Seq::<u64>::empty(),
            buffer.limit() == capacity,
    {
        RingBuffer { queue: queue_with_capacity(capacity) }
    }

    /// Appends `item`, and returns the oldest sample if it had to leave to
    /// make room.
    pub fn push(&mut self, item: u64) -> (out: Option<u64>)
        requires
            old(self).wf(),
        ensures
            final(self).wf(),
            final(self).limit() == old(self).limit(),
            final(self)@ == pushed(old(self)@, old(self).limit(), item),
            out == evicted(old(self)@, old(self).limit()),
    {
        queue_push(&mut self.queue, item)
    }

    /// The samples held, oldest first.
    pub fn iterate(&self) -> (items: Vec<u64>)
        ensures
            items@ == self@,
    {
        queue_to_vec(&self.queue)
    }
}

} // verus!
