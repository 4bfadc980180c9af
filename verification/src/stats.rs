//! The statistics server: it samples the host's memory and load, keeps a
//! bounded history of both, and knows which sessions want each new sample.

use crate::error::BlogError;
use crate::ring::{lemma_pushed_commutes_with_map, pushed, RingBuffer};
use std::collections::HashMap;
use systemstat::{Platform, System};
use vstd::prelude::*;
use vstd::std_specs::hash::spec_keys_iter;
use vstd::std_specs::iter::IteratorSpec;

verus! {

broadcast use vstd::std_specs::hash::group_hash_axioms;

/// How many samples of each kind the server remembers.
pub const HISTORY_CAPACITY: usize = 100;

/// How long the server waits between two ticks, in milliseconds.
pub const TICK_INTERVAL: u64 = 1000;

/// An amount of memory, in bytes.
#[derive(Clone, Copy, Debug, PartialEq, Eq)]
pub struct MemoryMeasurement(pub u64);

/// A load average, held as the bit pattern of its single-precision value.
#[derive(Clone, Copy, Debug, PartialEq, Eq)]
pub struct CPUMeasurement(pub u32);

/// What the host reported when it was sampled once.
#[derive(Clone, Copy, Debug)]
pub struct Reading {
    pub memory_total: u64,
    pub memory_free: u64,
    pub load_average: CPUMeasurement,
}

/// The newest sample, as it is sent to every session.
#[derive(Clone, Copy, Debug, PartialEq, Eq)]
pub struct Update {
    pub max_memory: MemoryMeasurement,
    pub memory_used: MemoryMeasurement,
    pub load_average: CPUMeasurement,
}

/// Everything the server remembers, handed to a page when it is rendered.
#[derive(Debug)]
pub struct InitialValues {
    pub max_memory: MemoryMeasurement,
    pub memory_used: Vec<MemoryMeasurement>,
    pub load_average: Vec<CPUMeasurement>,
}

/// A message pushed to a session.
#[derive(Clone, Copy, Debug, PartialEq, Eq)]
pub enum PushMessage {
    Update(Update),
}

/// The outcome of a successful tick: the message and the sessions it is for.
#[derive(Debug)]
pub struct Broadcast {
    pub message: PushMessage,
    pub recipients: Vec<usize>,
}

impl Reading {
    /// The memory in use: what is not free, and nothing when more is reported
    /// free than there is.
    pub open spec fn spec_memory_used(self) -> MemoryMeasurement {
        if self.memory_total >= self.memory_free {
            MemoryMeasurement((self.memory_total - self.memory_free) as u64)
        } else {
            MemoryMeasurement(0)
        }
    }

    /// The update that announces this reading.
    pub open spec fn spec_update(self) -> Update {
        Update {
            max_memory: MemoryMeasurement(self.memory_total),
            memory_used: self.spec_memory_used(),
            load_average: self.load_average,
        }
    }

    /// The memory in use.
    pub fn memory_used(&self) -> (used: MemoryMeasurement)
        ensures
            used == self.spec_memory_used(),
    {
        if self.memory_total >= self.memory_free {
            MemoryMeasurement(self.memory_total - self.memory_free)
        } else {
            MemoryMeasurement(0)
        }
    }

    /// The update that announces this reading.
    pub fn update(&self) -> (update: Update)
        ensures
            update == self.spec_update(),
    {
        Update {
            max_memory: MemoryMeasurement(self.memory_total),
            memory_used: self.memory_used(),
            load_average: self.load_average,
        }
    }
}

/// The server's state as plain mathematical values.
pub struct HubState<H> {
    pub max_memory: MemoryMeasurement,
    pub memory_used: Seq<MemoryMeasurement>,
    pub load_average: Seq<CPUMeasurement>,
    pub sessions: Map<usize, H>,
    pub counter: usize,
}

impl<H> HubState<H> {
    /// The state of a server that has just been created.
    pub open spec fn initial() -> Self {
        HubState {
            max_memory: MemoryMeasurement(0),
            memory_used: Seq::empty(),
            load_average: Seq::empty(),
            sessions: Map::empty(),
            counter: 0,
        }
    }

    /// The identifier that follows `id`; after the largest comes zero again.
    pub open spec fn following(id: usize) -> usize {
        if id == usize::MAX {
            0
        } else {
            (id + 1) as usize
        }
    }

    /// The state after `handle` has been registered under the next identifier.
    pub open spec fn registered(self, handle: H) -> Self {
        HubState {
            sessions: self.sessions.insert(self.counter, handle),
            counter: Self::following(self.counter),
            ..self
        }
    }

    /// The state after the session `id` has been taken out, if it was there.
    pub open spec fn unregistered(self, id: usize) -> Self {
        HubState { sessions: self.sessions.remove(id), ..self }
    }

    /// The state after every session named in `ids` has been taken out.
    pub open spec fn without(self, ids: Set<usize>) -> Self {
        HubState { sessions: self.sessions.remove_keys(ids), ..self }
    }

    /// The state after `reading` has been added to the history.
    pub open spec fn recorded(self, reading: Reading) -> Self {
        HubState {
            max_memory: MemoryMeasurement(reading.memory_total),
            memory_used: pushed(
                self.memory_used,
                HISTORY_CAPACITY as nat,
                reading.spec_memory_used(),
            ),
            load_average: pushed(
                self.load_average,
                HISTORY_CAPACITY as nat,
                reading.load_average,
            ),
            ..self
        }
    }

    /// The bounds that every reachable state respects.
    pub open spec fn bounded(self) -> bool {
        &&& self.memory_used.len() <= HISTORY_CAPACITY
        &&& self.load_average.len() <= HISTORY_CAPACITY
        &&& self.sessions.dom().finite()
    }
}

/// `systemstat::System`, the handle on the host. Nothing is known of what
/// is inside.
#[verifier::external_type_specification]
#[verifier::external_body]
pub struct ExSystem(System);

/// `std::io::Error`, carried from the host to where it is put into words.
#[verifier::external_type_specification]
#[verifier::external_body]
pub struct ExIoError(std::io::Error);

/// `System::new`, the handle through which the host is sampled.
#[verifier::external_body]
fn system_new() -> System {
    System::new()
}

/// `System::memory`: the total and the free memory in bytes, or the error
/// with which the host refused.
#[verifier::external_body]
fn system_memory(system: &System) -> Result<(u64, u64), std::io::Error> {
    match system.memory() {
        Ok(memory) => Ok((memory.total.as_u64(), memory.free.as_u64())),
        Err(error) => Err(error),
    }
}

/// `System::load_average`: the load average over the last minute as a bit
/// pattern, or the error with which the host refused.
#[verifier::external_body]
fn system_load_average(system: &System) -> Result<u32, std::io::Error> {
    match system.load_average() {
        Ok(load) => Ok(load.one.to_bits()),
        Err(error) => Err(error),
    }
}

/// The text of an I/O error, as `Display` prints it.
#[verifier::external_body]
fn io_error_text(error: &std::io::Error) -> String {
    format!("{}", error)
}

/// The central collector of host statistics. `H` is whatever a session hands
/// over so that updates can be pushed to it; the server only stores it.
pub struct StatisticsServer<H> {
    sessions: HashMap<usize, H>,
    system: System,
    max_memory: MemoryMeasurement,
    memory: RingBuffer,
    cpu: RingBuffer,
    counter: usize,
}

impl<H> View for StatisticsServer<H> {
    type V = HubState<H>;

    closed spec fn view(&self) -> HubState<H> {
        HubState {
            max_memory: self.max_memory,
            memory_used: self.memory@.map_values(|bytes: u64| MemoryMeasurement(bytes)),
            load_average: self.cpu@.map_values(|bits: u64| CPUMeasurement(bits as u32)),
            sessions: self.sessions@,
            counter: self.counter,
        }
    }
}

impl<H> StatisticsServer<H> {
    /// The server's invariant.
    pub closed spec fn wf(&self) -> bool {
        &&& self.memory.wf()
        &&& self.cpu.wf()
        &&& self.memory.limit() == HISTORY_CAPACITY
        &&& self.cpu.limit() == HISTORY_CAPACITY
        &&& forall|i: int| 0 <= i < self.cpu@.len() ==> #[trigger] self.cpu@[i] <= u32::MAX
    }

    /// A well-formed server's state is bounded.
    pub proof fn lemma_wf_bounded(&self)
        requires
            self.wf(),
        ensures
            self@.bounded(),
    {
    }

    /// A server with no history and no sessions.
    pub fn new() -> (server: Self)
        ensures
            server.wf(),
            server@ == HubState::<H>::initial(),
    {
        let server = StatisticsServer {
            sessions: HashMap::new(),
            system: system_new(),
            max_memory: MemoryMeasurement(0),
            memory: RingBuffer::with_capacity(HISTORY_CAPACITY),
            cpu: RingBuffer::with_capacity(HISTORY_CAPACITY),
            counter: 0,
        };
        assert(server@.memory_used =~= Seq::empty());
        assert(server@.load_average =~= Seq::empty());
        server
    }

    /// Stores `handle` under the next identifier and returns the identifier.
    /// Identifiers count upwards; after the largest comes zero again.
    pub fn register(&mut self, handle: H) -> (id: usize)
        requires
            old(self).wf(),
        ensures
            final(self).wf(),
            id == old(self)@.counter,
            final(self)@ == old(self)@.registered(handle),
    {
        let id = self.counter;
        self.counter = if id == usize::MAX {
            0
        } else {
            id + 1
        };
        self.sessions.insert(id, handle);
        id
    }

    /// Forgets the session `id`. Nothing happens when there is no such
    /// session.
    pub fn unregister(&mut self, id: usize)
        requires
            old(self).wf(),
        ensures
            final(self).wf(),
            final(self)@ == old(self)@.unregistered(id),
    {
        self.sessions.remove(&id);
    }

    /// The handle that was registered under `id`, if the session is still
    /// known.
    pub fn handle(&self, id: usize) -> (found: Option<&H>)
        ensures
            match found {
                Some(handle) => self@.sessions.contains_key(id) && *handle == self@.sessions[id],
                None => !self@.sessions.contains_key(id),
            },
    {
        self.sessions.get(&id)
    }

    /// The identifiers of all sessions known at this moment, each once, in no
    /// particular order.
    pub fn recipients(&self) -> (ids: Vec<usize>)
        ensures
            ids@.no_duplicates(),
            ids@.to_set() == self@.sessions.dom(),
    {
        let mut ids: Vec<usize> = Vec::new();
        let ghost all = spec_keys_iter(&self.sessions).remaining();
        for id in keys: self.sessions.keys()
            invariant
                keys.seq() == all,
                ids@ == all.take(keys.index()).unref(),
        {
            ids.push(*id);
        }
        assert(ids@ == all.unref());
        ids
    }

    /// A copy of the history, oldest sample first, together with the memory
    /// the host was last seen to have.
    pub fn snapshot(&self) -> (values: InitialValues)
        requires
            self.wf(),
        ensures
            values.max_memory == self@.max_memory,
            values.memory_used@ == self@.memory_used,
            values.load_average@ == self@.load_average,
            values.memory_used@.len() <= HISTORY_CAPACITY,
            values.load_average@.len() <= HISTORY_CAPACITY,
    {
        let memory = self.memory.iterate();
        let cpu = self.cpu.iterate();
        let mut memory_used: Vec<MemoryMeasurement> = Vec::new();
        let mut i: usize = 0;
        while i < memory.len()
            invariant
                i <= memory.len(),
                memory_used@ == memory@.take(i as int).map_values(
                    |bytes: u64| MemoryMeasurement(bytes),
                ),
            decreases memory.len() - i,
        {
            memory_used.push(MemoryMeasurement(memory[i]));
            i += 1;
        }
        let mut load_average: Vec<CPUMeasurement> = Vec::new();
        let mut j: usize = 0;
        while j < cpu.len()
            invariant
                j <= cpu.len(),
                cpu@ == self.cpu@,
                self.wf(),
                load_average@ == cpu@.take(j as int).map_values(
                    |bits: u64| CPUMeasurement(bits as u32),
                ),
            decreases cpu.len() - j,
        {
            load_average.push(CPUMeasurement(cpu[j] as u32));
            j += 1;
        }
        InitialValues { max_memory: self.max_memory, memory_used, load_average }
    }

    /// Takes one reading from the host: the memory first, then the load. The
    /// first refusal ends the attempt and is reported as an I/O error.
    pub fn sample(&self) -> (reading: Result<Reading, BlogError>)
        ensures
            reading matches Err(error) ==> error is IOError,
    {
        match host_answer(system_memory(&self.system)) {
            Ok((memory_total, memory_free)) => reading_of(
                memory_total,
                memory_free,
                system_load_average(&self.system),
            ),
            Err(error) => Err(error),
        }
    }

    /// Finishes a tick once the host has answered. A reading enters the
    /// history and is announced to every session known at this moment; a
    /// failure is handed back and leaves the server exactly as it was.
    pub fn record(&mut self, reading: Result<Reading, BlogError>) -> (out: Result<
        Broadcast,
        BlogError,
    >)
        requires
            old(self).wf(),
        ensures
            final(self).wf(),
            ticked(old(self)@, reading, final(self)@, out),
    {
        match reading {
            Ok(reading) => {
                let used = reading.memory_used();
                proof {
                    lemma_pushed_commutes_with_map(
                        self.cpu@,
                        HISTORY_CAPACITY as nat,
                        reading.load_average.0 as u64,
                        |bits: u64| CPUMeasurement(bits as u32),
                    );
                    lemma_pushed_commutes_with_map(
                        self.memory@,
                        HISTORY_CAPACITY as nat,
                        used.0,
                        |bytes: u64| MemoryMeasurement(bytes),
                    );
                }
                self.cpu.push(reading.load_average.0 as u64);
                self.memory.push(used.0);
                self.max_memory = MemoryMeasurement(reading.memory_total);
                let recipients = self.recipients();
                Ok(Broadcast { message: PushMessage::Update(reading.update()), recipients })
            },
            Err(error) => Err(error),
        }
    }

    /// Runs one tick: samples the host and records what it answered.
    pub fn tick(&mut self) -> (out: Result<Broadcast, BlogError>)
        requires
            old(self).wf(),
        ensures
            final(self).wf(),
            exists|reading: Result<Reading, BlogError>|
                ticked(old(self)@, reading, final(self)@, out),
            out matches Err(error) ==> error is IOError,
    {
        let reading = self.sample();
        self.record(reading)
    }

    /// Forgets every session in `failed`: those to which an update could not
    /// be delivered. Identifiers that are not known are passed over.
    pub fn forget(&mut self, failed: &Vec<usize>)
        requires
            old(self).wf(),
        ensures
            final(self).wf(),
            final(self)@ == old(self)@.without(failed@.to_set()),
    {
        let mut i: usize = 0;
        assert(self.sessions@ =~= old(self).sessions@.remove_keys(failed@.take(0).to_set()));
        while i < failed.len()
            invariant
                i <= failed.len(),
                self.wf(),
                self.max_memory == old(self).max_memory,
                self.memory == old(self).memory,
                self.cpu == old(self).cpu,
                self.counter == old(self).counter,
                self.sessions@ == old(self).sessions@.remove_keys(
                    failed@.take(i as int).to_set(),
                ),
            decreases failed.len() - i,
        {
            self.sessions.remove(&failed[i]);
            proof {
                let done = failed@.take(i as int);
                let next = failed@.take(i + 1);
                assert(next =~= done.push(failed@[i as int]));
                assert forall|id: usize| next.to_set().contains(id) <==> (done.to_set().contains(
                    id,
                ) || id == failed@[i as int]) by {
                    assert(next[i as int] == failed@[i as int]);
                    if done.contains(id) {
                        let k = choose|k: int| 0 <= k < done.len() && done[k] == id;
                        assert(next[k] == id);
                    }
                    if next.contains(id) {
                        let k = choose|k: int| 0 <= k < next.len() && next[k] == id;
                        if k < i {
                            assert(done[k] == id);
                        }
                    }
                    assert(next.to_set().contains(id) <==> next.contains(id));
                    assert(done.to_set().contains(id) <==> done.contains(id));
                }
                assert(self.sessions@ =~= old(self).sessions@.remove_keys(next.to_set()));
            }
            i += 1;
        }
        assert(failed@.take(i as int) =~= failed@);
    }
}

/// How one tick changes the server and what it hands back, given what the
/// host answered.
pub open spec fn ticked<H>(
    before: HubState<H>,
    reading: Result<Reading, BlogError>,
    after: HubState<H>,
    out: Result<Broadcast, BlogError>,
) -> bool {
    match reading {
        Ok(reading) => {
            &&& after == before.recorded(reading)
            &&& out matches Ok(broadcast)
            &&& broadcast.message == PushMessage::Update(reading.spec_update())
            &&& broadcast.recipients@.no_duplicates()
            &&& broadcast.recipients@.to_set() == before.sessions.dom()
        },
        Err(error) => {
            &&& after == before
            &&& out == Err::<Broadcast, BlogError>(error)
        },
    }
}

/// What the host answered, as the library speaks of it: the answer itself,
/// or, for a refusal, an I/O error that carries the host's own words.
pub fn host_answer<T>(answer: Result<T, std::io::Error>) -> (out: Result<T, BlogError>)
    ensures
        match answer {
            Ok(value) => out == Ok::<T, BlogError>(value),
            Err(_) => out matches Err(error) && error is IOError,
        },
{
    match answer {
        Ok(value) => Ok(value),
        Err(error) => Err(BlogError::IOError(io_error_text(&error))),
    }
}

/// What a sample comes to once the host has reported its memory and has been
/// asked for its load: a reading of exactly what it reported, or an I/O error
/// if it refused the load. A refusal is never made up for with a value.
pub fn reading_of(memory_total: u64, memory_free: u64, load: Result<u32, std::io::Error>) -> (out:
    Result<Reading, BlogError>)
    ensures
        match load {
            Ok(bits) => out == Ok::<Reading, BlogError>(
                Reading { memory_total, memory_free, load_average: CPUMeasurement(bits) },
            ),
            Err(_) => out matches Err(error) && error is IOError,
        },
{
    match host_answer(load) {
        Ok(bits) => Ok(Reading { memory_total, memory_free, load_average: CPUMeasurement(bits) }),
        Err(error) => Err(error),
    }
}

impl<H> Default for StatisticsServer<H> {
    fn default() -> (server: Self)
        ensures
            server.wf(),
            server@ == HubState::<H>::initial(),
    {
        StatisticsServer::new()
    }
}

} // verus!
