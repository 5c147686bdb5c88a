//! The running copy-trade workers, at most one for each Telegram user.
//!
//! To spawn a worker for a user, the steps of [`WorkerRegistry::spawn_step`]
//! are performed until the last one starts the new worker, which is then
//! registered. The registry is locked for as long as that takes, so that one
//! spawning comes after the other.

use std::collections::HashMap;
use vstd::multiset::Multiset;
use vstd::prelude::*;

verus! {

broadcast use vstd::std_specs::hash::group_hash_axioms;

/// The handle of the running worker of each user that has one.
pub struct WorkerRegistry<H> {
    workers: HashMap<i64, H>,
}

impl<H> View for WorkerRegistry<H> {
    type V = Map<i64, H>;

    closed spec fn view(&self) -> Map<i64, H> {
        self.workers@
    }
}

/// What to do next to spawn a worker for a user.
#[derive(Clone, Copy, Debug, PartialEq, Eq)]
pub enum SpawnStep<H> {
    /// Stop this worker, which is the user's previous one, and ask again.
    Abort(H),
    /// Start the new worker and register it.
    Start,
}

/// The handle registered for a user, where there is one.
pub open spec fn registered<H>(workers: Map<i64, H>, telegram_id: i64) -> Option<H> {
    if workers.dom().contains(telegram_id) {
        Some(workers[telegram_id])
    } else {
        None
    }
}

/// The next step to spawn a worker: a user's new worker is started only where
/// no worker of the user is left.
pub open spec fn next_spawn_step<H>(workers: Map<i64, H>, telegram_id: i64) -> SpawnStep<H> {
    match registered(workers, telegram_id) {
        Some(previous) => SpawnStep::Abort(previous),
        None => SpawnStep::Start,
    }
}

impl<H> WorkerRegistry<H> {
    /// A registry without workers.
    pub fn new() -> (registry: WorkerRegistry<H>)
        ensures
            registry@ == Map::<i64, H>::empty(),
    {
        WorkerRegistry { workers: HashMap::new() }
    }

    /// The next step to spawn a worker for a user. A worker that is to be
    /// stopped is taken out of the registry.
    pub fn spawn_step(&mut self, telegram_id: i64) -> (step: SpawnStep<H>)
        ensures
            step == next_spawn_step(old(self)@, telegram_id),
            match step {
                SpawnStep::Abort(previous) => old(self)@.dom().contains(telegram_id) && previous
                    == old(self)@[telegram_id],
                SpawnStep::Start => !old(self)@.dom().contains(telegram_id),
            },
            final(self)@ == old(self)@.remove(telegram_id),
    {
        match self.workers.remove(&telegram_id) {
            Some(previous) => SpawnStep::Abort(previous),
            None => SpawnStep::Start,
        }
    }

    /// Registers the new worker of a user, and hands out the one that was
    /// registered in its place, if there still was one.
    pub fn register(&mut self, telegram_id: i64, handle: H) -> (displaced: Option<H>)
        ensures
            displaced == registered(old(self)@, telegram_id),
            match displaced {
                Some(previous) => old(self)@.dom().contains(telegram_id) && previous
                    == old(self)@[telegram_id],
                None => !old(self)@.dom().contains(telegram_id),
            },
            final(self)@ == old(self)@.insert(telegram_id, handle),
    {
        self.workers.insert(telegram_id, handle)
    }
}

/// Spawning stops the worker that is registered for the user, that one and no
/// other, and starts a new one only where none is registered.
pub proof fn law_spawn_step<H>(workers: Map<i64, H>, telegram_id: i64, handle: H)
    ensures
        next_spawn_step(workers, telegram_id) == SpawnStep::Abort(handle) <==> {
            &&& workers.dom().contains(telegram_id)
            &&& workers[telegram_id] == handle
        },
        next_spawn_step(workers, telegram_id) == SpawnStep::<H>::Start
            <==> !workers.dom().contains(telegram_id),
        registered(workers, telegram_id) == Some(handle) <==> {
            &&& workers.dom().contains(telegram_id)
            &&& workers[telegram_id] == handle
        },
{
}

/// Something that happens to a worker of a user.
pub enum WorkerEvent<H> {
    /// It is stopped.
    Aborted(i64, H),
    /// It is started.
    Started(i64, H),
}

/// The registry after a worker was spawned for a user.
pub open spec fn after_spawn<H>(workers: Map<i64, H>, telegram_id: i64, handle: H) -> Map<i64, H> {
    workers.remove(telegram_id).insert(telegram_id, handle)
}

/// What happens when a worker is spawned for a user: the steps in their order.
pub open spec fn spawn_events<H>(workers: Map<i64, H>, telegram_id: i64, handle: H) -> Seq<
    WorkerEvent<H>,
> {
    match next_spawn_step(workers, telegram_id) {
        SpawnStep::Abort(previous) => seq![
            WorkerEvent::Aborted(telegram_id, previous),
            WorkerEvent::Started(telegram_id, handle),
        ],
        SpawnStep::Start => seq![WorkerEvent::Started(telegram_id, handle)],
    }
}

/// The registry after a series of spawnings, each with its user and its worker.
pub open spec fn workers_after<H>(spawned: Seq<(i64, H)>) -> Map<i64, H>
    decreases spawned.len(),
{
    if spawned.len() == 0 {
        Map::empty()
    } else {
        let (telegram_id, handle) = spawned.last();
        after_spawn(workers_after(spawned.drop_last()), telegram_id, handle)
    }
}

/// All that happens in a series of spawnings.
pub open spec fn events_of<H>(spawned: Seq<(i64, H)>) -> Seq<WorkerEvent<H>>
    decreases spawned.len(),
{
    if spawned.len() == 0 {
        Seq::empty()
    } else {
        let (telegram_id, handle) = spawned.last();
        events_of(spawned.drop_last()) + spawn_events(
            workers_after(spawned.drop_last()),
            telegram_id,
            handle,
        )
    }
}

/// The workers of a user that were started and not stopped.
pub open spec fn running<H>(events: Seq<WorkerEvent<H>>, telegram_id: i64) -> Multiset<H>
    decreases events.len(),
{
    if events.len() == 0 {
        Multiset::empty()
    } else {
        let before = running(events.drop_last(), telegram_id);
        match events.last() {
            WorkerEvent::Aborted(id, handle) if id == telegram_id => before.remove(handle),
            WorkerEvent::Started(id, handle) if id == telegram_id => before.insert(handle),
            _ => before,
        }
    }
}

/// The worker of a user in a registry, as a collection of at most one.
pub open spec fn registered_worker<H>(workers: Map<i64, H>, telegram_id: i64) -> Multiset<H> {
    match registered(workers, telegram_id) {
        Some(handle) => Multiset::singleton(handle),
        None => Multiset::empty(),
    }
}

/// Spawning replaces the user's worker: once the previous one was taken out the
/// next step is to start, registering then displaces nothing, the new worker is
/// the user's only one, and the workers of other users are not touched.
pub proof fn law_resubscribing_replaces<H>(
    workers: Map<i64, H>,
    telegram_id: i64,
    handle: H,
    other_id: i64,
)
    requires
        other_id != telegram_id,
    ensures
        next_spawn_step(workers.remove(telegram_id), telegram_id) == SpawnStep::<H>::Start,
        workers.remove(telegram_id).remove(telegram_id) == workers.remove(telegram_id),
        registered(workers.remove(telegram_id), telegram_id) is None,
        registered(after_spawn(workers, telegram_id, handle), telegram_id) == Some(handle),
        registered(after_spawn(workers, telegram_id, handle), other_id) == registered(
            workers,
            other_id,
        ),
{
}

proof fn lemma_running_step<H>(events: Seq<WorkerEvent<H>>, event: WorkerEvent<H>, telegram_id: i64)
    ensures
        running(events.push(event), telegram_id) == match event {
            WorkerEvent::Aborted(id, handle) if id == telegram_id => running(
                events,
                telegram_id,
            ).remove(handle),
            WorkerEvent::Started(id, handle) if id == telegram_id => running(
                events,
                telegram_id,
            ).insert(handle),
            _ => running(events, telegram_id),
        },
{
    assert(events.push(event).drop_last() =~= events);
}

/// No worker leaks and none is doubled: after any series of spawnings, the
/// workers of a user that were started and not stopped are exactly the one in
/// the registry, where there is one.
pub proof fn law_running_is_registered<H>(spawned: Seq<(i64, H)>, telegram_id: i64)
    ensures
        running(events_of(spawned), telegram_id) == registered_worker(
            workers_after(spawned),
            telegram_id,
        ),
    decreases spawned.len(),
{
    if spawned.len() > 0 {
        let earlier = spawned.drop_last();
        let (id, handle) = spawned.last();
        let workers = workers_after(earlier);
        let before = events_of(earlier);
        law_running_is_registered(earlier, telegram_id);
        match next_spawn_step(workers, id) {
            SpawnStep::Abort(previous) => {
                let aborted = before.push(WorkerEvent::Aborted(id, previous));
                lemma_running_step(before, WorkerEvent::Aborted(id, previous), telegram_id);
                lemma_running_step(aborted, WorkerEvent::Started(id, handle), telegram_id);
                assert(events_of(spawned) =~= aborted.push(WorkerEvent::Started(id, handle)));
                assert(Multiset::singleton(previous).remove(previous) =~= Multiset::<H>::empty());
            },
            SpawnStep::Start => {
                lemma_running_step(before, WorkerEvent::Started(id, handle), telegram_id);
                assert(events_of(spawned) =~= before.push(WorkerEvent::Started(id, handle)));
            },
        }
        assert(Multiset::<H>::empty().insert(handle) =~= Multiset::singleton(handle));
    }
}

/// At no moment of a series of spawnings does a user have two workers. One is
/// started only when none of the user's is running, so the previous one is
/// stopped before; and one is stopped only when it is the one that is running.
pub proof fn law_one_worker_at_a_time<H>(spawned: Seq<(i64, H)>, telegram_id: i64, n: int)
    requires
        0 <= n <= events_of(spawned).len(),
    ensures
        running(events_of(spawned).take(n), telegram_id).len() <= 1,
        n < events_of(spawned).len() ==> match events_of(spawned)[n] {
            WorkerEvent::Started(id, _) => id == telegram_id ==> running(
                events_of(spawned).take(n),
                telegram_id,
            ) == Multiset::<H>::empty(),
            WorkerEvent::Aborted(id, handle) => id == telegram_id ==> running(
                events_of(spawned).take(n),
                telegram_id,
            ) == Multiset::singleton(handle),
        },
    decreases spawned.len(),
{
    let events = events_of(spawned);
    if n == events.len() {
        assert(events.take(n) =~= events);
        law_running_is_registered(spawned, telegram_id);
    } else {
        let earlier = spawned.drop_last();
        let (id, handle) = spawned.last();
        let workers = workers_after(earlier);
        let before = events_of(earlier);
        if n < before.len() {
            assert(events.take(n) =~= before.take(n));
            law_one_worker_at_a_time(earlier, telegram_id, n);
        } else {
            law_running_is_registered(earlier, telegram_id);
            if n == before.len() {
                assert(events.take(n) =~= before);
            } else {
                match next_spawn_step(workers, id) {
                    SpawnStep::Abort(previous) => {
                        let aborted = WorkerEvent::Aborted(id, previous);
                        lemma_running_step(before, aborted, telegram_id);
                        assert(events.take(n) =~= before.push(aborted));
                        assert(Multiset::singleton(previous).remove(previous) =~= Multiset::<
                            H,
                        >::empty());
                    },
                    SpawnStep::Start => {},
                }
            }
        }
    }
}

/// After any series of spawnings, the registry has the users that a worker was
/// spawned for and no others, each with the last worker spawned for the user:
/// once there, a user never disappears.
pub proof fn law_registry_holds_last<H>(spawned: Seq<(i64, H)>, telegram_id: i64)
    ensures
        match registered(workers_after(spawned), telegram_id) {
            Some(handle) => exists|i: int|
                {
                    &&& 0 <= i < spawned.len()
                    &&& #[trigger] spawned[i] == (telegram_id, handle)
                    &&& forall|j: int| i < j < spawned.len() ==> (#[trigger] spawned[j]).0
                        != telegram_id
                },
            None => forall|i: int| 0 <= i < spawned.len() ==> (#[trigger] spawned[i]).0
                != telegram_id,
        },
    decreases spawned.len(),
{
    if spawned.len() > 0 {
        let earlier = spawned.drop_last();
        law_registry_holds_last(earlier, telegram_id);
        if spawned.last().0 == telegram_id {
            assert(spawned[spawned.len() - 1] == (telegram_id, spawned.last().1));
        } else {
            match registered(workers_after(earlier), telegram_id) {
                Some(handle) => {
                    let i = choose|i: int|
                        {
                            &&& 0 <= i < earlier.len()
                            &&& #[trigger] earlier[i] == (telegram_id, handle)
                            &&& forall|j: int| i < j < earlier.len() ==> (#[trigger] earlier[j]).0
                                != telegram_id
                        };
                    assert(spawned[i] == (telegram_id, handle));
                    assert forall|j: int| i < j < spawned.len() implies (#[trigger] spawned[j]).0
                        != telegram_id by {
                        if j < earlier.len() {
                            assert(earlier[j] == spawned[j]);
                        }
                    }
                },
                None => {
                    assert forall|i: int| 0 <= i < spawned.len() implies (#[trigger] spawned[i]).0
                        != telegram_id by {
                        if i < earlier.len() {
                            assert(earlier[i] == spawned[i]);
                        }
                    }
                },
            }
        }
    }
}

} // verus!
