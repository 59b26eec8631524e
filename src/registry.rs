//! The registry of running tasks: at most one live run per task id, each
//! with the handle whose release cancels it.
use vstd::prelude::*;

use std::collections::HashMap;
use vstd::std_specs::iter::IteratorSpec;

verus! {

/// The registry after a registration attempt, and whether it succeeded.
pub open spec fn registered<H>(m: Map<i64, H>, id: i64, handle: H) -> (bool, Map<i64, H>) {
    if m.contains_key(id) {
        (false, m)
    } else {
        (true, m.insert(id, handle))
    }
}

/// The number of successes among registration attempts for one id, made one
/// after another with the given handles, and the registry afterwards.
pub open spec fn register_all<H>(m: Map<i64, H>, id: i64, handles: Seq<H>) -> (nat, Map<i64, H>)
    decreases handles.len(),
{
    if handles.len() == 0 {
        (0, m)
    } else {
        let (n, m1) = register_all(m, id, handles.drop_last());
        let (ok, m2) = registered(m1, id, handles.last());
        (if ok {
            n + 1
        } else {
            n
        }, m2)
    }
}

/// One change made to a registry.
pub enum RegistryEvent {
    /// A registration attempt for `id`; `won` when it registered the id.
    Added { id: i64, won: bool },
    /// A removal of `id`.
    Removed { id: i64 },
}

/// Whether `id` is registered after the events, from an empty registry.
pub open spec fn member_after(ev: Seq<RegistryEvent>, id: i64) -> bool
    decreases ev.len(),
{
    if ev.len() == 0 {
        false
    } else {
        match ev.last() {
            RegistryEvent::Added { id: x, won } => if x == id && won {
                true
            } else {
                member_after(ev.drop_last(), id)
            },
            RegistryEvent::Removed { id: x } => if x == id {
                false
            } else {
                member_after(ev.drop_last(), id)
            },
        }
    }
}

/// The number of registration attempts for `id` among the events from `from` up to `to`.
pub open spec fn attempts_between(ev: Seq<RegistryEvent>, id: i64, from: int, to: int) -> nat
    decreases to - from,
{
    if to <= from {
        0
    } else {
        attempts_between(ev, id, from, to - 1) + if ev[to - 1] matches RegistryEvent::Added {
            id: x,
            ..
        } && x == id {
            1nat
        } else {
            0nat
        }
    }
}

/// The number of successful registrations of `id` among the events from `from` up to `to`.
pub open spec fn wins_between(ev: Seq<RegistryEvent>, id: i64, from: int, to: int) -> nat
    decreases to - from,
{
    if to <= from {
        0
    } else {
        wins_between(ev, id, from, to - 1) + if ev[to - 1] matches RegistryEvent::Added {
            id: x,
            won: true,
        } && x == id {
            1nat
        } else {
            0nat
        }
    }
}

/// Whether `id` is removed among the events from `from` up to `to`.
pub open spec fn removed_between(ev: Seq<RegistryEvent>, id: i64, from: int, to: int) -> bool {
    exists|k: int| from <= k < to && (#[trigger] ev[k] matches RegistryEvent::Removed { id: x } && x == id)
}

/// Each registration attempt won exactly when its id was not registered before it.
pub open spec fn attempts_honest(ev: Seq<RegistryEvent>) -> bool {
    forall|k: int|
        0 <= k < ev.len() ==> match #[trigger] ev[k] {
            RegistryEvent::Added { id, won } => won == !member_after(ev.subrange(0, k), id),
            RegistryEvent::Removed { .. } => true,
        }
}

/// Running tasks by id, each with its cancellation handle. The registry
/// keeps, as ghost state, the history of the changes made to it.
pub struct TaskManager<H> {
    tasks: HashMap<i64, H>,
    events: Ghost<Seq<RegistryEvent>>,
}

impl<H> View for TaskManager<H> {
    type V = Map<i64, H>;

    closed spec fn view(&self) -> Map<i64, H> {
        self.tasks@
    }
}

impl<H> TaskManager<H> {
    /// The registered ids are those that the history leaves registered, and
    /// each attempt in the history won exactly when its id was free.
    pub closed spec fn wf(&self) -> bool {
        &&& forall|id: i64| #[trigger] self.tasks@.contains_key(id) == member_after(self.events@, id)
        &&& attempts_honest(self.events@)
    }

    /// The changes made to the registry, oldest first.
    pub closed spec fn history(&self) -> Seq<RegistryEvent> {
        self.events@
    }

    /// An empty registry, with no history.
    pub fn new() -> (r: TaskManager<H>)
        ensures
            r.wf(),
            r@ == Map::<i64, H>::empty(),
            r.history() == Seq::<RegistryEvent>::empty(),
    {
        broadcast use vstd::std_specs::hash::group_hash_axioms;

        let r = TaskManager { tasks: HashMap::new(), events: Ghost(Seq::empty()) };
        assert(r.tasks@ =~= Map::<i64, H>::empty());
        r
    }

    /// Registers `id` with `handle` unless it is already registered; true when it was not.
    /// Membership test and insertion are one step.
    pub fn add_task(&mut self, id: i64, handle: H) -> (r: bool)
        requires
            old(self).wf(),
        ensures
            final(self).wf(),
            (r, final(self)@) == registered(old(self)@, id, handle),
            final(self).history() == old(self).history().push(RegistryEvent::Added { id, won: r }),
    {
        broadcast use vstd::std_specs::hash::group_hash_axioms;

        let won = if self.tasks.contains_key(&id) {
            false
        } else {
            self.tasks.insert(id, handle);
            true
        };
        let ghost old_ev = self.events@;
        self.events = Ghost(old_ev.push(RegistryEvent::Added { id, won }));
        proof {
            let ev = self.events@;
            assert(ev.drop_last() =~= old_ev);
            assert forall|k: int| 0 <= k < ev.len() implies match #[trigger] ev[k] {
                RegistryEvent::Added { id, won } => won == !member_after(ev.subrange(0, k), id),
                RegistryEvent::Removed { .. } => true,
            } by {
                if k < old_ev.len() {
                    assert(ev.subrange(0, k) =~= old_ev.subrange(0, k));
                    assert(ev[k] == old_ev[k]);
                } else {
                    assert(ev.subrange(0, k) =~= old_ev);
                }
            }
        }
        won
    }

    /// Removes `id` and hands back its handle, whose release cancels the run.
    pub fn remove_task(&mut self, id: i64) -> (r: Option<H>)
        requires
            old(self).wf(),
        ensures
            final(self).wf(),
            final(self).history() == old(self).history().push(RegistryEvent::Removed { id }),
            final(self)@ == old(self)@.remove(id),
            r == (if old(self)@.contains_key(id) {
                Some(old(self)@[id])
            } else {
                None::<H>
            }),
    {
        broadcast use vstd::std_specs::hash::group_hash_axioms;

        let r = self.tasks.remove(&id);
        let ghost old_ev = self.events@;
        self.events = Ghost(old_ev.push(RegistryEvent::Removed { id }));
        proof {
            let ev = self.events@;
            assert(ev.drop_last() =~= old_ev);
            assert forall|k: int| 0 <= k < ev.len() implies match #[trigger] ev[k] {
                RegistryEvent::Added { id, won } => won == !member_after(ev.subrange(0, k), id),
                RegistryEvent::Removed { .. } => true,
            } by {
                if k < old_ev.len() {
                    assert(ev.subrange(0, k) =~= old_ev.subrange(0, k));
                    assert(ev[k] == old_ev[k]);
                }
            }
        }
        r
    }

    /// Whether `id` is registered.
    pub fn contains_task(&self, id: i64) -> (r: bool)
        ensures
            r == self@.contains_key(id),
    {
        broadcast use vstd::std_specs::hash::group_hash_axioms;

        self.tasks.contains_key(&id)
    }

    /// The registered ids, each once, in no particular order.
    pub fn task_list(&self) -> (r: Vec<i64>)
        ensures
            r@.to_set() == self@.dom(),
            r@.no_duplicates(),
    {
        broadcast use vstd::std_specs::hash::group_hash_axioms;

        let ghost ks = vstd::std_specs::hash::spec_keys_iter(&self.tasks).remaining();
        let mut res: Vec<i64> = Vec::new();
        for k in it: self.tasks.keys()
            invariant
                it.seq() == ks,
                res@.len() == it.index(),
                forall|i: int| 0 <= i < res@.len() ==> res@[i] == *ks[i],
        {
            res.push(*k);
        }
        assert(res@ =~= ks.unref());
        res
    }
}

/// Whether task `id` is running.
pub fn contains_task<H>(manager: &TaskManager<H>, id: i64) -> (r: bool)
    ensures
        r == manager@.contains_key(id),
{
    manager.contains_task(id)
}

/// Takes task `id` out of the registry; dropping what comes back cancels its run.
pub fn remove_task<H>(manager: &mut TaskManager<H>, id: i64) -> (r: Option<H>)
    requires
        old(manager).wf(),
    ensures
        final(manager).wf(),
        final(manager).history() == old(manager).history().push(RegistryEvent::Removed { id }),
        final(manager)@ == old(manager)@.remove(id),
        r == (if old(manager)@.contains_key(id) {
            Some(old(manager)@[id])
        } else {
            None::<H>
        }),
{
    manager.remove_task(id)
}

/// The ids of the running tasks.
pub fn running_task<H>(manager: &TaskManager<H>) -> (r: Vec<i64>)
    ensures
        r@.to_set() == manager@.dom(),
        r@.no_duplicates(),
{
    manager.task_list()
}

/// Registers task `id` with its cancellation handle; false when it was already running.
pub fn add_task<H>(manager: &mut TaskManager<H>, id: i64, handle: H) -> (r: bool)
    requires
        old(manager).wf(),
    ensures
        final(manager).wf(),
        final(manager).history() == old(manager).history().push(
            RegistryEvent::Added { id, won: r },
        ),
        (r, final(manager)@) == registered(old(manager)@, id, handle),
{
    manager.add_task(id, handle)
}

/// Once `id` is registered, every further registration of it fails and
/// leaves the registry as it is.
pub proof fn lemma_register_twice<H>(m: Map<i64, H>, id: i64, first: H, second: H)
    ensures
        !registered(registered(m, id, first).1, id, second).0,
        registered(registered(m, id, first).1, id, second).1 == registered(m, id, first).1,
{
}

/// After `id` is removed, registering it succeeds again.
pub proof fn lemma_register_after_remove<H>(m: Map<i64, H>, id: i64, handle: H)
    ensures
        registered(m.remove(id), id, handle).0,
{
}

/// Any number of registration attempts for one id, one after another, give
/// exactly one success when the id was not registered, and none when it was.
pub proof fn lemma_single_flight<H>(m: Map<i64, H>, id: i64, handles: Seq<H>)
    ensures
        register_all(m, id, handles).0 == (if m.contains_key(id) || handles.len() == 0 {
            0nat
        } else {
            1nat
        }),
        handles.len() > 0 ==> register_all(m, id, handles).1.contains_key(id),
    decreases handles.len(),
{
    if handles.len() > 0 {
        lemma_single_flight(m, id, handles.drop_last());
    }
}

proof fn lemma_winners_upto(ev: Seq<RegistryEvent>, id: i64, from: int, to: int)
    requires
        attempts_honest(ev),
        0 <= from <= to <= ev.len(),
        !member_after(ev.subrange(0, from), id),
        !removed_between(ev, id, from, to),
    ensures
        wins_between(ev, id, from, to) == (if attempts_between(ev, id, from, to) > 0 {
            1nat
        } else {
            0nat
        }),
        member_after(ev.subrange(0, to), id) == (attempts_between(ev, id, from, to) > 0),
    decreases to - from,
{
    if to > from {
        lemma_winners_upto(ev, id, from, to - 1);
        let e = ev[to - 1];
        assert(ev.subrange(0, to).drop_last() =~= ev.subrange(0, to - 1));
        assert(ev.subrange(0, to).last() == e);
        match e {
            RegistryEvent::Removed { id: x } => {
                assert(x != id) by {
                    if x == id {
                        assert(removed_between(ev, id, from, to));
                    }
                }
            },
            RegistryEvent::Added { .. } => {},
        }
    }
}

/// Between removals of `id`, however many registration attempts for `id`
/// are made on a registry, exactly one of them wins when the id was free
/// before them, and the id stays registered.
pub proof fn lemma_one_winner<H>(m: &TaskManager<H>, id: i64, from: int)
    requires
        m.wf(),
        0 <= from <= m.history().len(),
        !member_after(m.history().subrange(0, from), id),
        !removed_between(m.history(), id, from, m.history().len() as int),
    ensures
        wins_between(m.history(), id, from, m.history().len() as int) == (if attempts_between(
            m.history(),
            id,
            from,
            m.history().len() as int,
        ) > 0 {
            1nat
        } else {
            0nat
        }),
        attempts_between(m.history(), id, from, m.history().len() as int) > 0 ==> m@.contains_key(
            id,
        ),
{
    let ev = m.history();
    lemma_winners_upto(ev, id, from, ev.len() as int);
    assert(ev.subrange(0, ev.len() as int) =~= ev);
}

/// Whether `id` is registered is what the registry's history leaves.
pub proof fn lemma_registered_by_history<H>(m: &TaskManager<H>, id: i64)
    requires
        m.wf(),
    ensures
        m@.contains_key(id) == member_after(m.history(), id),
{
}

} // verus!
