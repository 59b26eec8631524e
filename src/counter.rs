//! Progress counters of a running task: increments from the transform stage,
//! drains from the heartbeat and from the final bookkeeping.
use vstd::prelude::*;

verus! {

/// One operation on a counter.
pub enum CounterEvent {
    Increment,
    Drain,
}

/// The value of a counter and the total of all drains after the events, from a zero counter.
pub open spec fn replay(events: Seq<CounterEvent>) -> (nat, nat)
    decreases events.len(),
{
    if events.len() == 0 {
        (0, 0)
    } else {
        let (value, drained) = replay(events.drop_last());
        match events.last() {
            CounterEvent::Increment => (value + 1, drained),
            CounterEvent::Drain => (0, drained + value),
        }
    }
}

/// The number of increments among the events.
pub open spec fn increments(events: Seq<CounterEvent>) -> nat
    decreases events.len(),
{
    if events.len() == 0 {
        0
    } else {
        increments(events.drop_last()) + if events.last() is Increment {
            1nat
        } else {
            0nat
        }
    }
}

/// Draining loses nothing: what all drains took plus what is left equals
/// the number of increments, however increments and drains interleave.
pub proof fn lemma_drain_loss_free(events: Seq<CounterEvent>)
    ensures
        replay(events).0 + replay(events).1 == increments(events),
    decreases events.len(),
{
    if events.len() > 0 {
        lemma_drain_loss_free(events.drop_last());
    }
}

/// A counter that is read and reset in one step. It keeps, as ghost state,
/// the history of the increments and drains made on it.
pub struct Counter {
    value: u64,
    events: Ghost<Seq<CounterEvent>>,
}

impl View for Counter {
    type V = nat;

    closed spec fn view(&self) -> nat {
        self.value as nat
    }
}

impl Counter {
    /// The value is what the history leaves.
    pub closed spec fn wf(&self) -> bool {
        self.value as nat == replay(self.events@).0
    }

    /// The increments and drains made on the counter, oldest first.
    pub closed spec fn history(&self) -> Seq<CounterEvent> {
        self.events@
    }

    /// A counter at zero, with no history.
    pub fn new() -> (r: Counter)
        ensures
            r.wf(),
            r@ == 0,
            r.history() == Seq::<CounterEvent>::empty(),
    {
        Counter { value: 0, events: Ghost(Seq::empty()) }
    }

    /// Adds one.
    pub fn increment(&mut self)
        requires
            old(self).wf(),
            old(self)@ < u64::MAX,
        ensures
            final(self).wf(),
            final(self)@ == old(self)@ + 1,
            final(self).history() == old(self).history().push(CounterEvent::Increment),
    {
        self.value = self.value + 1;
        self.events = Ghost(self.events@.push(CounterEvent::Increment));
        assert(self.events@.drop_last() =~= old(self).events@);
    }

    /// The current value, leaving the counter as it is.
    pub fn get(&self) -> (r: u64)
        ensures
            r == self@,
    {
        self.value
    }

    /// Takes the current value and resets the counter to zero, in one step.
    pub fn drain(&mut self) -> (r: u64)
        requires
            old(self).wf(),
        ensures
            final(self).wf(),
            r == old(self)@,
            final(self)@ == 0,
            final(self).history() == old(self).history().push(CounterEvent::Drain),
            replay(final(self).history()).1 == replay(old(self).history()).1 + r,
    {
        let r = self.value;
        self.value = 0;
        self.events = Ghost(self.events@.push(CounterEvent::Drain));
        assert(self.events@.drop_last() =~= old(self).events@);
        r
    }
}

/// On a counter, the values that all drains returned plus the value left
/// equal the number of increments made on it.
pub proof fn lemma_counter_loss_free(c: &Counter)
    requires
        c.wf(),
    ensures
        c@ + replay(c.history()).1 == increments(c.history()),
{
    lemma_drain_loss_free(c.history());
}

/// The processed and failed message counts of one task run.
pub struct ProgressCounters {
    pub handle_num: Counter,
    pub handle_err: Counter,
}

impl ProgressCounters {
    /// Both counters keep their value in step with their history.
    pub open spec fn wf(&self) -> bool {
        self.handle_num.wf() && self.handle_err.wf()
    }

    /// Both counts at zero, with no history.
    pub fn new() -> (r: ProgressCounters)
        ensures
            r.wf(),
            r.handle_num@ == 0,
            r.handle_err@ == 0,
            r.handle_num.history() == Seq::<CounterEvent>::empty(),
            r.handle_err.history() == Seq::<CounterEvent>::empty(),
    {
        ProgressCounters { handle_num: Counter::new(), handle_err: Counter::new() }
    }

    /// Takes both counts and resets them, giving (processed, failed).
    pub fn drain(&mut self) -> (r: (u64, u64))
        requires
            old(self).wf(),
        ensures
            final(self).wf(),
            r == (old(self).handle_num@ as u64, old(self).handle_err@ as u64),
            final(self).handle_num@ == 0,
            final(self).handle_err@ == 0,
            final(self).handle_num.history() == old(self).handle_num.history().push(
                CounterEvent::Drain,
            ),
            final(self).handle_err.history() == old(self).handle_err.history().push(
                CounterEvent::Drain,
            ),
            replay(final(self).handle_num.history()).1 == replay(old(self).handle_num.history()).1
                + r.0,
            replay(final(self).handle_err.history()).1 == replay(old(self).handle_err.history()).1
                + r.1,
    {
        let n = self.handle_num.drain();
        let e = self.handle_err.drain();
        (n, e)
    }
}

} // verus!
