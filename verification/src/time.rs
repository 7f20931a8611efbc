//! Cancellation-safe monotonic timers.
//!
//! One driver task per runtime services every timer. A pass fires the timers
//! whose deadline has come and tells how long the driver may wait.
use std::collections::VecDeque;
use vstd::prelude::*;
use crate::clock::{Duration, Instant};
use crate::park::{DriverGate, DriverPark, ParkMode};
use crate::table::Table;
use crate::waker::{replace_waker, take_waker, PollState, Poller};

verus! {

/// State of a timer whose future is alive.
pub struct TimerState<W> {
    /// Whether the deadline has been observed and completion may be returned.
    pub fired: bool,
    /// Most recent task waiting for this timer.
    pub waiter: Option<W>,
}

/// Queue record connecting a deadline to a timer.
#[derive(Clone, Copy, Debug, PartialEq, Eq, Structural)]
pub struct TimerEntry {
    /// Monotonic instant at which the timer becomes ready.
    pub deadline: Instant,
    /// Tie-breaker giving otherwise equal deadlines a total ordering.
    pub id: u64,
}

/// Timer collection and shutdown request consumed by the driver loop.
///
/// An entry is stale once its timer is gone from `states`: its future was
/// dropped. Stale entries leave the queue when they reach its front.
pub struct TimerData<W> {
    /// Entries by deadline, earliest first.
    pub timers: VecDeque<TimerEntry>,
    /// Timers whose future is alive.
    pub states: Table<TimerState<W>>,
    /// Whether the loop must drop outstanding timers and stop.
    pub shutdown: bool,
    /// Identifier of the next registered timer.
    pub next_id: u64,
}

/// Content of a [`TimerData`].
#[verifier::ext_equal]
pub struct TimerView<W> {
    pub timers: Seq<TimerEntry>,
    pub states: Map<u64, TimerState<W>>,
    pub shutdown: bool,
    pub next_id: u64,
}

impl<W> View for TimerData<W> {
    type V = TimerView<W>;

    open spec fn view(&self) -> TimerView<W> {
        TimerView {
            timers: self.timers@,
            states: self.states@,
            shutdown: self.shutdown,
            next_id: self.next_id,
        }
    }
}

/// Every timer identifier has been used.
#[derive(Clone, Copy, Debug, PartialEq, Eq, Structural)]
pub struct TimersExhausted;

impl TimerEntry {
    /// Whether this entry comes before `other` in the queue.
    pub open spec fn precedes(self, other: Self) -> bool {
        self.deadline.nanos() < other.deadline.nanos() || (self.deadline.nanos()
            == other.deadline.nanos() && self.id < other.id)
    }
}

/// Whether an entry of the timer `id` is among `timers`.
pub open spec fn is_queued(timers: Seq<TimerEntry>, id: u64) -> bool {
    exists|i: int| 0 <= i < timers.len() && (#[trigger] timers[i]).id == id
}

/// Predicates and functions that agree on a sequence choose the same values.
proof fn lemma_same_choice<W>(
    entries: Seq<TimerEntry>,
    one: spec_fn(TimerEntry) -> bool,
    other: spec_fn(TimerEntry) -> bool,
    value: spec_fn(TimerEntry) -> W,
    other_value: spec_fn(TimerEntry) -> W,
)
    requires
        forall|i: int|
            0 <= i < entries.len() ==> one(#[trigger] entries[i]) == other(entries[i]) && value(
                entries[i],
            ) == other_value(entries[i]),
    ensures
        entries.filter(one).map_values(value) == entries.filter(other).map_values(other_value),
    decreases entries.len(),
{
    reveal(Seq::filter);
    if entries.len() > 0 {
        let shorter = entries.drop_last();
        assert forall|i: int| 0 <= i < shorter.len() implies one(#[trigger] shorter[i]) == other(
            shorter[i],
        ) && value(shorter[i]) == other_value(shorter[i]) by {
            assert(shorter[i] == entries[i]);
        }
        lemma_same_choice(shorter, one, other, value, other_value);
        let last = entries.last();
        assert(last == entries[entries.len() - 1]);
        assert(shorter.filter(one).push(last).map_values(value) =~= shorter.filter(one).map_values(
            value,
        ).push(value(last)));
        assert(shorter.filter(other).push(last).map_values(other_value) =~= shorter.filter(
            other,
        ).map_values(other_value).push(other_value(last)));
    } else {
        assert(entries.filter(one).map_values(value) =~= entries.filter(other).map_values(
            other_value,
        ));
    }
}

/// A predicate that holds of no entry chooses none.
proof fn lemma_none_chosen(entries: Seq<TimerEntry>, chosen: spec_fn(TimerEntry) -> bool)
    requires
        forall|i: int| 0 <= i < entries.len() ==> !chosen(#[trigger] entries[i]),
    ensures
        entries.filter(chosen) == Seq::<TimerEntry>::empty(),
    decreases entries.len(),
{
    reveal(Seq::filter);
    if entries.len() > 0 {
        let shorter = entries.drop_last();
        assert forall|i: int| 0 <= i < shorter.len() implies !chosen(#[trigger] shorter[i]) by {
            assert(shorter[i] == entries[i]);
        }
        lemma_none_chosen(shorter, chosen);
        assert(!chosen(entries[entries.len() - 1]));
    }
}

impl<W> TimerView<W> {
    /// Invariant of the timer collection.
    pub open spec fn wf(self) -> bool {
        &&& forall|i: int|
            0 <= i < self.timers.len() ==> (#[trigger] self.timers[i]).deadline.wf()
                && self.timers[i].id < self.next_id
        &&& forall|i: int, j: int|
            0 <= i < j < self.timers.len() ==> (#[trigger] self.timers[i]).precedes(
                #[trigger] self.timers[j],
            )
        &&& forall|i: int, j: int|
            0 <= i < j < self.timers.len() ==> (#[trigger] self.timers[i]).id != (
            #[trigger] self.timers[j]).id
        &&& forall|id: u64| #[trigger]
            self.states.contains_key(id) ==> id < self.next_id && (self.states[id].fired
                == !self.queued(id))
    }

    /// The invariant depends on the queue and on the live timers; identifiers may
    /// be used up and timers forgotten.
    proof fn lemma_still_wf(self, next: Self)
        requires
            self.wf(),
            next.timers == self.timers,
            next.next_id >= self.next_id,
            forall|id: u64| #[trigger]
                next.states.contains_key(id) ==> self.states.contains_key(id) && next.states[id]
                    == self.states[id],
        ensures
            next.wf(),
    {
        assert forall|i: int| 0 <= i < next.timers.len() implies (
        #[trigger] next.timers[i]).deadline.wf() && next.timers[i].id < next.next_id by {
            assert(self.timers[i].id < self.next_id);
        }
        assert forall|id: u64| #[trigger] next.states.contains_key(id) implies id < next.next_id
            && (next.states[id].fired == !next.queued(id)) by {
            assert(self.states.contains_key(id));
            assert(next.queued(id) == self.queued(id));
        }
    }

    /// Whether an entry of the timer `id` waits in the queue.
    pub open spec fn queued(self, id: u64) -> bool {
        is_queued(self.timers, id)
    }

    /// Whether the entry at `i` belongs to a dropped future.
    pub open spec fn stale(self, i: int) -> bool {
        !self.states.contains_key(self.timers[i].id)
    }

    /// Whether the driver stops: shutdown was requested and nothing is queued.
    pub open spec fn stops(self) -> bool {
        self.shutdown && self.timers.len() == 0
    }

    /// Whether `entry` belongs to a live timer whose deadline has come and that
    /// somebody waits for.
    pub open spec fn owes_wake(self, entry: TimerEntry, now: Instant) -> bool {
        &&& self.states.contains_key(entry.id)
        &&& self.states[entry.id].waiter is Some
        &&& entry.deadline.nanos() <= now.nanos()
    }

    /// Whether the entry at `i` belongs to a live timer whose deadline has come.
    pub open spec fn due(self, i: int, now: Instant) -> bool {
        0 <= i < self.timers.len() && !self.stale(i) && self.timers[i].deadline.nanos()
            <= now.nanos()
    }

    /// The collection without its first entry.
    pub open spec fn rest(self) -> Self {
        TimerView { timers: self.timers.drop_first(), ..self }
    }

    /// The collection after its first entry fired.
    pub open spec fn first_fired(self) -> Self {
        let id = self.timers[0].id;
        if self.states.contains_key(id) {
            TimerView {
                states: self.states.insert(id, TimerState { fired: true, waiter: None }),
                ..self.rest()
            }
        } else {
            self.rest()
        }
    }

    /// Wakers that are due once the first entry fires.
    pub open spec fn first_wakes(self) -> Seq<W> {
        let id = self.timers[0].id;
        if self.states.contains_key(id) {
            crate::waker::taken(true, self.states[id].waiter)
        } else {
            Seq::empty()
        }
    }

    /// The collection after every due entry fired.
    pub open spec fn fired(self, now: Instant) -> Self
        decreases self.timers.len(),
    {
        if self.timers.len() > 0 && self.timers[0].deadline.nanos() <= now.nanos() {
            self.first_fired().fired(now)
        } else {
            self
        }
    }

    /// Wakers that are due once every due entry fired, earliest first.
    pub open spec fn fired_wakes(self, now: Instant) -> Seq<W>
        decreases self.timers.len(),
    {
        if self.timers.len() > 0 && self.timers[0].deadline.nanos() <= now.nanos() {
            self.first_wakes() + self.first_fired().fired_wakes(now)
        } else {
            Seq::empty()
        }
    }

    /// The collection without the stale entries at its front.
    pub open spec fn trimmed(self) -> Self
        decreases self.timers.len(),
    {
        if self.timers.len() > 0 && self.stale(0) {
            self.rest().trimmed()
        } else {
            self
        }
    }

    /// Firing the first entry keeps the invariant.
    pub proof fn lemma_first_fired(self)
        requires
            self.wf(),
            self.timers.len() > 0,
        ensures
            self.first_fired().wf(),
    {
        let next = self.first_fired();
        let first = self.timers[0].id;
        assert forall|i: int| 0 <= i < next.timers.len() implies next.timers[i] == self.timers[i
            + 1] by {}
        assert forall|id: u64| #[trigger] next.states.contains_key(id) implies id < next.next_id
            && (next.states[id].fired == !next.queued(id)) by {
            assert(self.states.contains_key(id));
            if id == first {
                assert(!next.queued(id));
            } else {
                if self.queued(id) {
                    let i = choose|i: int|
                        0 <= i < self.timers.len() && (#[trigger] self.timers[i]).id == id;
                    assert(next.timers[i - 1].id == id);
                }
                if next.queued(id) {
                    let i = choose|i: int|
                        0 <= i < next.timers.len() && (#[trigger] next.timers[i]).id == id;
                    assert(self.timers[i + 1].id == id);
                }
            }
        }
    }

    /// Dropping a stale entry from the front keeps the invariant.
    pub proof fn lemma_rest(self)
        requires
            self.wf(),
            self.timers.len() > 0,
            self.stale(0),
        ensures
            self.rest().wf(),
    {
        assert(self.first_fired() == self.rest());
        self.lemma_first_fired();
    }

    /// After a pass no live timer is overdue, nothing fired early, and nothing
    /// else changed: a timer is fired exactly when it was before or its
    /// deadline has come.
    pub proof fn lemma_fired_exactly_the_due(self, now: Instant)
        requires
            self.wf(),
        ensures
            self.fired(now).wf(),
            self.fired(now).states.dom() == self.states.dom(),
            self.fired(now).shutdown == self.shutdown,
            self.fired(now).next_id == self.next_id,
            forall|i: int|
                0 <= i < self.fired(now).timers.len() ==> (
                #[trigger] self.fired(now).timers[i]).deadline.nanos() > now.nanos(),
            forall|i: int|
                #![trigger self.timers[i]]
                0 <= i < self.timers.len() && self.states.contains_key(self.timers[i].id) ==> (
                self.fired(now).states[self.timers[i].id].fired <==> self.timers[i].deadline.nanos()
                    <= now.nanos()),
            forall|id: u64| #[trigger]
                self.states.contains_key(id) && !self.queued(id) ==> self.fired(now).states[id]
                    == self.states[id],
        decreases self.timers.len(),
    {
        if self.timers.len() > 0 && self.timers[0].deadline.nanos() <= now.nanos() {
            let next = self.first_fired();
            let first = self.timers[0].id;
            self.lemma_first_fired();
            next.lemma_fired_exactly_the_due(now);
            assert(next.states.dom() =~= self.states.dom());
            assert forall|i: int|
                #![trigger self.timers[i]]
                0 <= i < self.timers.len() && self.states.contains_key(
                    self.timers[i].id,
                ) implies (self.fired(now).states[self.timers[i].id].fired
                <==> self.timers[i].deadline.nanos() <= now.nanos()) by {
                if i == 0 {
                    assert(next.states.contains_key(first));
                    assert(!next.queued(first));
                } else {
                    assert(next.timers[i - 1] == self.timers[i]);
                    assert(next.states.contains_key(self.timers[i].id));
                }
            }
            assert forall|id: u64| #[trigger]
                self.states.contains_key(id) && !self.queued(id) implies self.fired(now).states[id]
                == self.states[id] by {
                assert(self.timers[0].id == first);
                assert(id != first);
                assert(next.states.contains_key(id));
                assert(!next.queued(id)) by {
                    if next.queued(id) {
                        let i = choose|i: int|
                            0 <= i < next.timers.len() && (#[trigger] next.timers[i]).id == id;
                        assert(self.timers[i + 1].id == id);
                    }
                }
            }
        } else {
            assert forall|i: int| 0 <= i < self.timers.len() implies (
            #[trigger] self.timers[i]).deadline.nanos() > now.nanos() by {
                if i > 0 {
                    assert(self.timers[0].precedes(self.timers[i]));
                }
            }
            assert forall|i: int|
                #![trigger self.timers[i]]
                0 <= i < self.timers.len() && self.states.contains_key(
                    self.timers[i].id,
                ) implies !self.states[self.timers[i].id].fired by {
                assert(self.queued(self.timers[i].id));
            }
        }
    }

    /// A pass wakes the waiter of every live timer that is due, and nobody else:
    /// a dropped future is never woken.
    pub proof fn lemma_due_waiters_are_woken(self, now: Instant)
        requires
            self.wf(),
        ensures
            forall|i: int| #[trigger]
                self.due(i, now) && self.states[self.timers[i].id].waiter is Some
                    ==> self.fired_wakes(now).contains(self.states[self.timers[i].id].waiter->0),
            forall|waker: W| #[trigger]
                self.fired_wakes(now).contains(waker) ==> exists|i: int| #[trigger]
                    self.due(i, now) && self.states[self.timers[i].id].waiter == Some(waker),
        decreases self.timers.len(),
    {
        if self.timers.len() > 0 && self.timers[0].deadline.nanos() <= now.nanos() {
            let next = self.first_fired();
            let woken = self.first_wakes();
            let later = next.fired_wakes(now);
            self.lemma_first_fired();
            next.lemma_due_waiters_are_woken(now);
            assert(self.fired_wakes(now) == woken + later);
            assert forall|i: int| #[trigger]
                self.due(i, now) && self.states[self.timers[i].id].waiter is Some implies
                self.fired_wakes(now).contains(self.states[self.timers[i].id].waiter->0) by {
                let waker = self.states[self.timers[i].id].waiter->0;
                if i == 0 {
                    assert((woken + later)[0] == waker);
                } else {
                    assert(next.timers[i - 1] == self.timers[i]);
                    assert(next.due(i - 1, now));
                    let k = later.index_of(waker);
                    assert((woken + later)[woken.len() + k] == waker);
                }
            }
            assert forall|waker: W| #[trigger] self.fired_wakes(now).contains(waker) implies exists|
                i: int,
            | #[trigger]
                self.due(i, now) && self.states[self.timers[i].id].waiter == Some(waker) by {
                let k = self.fired_wakes(now).index_of(waker);
                if k < woken.len() {
                    assert(self.due(0, now));
                } else {
                    assert(later[k - woken.len()] == waker);
                    assert(later.contains(waker));
                    let j = choose|j: int| #[trigger]
                        next.due(j, now) && next.states[next.timers[j].id].waiter == Some(waker);
                    assert(next.timers[j] == self.timers[j + 1]);
                    assert(self.due(j + 1, now));
                }
            }
        } else {
            assert forall|i: int| !(#[trigger] self.due(i, now)) by {
                if 0 < i < self.timers.len() {
                    assert(self.timers[0].precedes(self.timers[i]));
                }
            }
        }
    }

    /// A pass wakes the waiter of each due timer exactly once: the wakes are the
    /// waiters of the due entries, one for each entry in the order of the queue,
    /// no timer has two entries, and a second pass wakes nobody.
    pub proof fn lemma_each_due_waiter_is_woken_once(self, now: Instant)
        requires
            self.wf(),
        ensures
            self.fired_wakes(now) == self.timers.filter(
                |entry: TimerEntry| self.owes_wake(entry, now),
            ).map_values(|entry: TimerEntry| self.states[entry.id].waiter->0),
            forall|i: int, j: int|
                0 <= i < self.timers.len() && 0 <= j < self.timers.len() && (
                #[trigger] self.timers[i]).id == (#[trigger] self.timers[j]).id ==> i == j,
            self.fired(now).fired_wakes(now) == Seq::<W>::empty(),
            forall|id: u64| #[trigger]
                self.states.contains_key(id) && self.fired(now).states[id].fired
                    && !self.states[id].fired ==> self.fired(now).states[id].waiter is None,
        decreases self.timers.len(),
    {
        let owes = |entry: TimerEntry| self.owes_wake(entry, now);
        let waiter = |entry: TimerEntry| self.states[entry.id].waiter->0;
        if self.timers.len() > 0 && self.timers[0].deadline.nanos() <= now.nanos() {
            let next = self.first_fired();
            let first = self.timers[0];
            let rest = self.timers.drop_first();
            let next_owes = |entry: TimerEntry| next.owes_wake(entry, now);
            let next_waiter = |entry: TimerEntry| next.states[entry.id].waiter->0;
            self.lemma_first_fired();
            next.lemma_each_due_waiter_is_woken_once(now);
            self.lemma_fired_exactly_the_due(now);
            next.lemma_fired_exactly_the_due(now);
            assert(seq![first] + rest =~= self.timers);
            Seq::<TimerEntry>::filter_distributes_over_add(seq![first], rest, owes);
            assert forall|i: int| 0 <= i < rest.len() implies owes(#[trigger] rest[i])
                == next_owes(rest[i]) && waiter(rest[i]) == next_waiter(rest[i]) by {
                assert(rest[i] == self.timers[i + 1]);
                assert(rest[i].id != first.id);
            }
            lemma_same_choice(rest, owes, next_owes, waiter, next_waiter);
            reveal_with_fuel(Seq::filter, 2);
            assert(seq![first].drop_last() =~= Seq::<TimerEntry>::empty());
            let chosen = seq![first].filter(owes);
            assert(chosen =~= if owes(first) {
                seq![first]
            } else {
                Seq::empty()
            });
            assert(chosen.map_values(waiter) =~= self.first_wakes());
            assert((chosen + rest.filter(owes)).map_values(waiter) =~= chosen.map_values(waiter)
                + rest.filter(owes).map_values(waiter));
            assert forall|id: u64| #[trigger]
                self.states.contains_key(id) && self.fired(now).states[id].fired
                    && !self.states[id].fired implies self.fired(now).states[id].waiter is None by {
                assert(next.states.contains_key(id));
                if id == first.id {
                    assert(!next.queued(id));
                    assert(next.fired(now).states[id] == next.states[id]);
                }
            }
        } else {
            self.lemma_fired_exactly_the_due(now);
            assert forall|i: int| 0 <= i < self.timers.len() implies !owes(
                #[trigger] self.timers[i],
            ) by {}
            lemma_none_chosen(self.timers, owes);
            assert(self.timers.filter(owes).map_values(waiter) =~= Seq::<W>::empty());
        }
    }

    /// Once shutdown is requested, one pass suffices: it drops every waiting
    /// timer with its waiter, and whatever is registered afterwards, nothing is
    /// queued again and the driver stops.
    pub proof fn lemma_shutdown_pass_drops_all(self)
        requires
            self.wf(),
            self.shutdown,
        ensures
            self.emptied().stops(),
            forall|i: int|
                0 <= i < self.timers.len() ==> !self.emptied().states.contains_key(
                    (#[trigger] self.timers[i]).id,
                ),
            forall|deadline: Instant, waiter: Option<W>, next: Self| #[trigger]
                self.emptied().registered(deadline, waiter, next) ==> next.stops() && next.states
                    == self.emptied().states,
    {
        assert forall|i: int| 0 <= i < self.timers.len() implies self.queued(
            (#[trigger] self.timers[i]).id,
        ) by {}
    }

    /// Trimming keeps the invariant, the live timers and their entries, and
    /// leaves a live timer at the front.
    pub proof fn lemma_trimmed(self)
        requires
            self.wf(),
        ensures
            self.trimmed().wf(),
            self.trimmed() == (TimerView { timers: self.trimmed().timers, ..self }),
            self.trimmed().timers.len() > 0 ==> !self.trimmed().stale(0),
            self.trimmed().timers.len() <= self.timers.len(),
            self.trimmed().timers == self.timers.skip(
                self.timers.len() - self.trimmed().timers.len(),
            ),
            forall|i: int|
                0 <= i < self.timers.len() - self.trimmed().timers.len() ==> !self.states.contains_key(
                    (#[trigger] self.timers[i]).id,
                ),
        decreases self.timers.len(),
    {
        if self.timers.len() > 0 && self.stale(0) {
            let rest = self.rest();
            self.lemma_rest();
            rest.lemma_trimmed();
            let gone = self.timers.len() - self.trimmed().timers.len();
            assert(self.trimmed().timers =~= self.timers.skip(gone));
            assert forall|i: int| 0 <= i < gone implies !self.states.contains_key(
                (#[trigger] self.timers[i]).id,
            ) by {
                if i > 0 {
                    assert(rest.timers[i - 1] == self.timers[i]);
                }
            }
        } else {
            assert(self.timers.skip(0) =~= self.timers);
        }
    }

    /// The state after a pass at `now`.
    pub open spec fn passed(self, now: Instant) -> Self {
        self.fired(now).trimmed()
    }

    /// How long the driver may wait after a pass at `now`.
    pub open spec fn wait(self, now: Instant) -> Option<int> {
        if self.passed(now).timers.len() > 0 {
            Some(self.passed(now).timers[0].deadline.nanos() - now.nanos())
        } else {
            None
        }
    }

    /// The driver waits exactly until the earliest deadline of a live timer,
    /// and indefinitely only when none is waiting.
    pub proof fn lemma_wait_is_earliest(self, now: Instant)
        requires
            self.wf(),
        ensures
            match self.wait(now) {
                Some(wait) => {
                    &&& wait > 0
                    &&& exists|i: int|
                        0 <= i < self.timers.len() && self.states.contains_key(
                            (#[trigger] self.timers[i]).id,
                        ) && self.timers[i].deadline.nanos() == now.nanos() + wait
                    &&& forall|i: int|
                        0 <= i < self.timers.len() && self.states.contains_key(
                            (#[trigger] self.timers[i]).id,
                        ) && self.timers[i].deadline.nanos() > now.nanos()
                            ==> self.timers[i].deadline.nanos() >= now.nanos() + wait
                },
                None => forall|i: int|
                    0 <= i < self.timers.len() && self.states.contains_key(
                        (#[trigger] self.timers[i]).id,
                    ) ==> self.timers[i].deadline.nanos() <= now.nanos(),
            },
    {
        let fired = self.fired(now);
        let passed = self.passed(now);
        self.lemma_fired_exactly_the_due(now);
        self.lemma_fired_is_suffix(now);
        fired.lemma_trimmed();
        let skip = self.timers.len() - passed.timers.len();
        assert(passed.timers =~= self.timers.skip(skip));
        assert forall|i: int|
            0 <= i < self.timers.len() && self.states.contains_key((#[trigger] self.timers[i]).id)
                && self.timers[i].deadline.nanos() > now.nanos() implies i >= skip by {
            let gone = self.timers.len() - fired.timers.len();
            if i < gone {
            } else if i < skip {
                assert(fired.timers[i - gone] == self.timers[i]);
                assert(fired.states.dom().contains(self.timers[i].id));
            }
        }
        if passed.timers.len() > 0 {
            assert(passed.timers[0] == self.timers[skip]);
            let gone = self.timers.len() - fired.timers.len();
            assert(fired.timers[skip - gone] == self.timers[skip]);
            assert(fired.states.dom().contains(self.timers[skip].id));
            assert forall|i: int|
                0 <= i < self.timers.len() && self.states.contains_key(
                    (#[trigger] self.timers[i]).id,
                ) && self.timers[i].deadline.nanos() > now.nanos() implies
                self.timers[i].deadline.nanos() >= self.timers[skip].deadline.nanos() by {
                if i > skip {
                    assert(self.timers[skip].precedes(self.timers[i]));
                }
            }
        }
    }

    /// Firing removes a prefix of the queue that holds only due entries.
    proof fn lemma_fired_is_suffix(self, now: Instant)
        requires
            self.wf(),
        ensures
            self.fired(now).timers.len() <= self.timers.len(),
            self.fired(now).timers == self.timers.skip(
                self.timers.len() - self.fired(now).timers.len(),
            ),
            forall|i: int|
                0 <= i < self.timers.len() - self.fired(now).timers.len() ==> (
                #[trigger] self.timers[i]).deadline.nanos() <= now.nanos(),
        decreases self.timers.len(),
    {
        if self.timers.len() > 0 && self.timers[0].deadline.nanos() <= now.nanos() {
            let next = self.first_fired();
            self.lemma_first_fired();
            next.lemma_fired_is_suffix(now);
            let gone = self.timers.len() - self.fired(now).timers.len();
            assert(self.fired(now).timers =~= self.timers.skip(gone));
            assert forall|i: int| 0 <= i < gone implies (
            #[trigger] self.timers[i]).deadline.nanos() <= now.nanos() by {
                if i > 0 {
                    assert(next.timers[i - 1] == self.timers[i]);
                }
            }
        } else {
            assert(self.timers.skip(0) =~= self.timers);
        }
    }
}

impl<W> TimerView<W> {
    /// The collection after a timer was registered.
    ///
    /// Once shutdown is requested no new work is retained.
    pub open spec fn registered(self, deadline: Instant, waiter: Option<W>, next: Self) -> bool {
        let entry = TimerEntry { deadline, id: self.next_id };
        &&& next.shutdown == self.shutdown
        &&& next.next_id == self.next_id + 1
        &&& if self.shutdown {
            next.timers == self.timers && next.states == self.states
        } else {
            &&& next.states == self.states.insert(
                self.next_id,
                TimerState { fired: false, waiter },
            )
            &&& exists|i: int|
                0 <= i <= self.timers.len() && next.timers == #[trigger] self.timers.insert(
                    i,
                    entry,
                )
        }
    }

    /// The collection after the future of timer `id` registered its waiter.
    pub open spec fn awaited(self, id: u64, poller: Poller<W>) -> Self {
        if self.states.contains_key(id) {
            TimerView {
                states: self.states.insert(
                    id,
                    TimerState {
                        fired: self.states[id].fired,
                        waiter: crate::waker::registered(self.states[id].waiter, poller),
                    },
                ),
                ..self
            }
        } else {
            self
        }
    }

    /// The collection after its future was dropped.
    pub open spec fn cancelled(self, id: u64) -> Self {
        TimerView { states: self.states.remove(id), ..self }
    }

    /// The collection after a shutdown pass dropped every waiting timer.
    pub open spec fn emptied(self) -> Self {
        TimerView {
            timers: Seq::empty(),
            states: Map::new(
                |id: u64| self.states.contains_key(id) && !self.queued(id),
                |id: u64| self.states[id],
            ),
            ..self
        }
    }
}

/// Outcome of one driver pass.
pub struct TimerPass<W> {
    /// Time until the next deadline, if a timer is waiting.
    pub wait: Option<Duration>,
    /// Wakers to invoke outside all locks.
    pub wakes: Vec<W>,
}

/// What the timer driver does after a pass.
#[derive(Clone, Copy, Debug, PartialEq, Eq, Structural)]
pub enum TimerStep {
    /// Return from the run callback.
    Stop,
    /// Run another pass.
    Continue,
    /// Wait for this long.
    Wait(Duration),
    /// Pause until notified.
    Pause,
}

impl<W> TimerView<W> {
    /// What the driver does after a pass that allows waiting for `wait`, when
    /// `notified` tells whether work was announced since.
    ///
    /// It stops only once shutdown was requested and nothing is queued.
    pub open spec fn step(self, notified: bool, wait: Option<Duration>) -> TimerStep {
        if self.stops() {
            TimerStep::Stop
        } else if self.shutdown || notified {
            TimerStep::Continue
        } else {
            match wait {
                Some(wait) => TimerStep::Wait(wait),
                None => TimerStep::Pause,
            }
        }
    }

    /// `wait` is the span that a pass at `now` allows.
    pub open spec fn allows(self, now: Instant, wait: Option<Duration>) -> bool {
        match (wait, self.wait(now)) {
            (Some(wait), Some(nanos)) => wait.wf() && wait.nanos() == nanos,
            (None, None) => true,
            _ => false,
        }
    }

    /// One turn of the driver at `now`, while no shutdown is requested.
    ///
    /// Every entry whose deadline has come leaves the queue. Of those timers
    /// exactly the ones whose future is alive fire, and the waiter of each is
    /// woken once, in the order of the queue. No other timer fires, and every
    /// live one keeps its entry. Then the driver waits until the earliest
    /// deadline that remains, or pauses if nothing remains, unless work was
    /// announced meanwhile.
    pub proof fn lemma_driver_turn(self, now: Instant, wait: Option<Duration>)
        requires
            self.wf(),
            !self.shutdown,
            self.allows(now, wait),
        ensures
            self.passed(now).wf(),
            self.passed(now).states.dom() == self.states.dom(),
            forall|i: int|
                0 <= i < self.passed(now).timers.len() ==> (
                #[trigger] self.passed(now).timers[i]).deadline.nanos() > now.nanos(),
            forall|i: int|
                #![trigger self.timers[i]]
                0 <= i < self.timers.len() && !self.stale(i) ==> {
                    let next = self.passed(now);
                    if self.timers[i].deadline.nanos() <= now.nanos() {
                        &&& next.states[self.timers[i].id].fired
                        &&& next.states[self.timers[i].id].waiter is None
                    } else {
                        &&& next.states[self.timers[i].id] == self.states[self.timers[i].id]
                        &&& next.timers.contains(self.timers[i])
                    }
                },
            self.fired_wakes(now) == self.timers.filter(
                |entry: TimerEntry| self.owes_wake(entry, now),
            ).map_values(|entry: TimerEntry| self.states[entry.id].waiter->0),
            forall|i: int, j: int|
                0 <= i < self.timers.len() && 0 <= j < self.timers.len() && (
                #[trigger] self.timers[i]).id == (#[trigger] self.timers[j]).id ==> i == j,
            self.passed(now).step(true, wait) == TimerStep::Continue,
            match self.passed(now).step(false, wait) {
                TimerStep::Wait(span) => {
                    &&& wait == Some(span)
                    &&& exists|i: int|
                        0 <= i < self.passed(now).timers.len() && (
                        #[trigger] self.passed(now).timers[i]).deadline.nanos() == now.nanos()
                            + span.nanos()
                    &&& forall|i: int|
                        0 <= i < self.passed(now).timers.len() ==> (
                        #[trigger] self.passed(now).timers[i]).deadline.nanos() >= now.nanos()
                            + span.nanos()
                },
                TimerStep::Pause => self.passed(now).timers.len() == 0,
                _ => false,
            },
    {
        let fired = self.fired(now);
        let next = self.passed(now);
        self.lemma_fired_exactly_the_due(now);
        self.lemma_each_due_waiter_is_woken_once(now);
        self.lemma_fired_is_suffix(now);
        self.lemma_later_is_kept(now);
        fired.lemma_trimmed();
        let gone = self.timers.len() - fired.timers.len();
        let trimmed = fired.timers.len() - next.timers.len();
        assert forall|i: int| 0 <= i < next.timers.len() implies (
        #[trigger] next.timers[i]).deadline.nanos() > now.nanos() by {
            assert(next.timers[i] == fired.timers[i + trimmed]);
        }
        assert forall|i: int|
            #![trigger self.timers[i]]
            0 <= i < self.timers.len() && !self.stale(i) implies {
            if self.timers[i].deadline.nanos() <= now.nanos() {
                &&& next.states[self.timers[i].id].fired
                &&& next.states[self.timers[i].id].waiter is None
            } else {
                &&& next.states[self.timers[i].id] == self.states[self.timers[i].id]
                &&& next.timers.contains(self.timers[i])
            }
        } by {
            let id = self.timers[i].id;
            assert(self.queued(id));
            assert(self.states.contains_key(id));
            if self.timers[i].deadline.nanos() > now.nanos() {
                assert(i >= gone);
                assert(fired.timers[i - gone] == self.timers[i]);
                assert(fired.states.dom().contains(id));
                assert(i - gone >= trimmed);
                assert(next.timers[i - gone - trimmed] == self.timers[i]);
            }
        }
        if next.timers.len() > 0 {
            assert forall|i: int| 0 <= i < next.timers.len() implies (
            #[trigger] next.timers[i]).deadline.nanos() >= next.timers[0].deadline.nanos() by {
                if i > 0 {
                    assert(next.timers[0].precedes(next.timers[i]));
                }
            }
        }
    }

    /// Firing leaves the state of a timer alone whose deadline is still to come.
    proof fn lemma_later_is_kept(self, now: Instant)
        requires
            self.wf(),
        ensures
            forall|i: int|
                #![trigger self.timers[i]]
                0 <= i < self.timers.len() && !self.stale(i) && self.timers[i].deadline.nanos()
                    > now.nanos() ==> self.fired(now).states[self.timers[i].id]
                    == self.states[self.timers[i].id],
        decreases self.timers.len(),
    {
        if self.timers.len() > 0 && self.timers[0].deadline.nanos() <= now.nanos() {
            let next = self.first_fired();
            self.lemma_first_fired();
            next.lemma_later_is_kept(now);
            assert forall|i: int|
                #![trigger self.timers[i]]
                0 <= i < self.timers.len() && !self.stale(i) && self.timers[i].deadline.nanos()
                    > now.nanos() implies self.fired(now).states[self.timers[i].id]
                == self.states[self.timers[i].id] by {
                assert(i > 0);
                assert(next.timers[i - 1] == self.timers[i]);
                assert(self.timers[0].id != self.timers[i].id);
                assert(!next.stale(i - 1));
            }
        }
    }
}

impl<W> TimerData<W> {
    /// Creates an empty collection.
    pub fn new() -> (data: Self)
        ensures
            data@.wf(),
            data@.timers == Seq::<TimerEntry>::empty(),
            data@.states == Map::<u64, TimerState<W>>::empty(),
            !data.shutdown,
            data.next_id == 1,
    {
        TimerData { timers: VecDeque::new(), states: Table::new(), shutdown: false, next_id: 1 }
    }

    /// Adds a timer and returns its identifier.
    ///
    /// The caller notifies the driver so it reconsiders its next deadline.
    /// Registration after shutdown retains nothing. Identifiers never wrap
    /// because they order equal deadlines.
    pub fn register(&mut self, deadline: Instant, waiter: Option<W>) -> (id: Result<
        u64,
        TimersExhausted,
    >)
        requires
            old(self)@.wf(),
            deadline.wf(),
        ensures
            final(self)@.wf(),
            if old(self).next_id == u64::MAX {
                &&& id == Err::<u64, TimersExhausted>(TimersExhausted)
                &&& final(self)@ == old(self)@
            } else {
                &&& id == Ok::<u64, TimersExhausted>(old(self).next_id)
                &&& old(self)@.registered(deadline, waiter, final(self)@)
            },
    {
        let id: u64 = self.next_id;
        if id == u64::MAX {
            return Err(TimersExhausted);
        }
        let ghost before = self@;
        self.next_id = id + 1;
        if self.shutdown {
            proof {
                before.lemma_still_wf(self@);
            }
            return Ok(id);
        }
        let entry = TimerEntry { deadline, id };
        let mut at: usize = self.timers.len();
        while at > 0 && deadline.is_before(&self.timers[at - 1].deadline)
            invariant
                0 <= at <= self.timers@.len(),
                before.wf(),
                self@.timers == before.timers,
                deadline.wf(),
                entry == (TimerEntry { deadline, id }),
                id == before.next_id,
                forall|i: int|
                    at <= i < self.timers@.len() ==> entry.precedes(#[trigger] self.timers@[i]),
            decreases at,
        {
            at = at - 1;
        }
        proof {
            assert forall|i: int| 0 <= i < at implies (#[trigger] before.timers[i]).precedes(
                entry,
            ) by {
                if i < at - 1 {
                    assert(before.timers[i].precedes(before.timers[at - 1]));
                }
            }
        }
        self.timers.insert(at, entry);
        self.states.insert(id, TimerState { fired: false, waiter });
        proof {
            let next = self@;
            assert(next.timers == before.timers.insert(at as int, entry));
            assert forall|i: int| 0 <= i < next.timers.len() implies next.timers[i] == (if i < at {
                before.timers[i]
            } else if i == at {
                entry
            } else {
                before.timers[i - 1]
            }) by {}
            assert forall|other: u64| #[trigger] next.states.contains_key(other) implies other
                < next.next_id && (next.states[other].fired == !next.queued(other)) by {
                if other == id {
                    assert(next.timers[at as int].id == id);
                } else {
                    assert(before.states.contains_key(other));
                    if before.queued(other) {
                        let i = choose|i: int|
                            0 <= i < before.timers.len() && (#[trigger] before.timers[i]).id
                                == other;
                        if i < at {
                            assert(next.timers[i].id == other);
                        } else {
                            assert(next.timers[i + 1].id == other);
                        }
                    }
                    if next.queued(other) {
                        let i = choose|i: int|
                            0 <= i < next.timers.len() && (#[trigger] next.timers[i]).id == other;
                        if i < at {
                            assert(before.timers[i].id == other);
                        } else {
                            assert(before.timers[i - 1].id == other);
                        }
                    }
                }
            }
        }
        Ok(id)
    }

    /// Forgets the timer of a dropped future; its entry becomes stale.
    ///
    /// The caller notifies the driver, which discards the entry.
    pub fn cancel(&mut self, id: u64)
        requires
            old(self)@.wf(),
        ensures
            final(self)@.wf(),
            final(self)@ == old(self)@.cancelled(id),
    {
        let ghost before = self@;
        self.states.remove(id);
        proof {
            before.lemma_still_wf(self@);
        }
    }

    /// Requests that the driver drops its timers and stops.
    pub fn begin_shutdown(&mut self)
        requires
            old(self)@.wf(),
        ensures
            final(self)@.wf(),
            final(self)@ == (TimerView { shutdown: true, ..old(self)@ }),
    {
        let ghost before = self@;
        self.shutdown = true;
        proof {
            before.lemma_still_wf(self@);
        }
    }

    /// Performs one driver pass at the time `now`.
    ///
    /// Entries whose deadline has come are removed and their live timers fire.
    /// A shutdown pass drops every waiting timer without waking anyone.
    pub fn pass(&mut self, now: Instant) -> (pass: TimerPass<W>)
        requires
            old(self)@.wf(),
            now.wf(),
        ensures
            final(self)@.wf(),
            if old(self).shutdown {
                &&& final(self)@ == old(self)@.emptied()
                &&& pass.wait is None
                &&& pass.wakes@.len() == 0
            } else {
                &&& final(self)@ == old(self)@.passed(now)
                &&& pass.wakes@ == old(self)@.fired_wakes(now)
                &&& old(self)@.allows(now, pass.wait)
            },
    {
        let mut wakes: Vec<W> = Vec::new();
        if self.shutdown {
            self.empty();
            return TimerPass { wait: None, wakes };
        }
        let ghost before = self@;
        while self.timers.len() > 0 && !now.is_before(&self.timers[0].deadline)
            invariant
                now.wf(),
                before.wf(),
                self@.wf(),
                self@.fired(now) == before.fired(now),
                wakes@ + self@.fired_wakes(now) == before.fired_wakes(now),
            decreases self.timers.len(),
        {
            let ghost step = self@;
            let ghost woken = wakes@;
            proof {
                step.lemma_first_fired();
            }
            let entry: TimerEntry = self.timers.pop_front().unwrap();
            if let Some(state) = self.states.remove(entry.id) {
                let mut state = state;
                take_waker(true, &mut state.waiter, &mut wakes);
                state.fired = true;
                self.states.insert(entry.id, state);
                assert(self@.states =~= step.first_fired().states);
            } else {
                assert(self@.states =~= step.states);
            }
            assert(self@ =~= step.first_fired());
            assert(wakes@ =~= woken + step.first_wakes());
            assert(wakes@ + self@.fired_wakes(now) =~= before.fired_wakes(now));
        }
        assert(self@ == before.fired(now));
        assert(wakes@ =~= before.fired_wakes(now));
        proof {
            before.lemma_fired_exactly_the_due(now);
            before.fired(now).lemma_trimmed();
        }
        while self.timers.len() > 0 && !self.states.contains(self.timers[0].id)
            invariant
                before.fired(now).wf(),
                self@.wf(),
                self@.trimmed() == before.passed(now),
            decreases self.timers.len(),
        {
            let ghost step = self@;
            proof {
                step.lemma_rest();
            }
            self.timers.pop_front();
            assert(self@ =~= step.rest());
        }
        assert(self@ == before.passed(now));
        let wait: Option<Duration> = if self.timers.len() > 0 {
            proof {
                before.lemma_wait_is_earliest(now);
            }
            Some(self.timers[0].deadline.saturating_duration_since(now))
        } else {
            None
        };
        TimerPass { wait, wakes }
    }

    /// Drops every waiting timer.
    fn empty(&mut self)
        requires
            old(self)@.wf(),
        ensures
            final(self)@.wf(),
            final(self)@ == old(self)@.emptied(),
    {
        let ghost before = self@;
        while self.timers.len() > 0
            invariant
                before.wf(),
                self@.wf(),
                self@.emptied() == before.emptied(),
            decreases self.timers.len(),
        {
            let ghost step = self@;
            let entry: TimerEntry = self.timers.pop_front().unwrap();
            self.states.remove(entry.id);
            proof {
                let next = self@;
                assert forall|i: int| 0 <= i < next.timers.len() implies next.timers[i]
                    == step.timers[i + 1] by {}
                assert forall|id: u64| id != entry.id implies next.queued(id) == step.queued(
                    id,
                ) by {
                    if step.queued(id) {
                        let i = choose|i: int|
                            0 <= i < step.timers.len() && (#[trigger] step.timers[i]).id == id;
                        assert(next.timers[i - 1].id == id);
                    }
                    if next.queued(id) {
                        let i = choose|i: int|
                            0 <= i < next.timers.len() && (#[trigger] next.timers[i]).id == id;
                        assert(step.timers[i + 1].id == id);
                    }
                }
                assert(step.timers[0].id == entry.id);
                assert(step.queued(entry.id));
                assert forall|id: u64| #[trigger] next.states.contains_key(id) implies id
                    < next.next_id && (next.states[id].fired == !next.queued(id)) by {
                    assert(step.states.contains_key(id));
                }
                assert(next.emptied().states =~= step.emptied().states);
                assert(next.emptied() =~= step.emptied());
            }
        }
        assert forall|id: u64| !self@.queued(id) by {}
        assert(self@.states =~= self@.emptied().states);
        assert(self@ =~= self@.emptied());
    }

    /// Decides what the driver does after a pass that allows waiting for `wait`.
    ///
    /// The driver stops only once nothing is queued. A shutdown that was
    /// requested since the pass leaves its timers to another one.
    pub fn after_pass<R>(&self, gate: &mut DriverGate<R>, wait: Option<Duration>) -> (step:
        TimerStep)
        requires
            old(gate).wf(),
            old(gate).raw is Some,
        ensures
            final(gate).wf(),
            step == self@.step(old(gate).notified, wait),
            *final(gate) == (if self@.stops() {
                DriverGate { phase: DriverPark::Terminal, ..*old(gate) }
            } else if self.shutdown {
                old(gate).after_resume()
            } else if wait is Some {
                old(gate).after_park(ParkMode::Wait)
            } else {
                old(gate).after_park(ParkMode::Pause)
            }),
    {
        if self.shutdown {
            if self.timers.len() > 0 {
                gate.resumed();
                return TimerStep::Continue;
            }
            gate.stop();
            return TimerStep::Stop;
        }
        let mode = match wait {
            Some(_) => ParkMode::Wait,
            None => ParkMode::Pause,
        };
        if !gate.park(mode) {
            return TimerStep::Continue;
        }
        match wait {
            Some(wait) => TimerStep::Wait(wait),
            None => TimerStep::Pause,
        }
    }
}

/// A cancellation-safe monotonic deadline future.
///
/// Registration is lazy: constructing a `Sleep` does not require a current
/// runtime, but its first pending poll does.
#[derive(Debug, PartialEq, Eq, Structural)]
pub struct Sleep {
    deadline: Instant,
    fired: bool,
    timer: Option<u64>,
}

/// Seconds in one hundred years of 365 days.
pub const FAR_FUTURE_SECS: u64 = 3_153_600_000;

impl Sleep {
    /// The instant at which this future becomes ready.
    pub closed spec fn at(self) -> Instant {
        self.deadline
    }

    /// Whether this future has observed its deadline.
    pub closed spec fn has_fired(self) -> bool {
        self.fired
    }

    /// The timer this future is bound to, after its first pending poll.
    pub closed spec fn bound(self) -> Option<u64> {
        self.timer
    }

    /// The deadline is a proper instant.
    pub open spec fn wf(self) -> bool {
        self.at().wf()
    }

    /// Whether this bound future is ready at `now`.
    pub open spec fn expired<W>(self, data: TimerView<W>, now: Instant) -> bool {
        ||| self.has_fired()
        ||| data.states.contains_key(self.bound()->0) && data.states[self.bound()->0].fired
        ||| self.at().nanos() <= now.nanos()
    }

    /// Returns this timer's monotonic deadline.
    pub fn deadline(&self) -> (deadline: Instant)
        ensures
            deadline == self.at(),
    {
        self.deadline
    }

    /// Returns the timer this future is bound to.
    pub fn timer(&self) -> (timer: Option<u64>)
        ensures
            timer == self.bound(),
    {
        self.timer
    }

    /// Reports whether the deadline has come, without consulting a driver.
    ///
    /// A `true` result makes the future ready. Otherwise an unbound future has
    /// to be bound with [`Sleep::bind`], which needs a running runtime.
    pub fn poll_expired(&mut self, now: Instant) -> (ready: bool)
        requires
            old(self).wf(),
            now.wf(),
        ensures
            ready == (old(self).has_fired() || old(self).at().nanos() <= now.nanos()),
            final(self).at() == old(self).at(),
            final(self).bound() == old(self).bound(),
            final(self).has_fired() == ready,
    {
        if self.fired || !now.is_before(&self.deadline) {
            self.fired = true;
            true
        } else {
            false
        }
    }

    /// Registers an unbound future with a driver and stores its waiter there.
    ///
    /// The caller notifies the driver.
    pub fn bind<W>(&mut self, data: &mut TimerData<W>, waker: W) -> (result: Result<
        (),
        TimersExhausted,
    >)
        requires
            old(self).wf(),
            old(data)@.wf(),
            old(self).bound() is None,
        ensures
            final(data)@.wf(),
            final(self).at() == old(self).at(),
            final(self).has_fired() == old(self).has_fired(),
            if old(data).next_id == u64::MAX {
                &&& result == Err::<(), TimersExhausted>(TimersExhausted)
                &&& final(data)@ == old(data)@
                &&& final(self).bound() is None
            } else {
                &&& result == Ok::<(), TimersExhausted>(())
                &&& old(data)@.registered(old(self).at(), Some(waker), final(data)@)
                &&& final(self).bound() == Some(old(data).next_id)
            },
    {
        match data.register(self.deadline, Some(waker)) {
            Ok(id) => {
                self.timer = Some(id);
                Ok(())
            },
            Err(error) => Err(error),
        }
    }

    /// Polls a bound future: checks readiness or refreshes the waiter.
    pub fn poll_bound<W>(
        &mut self,
        data: &mut TimerData<W>,
        now: Instant,
        poller: Poller<W>,
    ) -> (polled: PollState<()>)
        requires
            old(self).wf(),
            old(data)@.wf(),
            now.wf(),
            old(self).bound() is Some,
        ensures
            final(data)@.wf(),
            final(self).at() == old(self).at(),
            final(self).bound() == old(self).bound(),
            final(self).has_fired() == old(self).expired(old(data)@, now),
            if old(self).expired(old(data)@, now) {
                polled == PollState::Ready(()) && final(data)@ == old(data)@
            } else {
                polled is Pending && final(data)@ == old(data)@.awaited(old(self).bound()->0, poller)
            },
    {
        let id: u64 = self.timer.unwrap();
        let fired = match data.states.get(id) {
            Some(state) => state.fired,
            None => false,
        };
        if self.fired || fired || !now.is_before(&self.deadline) {
            self.fired = true;
            return PollState::Ready(());
        }
        let ghost before = data@;
        if let Some(state) = data.states.remove(id) {
            let mut state = state;
            replace_waker(&mut state.waiter, poller);
            data.states.insert(id, state);
            proof {
                assert(data@.states =~= before.states.insert(id, state));
                assert forall|other: u64| #[trigger] data@.states.contains_key(other) implies other
                    < data@.next_id && (data@.states[other].fired == !data@.queued(other)) by {
                    assert(before.states.contains_key(other));
                }
            }
        } else {
            assert(data@ =~= before);
        }
        PollState::Pending
    }

    /// Cancels the timer of an abandoned future.
    ///
    /// Returns whether the driver has to be notified.
    pub fn release<W>(&mut self, data: &mut TimerData<W>) -> (notify: bool)
        requires
            old(data)@.wf(),
        ensures
            final(data)@.wf(),
            final(self).at() == old(self).at(),
            final(self).has_fired() == old(self).has_fired(),
            final(self).bound() is None,
            notify == (old(self).bound() is Some),
            final(data)@ == (match old(self).bound() {
                Some(id) => old(data)@.cancelled(id),
                None => old(data)@,
            }),
    {
        match self.timer.take() {
            Some(id) => {
                data.cancel(id);
                true
            },
            None => false,
        }
    }
}

/// Creates a future that completes at or after a monotonic `deadline`.
///
/// A deadline at or before the first poll completes immediately, even outside a
/// runtime.
pub fn sleep_until(deadline: Instant) -> (sleep: Sleep)
    ensures
        sleep.at() == deadline,
        !sleep.has_fired(),
        sleep.bound() is None,
{
    Sleep { deadline, fired: false, timer: None }
}

/// The deadline of a sleep that starts at `now`, in nanoseconds.
pub open spec fn sleep_deadline(now: Instant, duration: Duration) -> int {
    if now.nanos() + duration.nanos() < Instant::limit() {
        now.nanos() + duration.nanos()
    } else {
        now.nanos() + FAR_FUTURE_SECS * 1_000_000_000
    }
}

/// Supplies a representable deadline when the requested one is not.
///
/// One hundred years is distant enough to preserve the practical meaning of an
/// unrepresentable sleep.
pub fn far_future(now: Instant) -> (deadline: Instant)
    requires
        now.wf(),
        now.secs <= i64::MAX - FAR_FUTURE_SECS,
    ensures
        deadline.wf(),
        deadline.nanos() == now.nanos() + FAR_FUTURE_SECS * 1_000_000_000,
{
    Instant { secs: now.secs + (FAR_FUTURE_SECS as i64), subsec_nanos: now.subsec_nanos }
}

/// Creates a future that sleeps for at least `duration` from `now`.
///
/// Durations that cannot be added to the clock are clamped to an intentionally
/// distant deadline.
pub fn sleep(now: Instant, duration: Duration) -> (sleep: Sleep)
    requires
        now.wf(),
        duration.wf(),
        now.secs <= i64::MAX - FAR_FUTURE_SECS,
    ensures
        sleep.wf(),
        sleep.at().nanos() == sleep_deadline(now, duration),
        !sleep.has_fired(),
        sleep.bound() is None,
{
    let deadline = match now.checked_add(duration) {
        Some(deadline) => deadline,
        None => far_future(now),
    };
    sleep_until(deadline)
}

/// Error returned when [`timeout`] reaches its deadline first.
#[derive(Clone, Copy, Debug, PartialEq, Eq, Structural)]
pub struct Elapsed;

impl Elapsed {
    /// Describes the error.
    pub fn description(&self) -> (text: &'static str)
        ensures
            text@ == "deadline elapsed"@,
    {
        "deadline elapsed"
    }
}

/// Future racing an operation against a monotonic timer.
///
/// The operation is polled before the timer on every pass. If both become ready
/// in the same poll, the operation wins.
#[derive(Debug, PartialEq, Eq, Structural)]
pub struct Timeout {
    /// Timer for the deadline.
    pub sleep: Sleep,
}

/// Result of racing an operation against a timer.
pub open spec fn raced<T>(operation: PollState<T>, expired: bool) -> PollState<
    Result<T, Elapsed>,
> {
    match operation {
        PollState::Ready(output) => PollState::Ready(Ok(output)),
        PollState::Pending => if expired {
            PollState::Ready(Err(Elapsed))
        } else {
            PollState::Pending
        },
    }
}

/// Races an operation against a deadline `duration` after `now`.
pub fn timeout(now: Instant, duration: Duration) -> (timeout: Timeout)
    requires
        now.wf(),
        duration.wf(),
        now.secs <= i64::MAX - FAR_FUTURE_SECS,
    ensures
        timeout.sleep.wf(),
        timeout.sleep.at().nanos() == sleep_deadline(now, duration),
        !timeout.sleep.has_fired(),
        timeout.sleep.bound() is None,
{
    Timeout { sleep: sleep(now, duration) }
}

impl Timeout {
    /// Combines the operation's poll with the deadline, without a driver.
    ///
    /// The timer is left alone when the operation is ready.
    pub fn poll_expired<T>(&mut self, operation: PollState<T>, now: Instant) -> (polled: PollState<
        Result<T, Elapsed>,
    >)
        requires
            old(self).sleep.wf(),
            now.wf(),
        ensures
            polled == raced(
                operation,
                old(self).sleep.has_fired() || old(self).sleep.at().nanos() <= now.nanos(),
            ),
            if operation is Ready {
                *final(self) == *old(self)
            } else {
                final(self).sleep.has_fired() == (polled is Ready)
            },
            final(self).sleep.at() == old(self).sleep.at(),
            final(self).sleep.bound() == old(self).sleep.bound(),
    {
        match operation {
            PollState::Ready(output) => PollState::Ready(Ok(output)),
            PollState::Pending => if self.sleep.poll_expired(now) {
                PollState::Ready(Err(Elapsed))
            } else {
                PollState::Pending
            },
        }
    }

    /// Combines the operation's poll with that of the bound timer.
    pub fn poll_bound<T, W>(
        &mut self,
        operation: PollState<T>,
        data: &mut TimerData<W>,
        now: Instant,
        poller: Poller<W>,
    ) -> (polled: PollState<Result<T, Elapsed>>)
        requires
            old(self).sleep.wf(),
            old(data)@.wf(),
            now.wf(),
            old(self).sleep.bound() is Some,
        ensures
            final(data)@.wf(),
            final(self).sleep.at() == old(self).sleep.at(),
            final(self).sleep.bound() == old(self).sleep.bound(),
            polled == raced(operation, old(self).sleep.expired(old(data)@, now)),
            if operation is Ready {
                *final(self) == *old(self) && final(data)@ == old(data)@
            } else {
                &&& final(self).sleep.has_fired() == old(self).sleep.expired(old(data)@, now)
                &&& final(data)@ == (if old(self).sleep.expired(old(data)@, now) {
                    old(data)@
                } else {
                    old(data)@.awaited(old(self).sleep.bound()->0, poller)
                })
            },
    {
        match operation {
            PollState::Ready(output) => PollState::Ready(Ok(output)),
            PollState::Pending => match self.sleep.poll_bound(data, now, poller) {
                PollState::Ready(()) => PollState::Ready(Err(Elapsed)),
                PollState::Pending => PollState::Pending,
            },
        }
    }
}

/// A sleep is never ready before its deadline and always ready from it on.
pub proof fn lemma_sleep_lasts_its_duration(now: Instant, duration: Duration, later: Instant)
    requires
        now.wf(),
        duration.wf(),
        now.nanos() + duration.nanos() < Instant::limit(),
    ensures
        sleep_deadline(now, duration) <= later.nanos() <==> later.nanos() - now.nanos()
            >= duration.nanos(),
{
}

/// An operation that is ready wins over a deadline that has come.
pub proof fn lemma_ready_operation_wins<T>(output: T, expired: bool)
    ensures
        raced(PollState::Ready(output), expired) == PollState::<Result<T, Elapsed>>::Ready(
            Ok(output),
        ),
{
}

} // verus!
