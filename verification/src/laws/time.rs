//! Sleeping, timeouts and the timer driver.
use vstd::prelude::*;
use crate::clock::{Duration, Instant};
use crate::park::{DriverGate, DriverPark};
use crate::time::{
    far_future, sleep, sleep_until, timeout, Elapsed, Sleep, Timeout, TimerData, TimerEntry, TimerPass,
    TimerStep, TimersExhausted, FAR_FUTURE_SECS,
};
use crate::waker::{PollState, Poller};

verus! {

/// The clock counts whole seconds first, then nanoseconds below one second.
pub proof fn lemma_clock_orders_by_seconds(one: Instant, other: Instant, before: bool)
    requires
        one.wf(),
        other.wf(),
        call_ensures(Instant::is_before, (&one, &other), before),
    ensures
        one.subsec_nanos < 1_000_000_000,
        one.secs < other.secs ==> before,
        one.secs > other.secs ==> !before,
        one.secs == other.secs ==> before == (one.subsec_nanos < other.subsec_nanos),
        before <==> one.nanos() < other.nanos(),
{
}

/// Adding a span and measuring the time between give back the span, and a point
/// that is not later lies no time ahead.
pub proof fn lemma_span_between_is_the_span_added(
    start: Instant,
    span: Duration,
    end: Option<Instant>,
    measured: Duration,
    backwards: Duration,
)
    requires
        start.wf(),
        span.wf(),
        call_ensures(Instant::checked_add, (&start, span), end),
        end matches Some(end) ==> call_ensures(
            Instant::saturating_duration_since,
            (&end, start),
            measured,
        ) && call_ensures(Instant::saturating_duration_since, (&start, end), backwards),
    ensures
        end is None <==> start.secs + span.secs + (if start.subsec_nanos + span.subsec_nanos
            >= 1_000_000_000 {
            1int
        } else {
            0int
        }) > i64::MAX,
        end is Some ==> measured == span,
        end is Some ==> backwards.secs == 0 && backwards.subsec_nanos == 0,
{
}

/// Spans given in different units are the same where their lengths are.
pub proof fn lemma_units_agree(
    count: u64,
    secs: Duration,
    millis: Duration,
    micros: Duration,
    nanos: Duration,
    wait: u64,
    zero: bool,
)
    requires
        count <= 1_000_000_000,
        call_ensures(Duration::from_secs, (count,), secs),
        call_ensures(Duration::from_millis, ((count * 1_000) as u64,), millis),
        call_ensures(Duration::from_micros, ((count * 1_000_000) as u64,), micros),
        call_ensures(Duration::from_nanos, ((count * 1_000_000_000) as u64,), nanos),
        call_ensures(Duration::as_wait_nanos, (&secs,), wait),
        call_ensures(Duration::is_zero, (&secs,), zero),
    ensures
        secs.secs == count && secs.subsec_nanos == 0,
        millis == secs,
        micros == secs,
        nanos == secs,
        wait == count * 1_000_000_000,
        zero <==> count == 0,
{
}

/// A sleep is never ready early and never late: before its deadline it is pending,
/// from its deadline on it is ready, and once ready it stays ready.
pub proof fn lemma_sleep_is_ready_from_its_deadline_on(
    future: &mut Sleep,
    again: &mut Sleep,
    deadline: Instant,
    now: Instant,
    later: Instant,
    ready: bool,
    still: bool,
)
    requires
        old(future).wf(),
        now.wf(),
        later.wf(),
        !old(future).has_fired(),
        call_ensures(Sleep::deadline, (&*old(future),), deadline),
        call_ensures(Sleep::poll_expired, (future, now), ready),
        old(again).at() == final(future).at(),
        old(again).has_fired() == final(future).has_fired(),
        call_ensures(Sleep::poll_expired, (again, later), still),
    ensures
        now.secs < deadline.secs ==> !ready,
        now.secs > deadline.secs ==> ready,
        now.secs == deadline.secs ==> ready == (now.subsec_nanos >= deadline.subsec_nanos),
        ready ==> still,
        final(future).bound() == old(future).bound(),
{
}

/// A sleep that waits for a driver is ready exactly when its deadline has come or
/// the driver fired its timer. Until then the polling task takes the place of the
/// waiter.
pub proof fn lemma_bound_sleep_is_ready_from_its_deadline_on<W>(
    future: &mut Sleep,
    data: &mut TimerData<W>,
    deadline: Instant,
    now: Instant,
    poller: Poller<W>,
    polled: PollState<()>,
)
    requires
        old(future).wf(),
        old(data)@.wf(),
        now.wf(),
        old(future).bound() is Some,
        !old(future).has_fired(),
        call_ensures(Sleep::deadline, (&*old(future),), deadline),
        call_ensures(Sleep::poll_bound::<W>, (future, data, now, poller), polled),
    ensures
        ({
            let id = old(future).bound()->0;
            let before = old(data).states@;
            let driver_fired = before.contains_key(id) && before[id].fired;
            let reached = now.secs > deadline.secs || (now.secs == deadline.secs
                && now.subsec_nanos >= deadline.subsec_nanos);
            &&& polled is Ready <==> reached || driver_fired
            &&& final(future).has_fired() == polled is Ready
            &&& polled is Pending && before.contains_key(id) ==> {
                let state = final(data).states@[id];
                &&& final(data).states@.contains_key(id)
                &&& !state.fired
                &&& !poller.registered || before[id].waiter is None ==> state.waiter == Some(
                    poller.waker,
                )
                &&& poller.registered && before[id].waiter is Some ==> state.waiter
                    == before[id].waiter
            }
            &&& forall|other: u64|
                other != id ==> (#[trigger] final(data).states@.contains_key(other)
                    <==> before.contains_key(other)) && (before.contains_key(other)
                        ==> final(data).states@[other] == before[other])
            &&& final(data).timers@ == old(data).timers@
            &&& final(data).shutdown == old(data).shutdown
            &&& final(data).next_id == old(data).next_id
        }),
        final(future).bound() == old(future).bound(),
        final(future).at() == old(future).at(),
{
}

/// A sleep that has become ready stays ready.
pub proof fn lemma_fired_sleep_stays_ready<W>(
    future: &mut Sleep,
    data: &mut TimerData<W>,
    now: Instant,
    poller: Poller<W>,
    polled: PollState<()>,
)
    requires
        old(future).wf(),
        old(data)@.wf(),
        now.wf(),
        old(future).bound() is Some,
        old(future).has_fired(),
        call_ensures(Sleep::poll_bound::<W>, (future, data, now, poller), polled),
    ensures
        polled == PollState::Ready(()),
        final(future).has_fired(),
        final(data).states@ == old(data).states@,
        final(data).timers@ == old(data).timers@,
{
}

/// A sleep lasts at least as long as was asked for, and no longer than a poll
/// after that takes: it is ready exactly when the time since its creation is no
/// less than its duration. One that the clock cannot represent lasts a hundred
/// years.
pub proof fn lemma_sleep_lasts_exactly_its_duration(
    start: Instant,
    duration: Duration,
    created: Sleep,
    future: &mut Sleep,
    now: Instant,
    ready: bool,
)
    requires
        start.wf(),
        duration.wf(),
        now.wf(),
        start.secs <= i64::MAX - FAR_FUTURE_SECS,
        call_ensures(sleep, (start, duration), created),
        *old(future) == created,
        call_ensures(Sleep::poll_expired, (future, now), ready),
    ensures
        ({
            let passed = (now.secs - start.secs) * 1_000_000_000 + now.subsec_nanos
                - start.subsec_nanos;
            let asked = duration.secs * 1_000_000_000 + duration.subsec_nanos;
            let end = start.secs * 1_000_000_000 + start.subsec_nanos + asked;
            &&& end < (i64::MAX + 1) * 1_000_000_000 ==> (ready <==> passed >= asked)
            &&& end >= (i64::MAX + 1) * 1_000_000_000 ==> (ready <==> passed >= 100 * 365 * 24 * 60
                * 60 * 1_000_000_000)
        }),
        created.bound() is None,
{
}

/// The deadline of a sleep is the one it was created with.
pub proof fn lemma_deadline_is_kept(deadline: Instant, created: Sleep, read: Instant)
    requires
        call_ensures(sleep_until, (deadline,), created),
        call_ensures(Sleep::deadline, (&created,), read),
    ensures
        read == deadline,
        !created.has_fired(),
        created.bound() is None,
{
}

/// A timeout elapses only after its full duration, and only for an operation that
/// is not ready. An operation that is ready wins at any time.
pub proof fn lemma_timeout_elapses_after_its_duration<T>(
    start: Instant,
    duration: Duration,
    created: Timeout,
    race: &mut Timeout,
    operation: PollState<T>,
    now: Instant,
    polled: PollState<Result<T, Elapsed>>,
)
    requires
        start.wf(),
        duration.wf(),
        now.wf(),
        start.secs <= i64::MAX - FAR_FUTURE_SECS,
        start.secs * 1_000_000_000 + start.subsec_nanos + duration.secs * 1_000_000_000
            + duration.subsec_nanos < (i64::MAX + 1) * 1_000_000_000,
        call_ensures(timeout, (start, duration), created),
        *old(race) == created,
        call_ensures(Timeout::poll_expired::<T>, (race, operation, now), polled),
    ensures
        operation matches PollState::Ready(output) ==> polled == PollState::<
            Result<T, Elapsed>,
        >::Ready(Ok(output)) && *final(race) == *old(race),
        final(race).sleep.at() == created.sleep.at(),
        operation is Pending ==> {
            let passed = (now.secs - start.secs) * 1_000_000_000 + now.subsec_nanos
                - start.subsec_nanos;
            let asked = duration.secs * 1_000_000_000 + duration.subsec_nanos;
            &&& passed >= asked ==> polled == PollState::<Result<T, Elapsed>>::Ready(Err(Elapsed))
            &&& passed < asked ==> polled is Pending
        },
{
}

/// A timeout that waits for a driver elapses exactly when its deadline has come or
/// the driver fired its timer, and the operation is not ready.
pub proof fn lemma_bound_timeout_elapses_at_its_deadline<T, W>(
    race: &mut Timeout,
    operation: PollState<T>,
    data: &mut TimerData<W>,
    deadline: Instant,
    now: Instant,
    poller: Poller<W>,
    polled: PollState<Result<T, Elapsed>>,
)
    requires
        old(race).sleep.wf(),
        old(data)@.wf(),
        now.wf(),
        old(race).sleep.bound() is Some,
        !old(race).sleep.has_fired(),
        call_ensures(Sleep::deadline, (&old(race).sleep,), deadline),
        call_ensures(Timeout::poll_bound::<T, W>, (race, operation, data, now, poller), polled),
    ensures
        operation matches PollState::Ready(output) ==> polled == PollState::<
            Result<T, Elapsed>,
        >::Ready(Ok(output)) && *final(race) == *old(race) && final(data)@ == old(data)@,
        operation is Pending ==> {
            let id = old(race).sleep.bound()->0;
            let before = old(data).states@;
            let driver_fired = before.contains_key(id) && before[id].fired;
            let reached = now.secs > deadline.secs || (now.secs == deadline.secs
                && now.subsec_nanos >= deadline.subsec_nanos);
            &&& reached || driver_fired ==> polled == PollState::<Result<T, Elapsed>>::Ready(
                Err(Elapsed),
            )
            &&& !reached && !driver_fired ==> polled is Pending
            &&& polled is Pending && before.contains_key(id) && !poller.registered
                ==> final(data).states@[id].waiter == Some(poller.waker)
        },
{
}

/// A registered timer waits in the queue under a new identifier with its deadline
/// and its waiter, and disturbs no other timer. The queue stays in the order of
/// deadlines. After shutdown nothing is retained.
pub proof fn lemma_registered_timer_waits_in_order<W>(
    data: &mut TimerData<W>,
    deadline: Instant,
    waiter: Option<W>,
    id: Result<u64, TimersExhausted>,
)
    requires
        old(data)@.wf(),
        deadline.wf(),
        call_ensures(TimerData::<W>::register, (data, deadline, waiter), id),
    ensures
        id is Err <==> old(data).next_id == u64::MAX,
        id is Err ==> final(data).timers@ == old(data).timers@ && final(data).states@
            == old(data).states@,
        id is Ok ==> !old(data).states@.contains_key(id->Ok_0) && final(data).next_id == id->Ok_0 + 1,
        id is Ok && old(data).shutdown ==> final(data).timers@ == old(data).timers@
            && final(data).states@ == old(data).states@,
        id is Ok && !old(data).shutdown ==> {
            let new = TimerEntry { deadline, id: id->Ok_0 };
            &&& final(data).states@.contains_key(id->Ok_0)
            &&& !final(data).states@[id->Ok_0].fired
            &&& final(data).states@[id->Ok_0].waiter == waiter
            &&& final(data).timers@.contains(new)
            &&& final(data).timers@.len() == old(data).timers@.len() + 1
            &&& forall|entry: TimerEntry| #[trigger]
                old(data).timers@.contains(entry) ==> final(data).timers@.contains(entry)
            &&& forall|other: u64| #[trigger]
                old(data).states@.contains_key(other) ==> final(data).states@.contains_key(other)
                    && final(data).states@[other] == old(data).states@[other]
        },
        final(data).shutdown == old(data).shutdown,
        forall|i: int, j: int|
            0 <= i < j < final(data).timers@.len() ==> (
            #[trigger] final(data).timers@[i]).deadline.nanos() <= (
            #[trigger] final(data).timers@[j]).deadline.nanos(),
        forall|i: int, j: int|
            0 <= i < j < final(data).timers@.len() && (
            #[trigger] final(data).timers@[i]).deadline.nanos() == (
            #[trigger] final(data).timers@[j]).deadline.nanos() ==> final(data).timers@[i].id
                < final(data).timers@[j].id,
{
    if id is Ok && !old(data).shutdown {
        let new = TimerEntry { deadline, id: id->Ok_0 };
        let before = old(data).timers@;
        let after = final(data).timers@;
        let at = choose|i: int| 0 <= i <= before.len() && after == #[trigger] before.insert(i, new);
        assert(after[at] == new);
        assert forall|entry: TimerEntry| #[trigger] before.contains(entry) implies after.contains(
            entry,
        ) by {
            let k = before.index_of(entry);
            if k < at {
                assert(after[k] == entry);
            } else {
                assert(after[k + 1] == entry);
            }
        }
    }
    assert forall|i: int, j: int| 0 <= i < j < final(data).timers@.len() implies (
    #[trigger] final(data).timers@[i]).deadline.nanos() <= (
    #[trigger] final(data).timers@[j]).deadline.nanos() by {
        assert(final(data)@.timers[i].precedes(final(data)@.timers[j]));
    }
    assert forall|i: int, j: int|
        0 <= i < j < final(data).timers@.len() && (
        #[trigger] final(data).timers@[i]).deadline.nanos() == (
        #[trigger] final(data).timers@[j]).deadline.nanos() implies final(data).timers@[i].id
        < final(data).timers@[j].id by {
        assert(final(data)@.timers[i].precedes(final(data)@.timers[j]));
    }
    if old(data)@.states.contains_key(old(data).next_id) {
    }
}

/// A dropped timer is forgotten, and no other one is.
pub proof fn lemma_dropped_timer_is_forgotten<W>(
    future: &mut Sleep,
    data: &mut TimerData<W>,
    notify: bool,
)
    requires
        old(data)@.wf(),
        call_ensures(Sleep::release::<W>, (future, data), notify),
    ensures
        notify <==> old(future).bound() is Some,
        final(future).bound() is None,
        old(future).bound() matches Some(id) ==> !final(data).states@.contains_key(id),
        forall|other: u64|
            old(future).bound() != Some(other) ==> (#[trigger] final(data).states@.contains_key(other)
                <==> old(data).states@.contains_key(other)) && (old(data).states@.contains_key(other)
                ==> final(data).states@[other] == old(data).states@[other]),
        final(data).timers@ == old(data).timers@,
{
}

/// A sleep bound to a driver is woken by the first pass from its deadline on, and
/// by none before: until then the driver waits no longer than to the deadline.
pub proof fn lemma_bound_sleep_is_woken_at_its_deadline<W>(
    future: &mut Sleep,
    data: &mut TimerData<W>,
    later: &mut TimerData<W>,
    waker: W,
    bound: Result<(), TimersExhausted>,
    now: Instant,
    pass: TimerPass<W>,
)
    requires
        old(future).wf(),
        old(data)@.wf(),
        old(future).bound() is None,
        !old(data).shutdown,
        old(data).next_id < u64::MAX,
        call_ensures(Sleep::bind::<W>, (future, data, waker), bound),
        now.wf(),
        old(later)@ == final(data)@,
        call_ensures(TimerData::<W>::pass, (later, now), pass),
    ensures
        bound is Ok,
        final(future).bound() is Some,
        ({
            let id = final(future).bound()->0;
            &&& final(later).states@.contains_key(id)
            &&& final(later).states@[id].fired <==> now.nanos() >= old(future).at().nanos()
            &&& now.nanos() >= old(future).at().nanos() ==> pass.wakes@.contains(waker)
            &&& now.nanos() < old(future).at().nanos() ==> {
                &&& final(later).states@[id].waiter == Some(waker)
                &&& pass.wait is Some
                &&& now.nanos() + pass.wait->0.nanos() <= old(future).at().nanos()
            }
        }),
{
    let view = old(later)@;
    let id = final(future).bound()->0;
    let new = TimerEntry { deadline: old(future).at(), id };
    let before = old(data).timers@;
    let at = choose|i: int|
        0 <= i <= before.len() && view.timers == #[trigger] before.insert(i, new);
    assert(view.timers[at] == new);
    assert(view.states.contains_key(id));
    assert(!view.stale(at));
    view.lemma_driver_turn(now, pass.wait);
    view.lemma_due_waiters_are_woken(now);
    view.lemma_wait_is_earliest(now);
    assert(view.passed(now).states.dom().contains(id));
    if now.nanos() >= old(future).at().nanos() {
        assert(view.due(at, now));
    }
}

/// A pass fires exactly the live timers whose deadline has come. It takes their
/// waiters and no others, leaves every other timer as it was, and tells how long
/// nothing is due.
pub proof fn lemma_pass_fires_exactly_the_due<W>(
    data: &mut TimerData<W>,
    now: Instant,
    pass: TimerPass<W>,
    i: int,
)
    requires
        old(data)@.wf(),
        !old(data).shutdown,
        now.wf(),
        call_ensures(TimerData::<W>::pass, (data, now), pass),
        0 <= i < old(data).timers@.len(),
        old(data).states@.contains_key(old(data).timers@[i].id),
    ensures
        ({
            let entry = old(data).timers@[i];
            let before = old(data).states@[entry.id];
            &&& final(data).states@.contains_key(entry.id)
            &&& entry.deadline.nanos() <= now.nanos() ==> {
                &&& final(data).states@[entry.id].fired
                &&& final(data).states@[entry.id].waiter is None
                &&& !final(data).timers@.contains(entry)
                &&& before.waiter matches Some(waker) ==> pass.wakes@.contains(waker)
            }
            &&& entry.deadline.nanos() > now.nanos() ==> {
                &&& final(data).states@[entry.id] == before
                &&& final(data).timers@.contains(entry)
                &&& pass.wait is Some
                &&& now.nanos() + pass.wait->0.nanos() <= entry.deadline.nanos()
            }
        }),
        final(data).shutdown == old(data).shutdown,
        forall|waker: W| #[trigger]
            pass.wakes@.contains(waker) ==> exists|j: int|
                #![trigger old(data).timers@[j]]
                0 <= j < old(data).timers@.len() && old(data).states@.contains_key(
                    old(data).timers@[j].id,
                ) && old(data).timers@[j].deadline.nanos() <= now.nanos()
                    && old(data).states@[old(data).timers@[j].id].waiter == Some(waker),
        pass.wakes@.len() <= old(data).timers@.len(),
{
    let view = old(data)@;
    view.lemma_driver_turn(now, pass.wait);
    view.lemma_due_waiters_are_woken(now);
    view.lemma_wait_is_earliest(now);
    assert(!view.stale(i));
    let entry = view.timers[i];
    assert(view.passed(now).states.dom().contains(entry.id));
    if entry.deadline.nanos() <= now.nanos() {
        assert(view.due(i, now));
        if final(data).timers@.contains(entry) {
            let k = final(data).timers@.index_of(entry);
            assert(view.passed(now).timers[k].deadline.nanos() > now.nanos());
        }
    }
    assert forall|waker: W| #[trigger] pass.wakes@.contains(waker) implies exists|j: int|
        #![trigger old(data).timers@[j]]
        0 <= j < old(data).timers@.len() && old(data).states@.contains_key(
            old(data).timers@[j].id,
        ) && old(data).timers@[j].deadline.nanos() <= now.nanos()
            && old(data).states@[old(data).timers@[j].id].waiter == Some(waker) by {
        let j = choose|j: int| #[trigger]
            view.due(j, now) && view.states[view.timers[j].id].waiter == Some(waker);
        assert(old(data).timers@[j] == view.timers[j]);
    }
    let owes = |entry: TimerEntry| view.owes_wake(entry, now);
    broadcast use vstd::seq_lib::group_filter_ensures;
    assert(view.timers.filter(owes).len() <= view.timers.len());
}

/// The driver stops exactly when shutdown was requested and nothing is queued.
/// Otherwise it goes on at once if shutdown or other work is pending, waits if it
/// was told how long, and else pauses.
pub proof fn lemma_driver_goes_on_until_drained<W, R>(
    data: TimerData<W>,
    gate: &mut DriverGate<R>,
    wait: Option<Duration>,
    step: TimerStep,
)
    requires
        old(gate).wf(),
        old(gate).raw is Some,
        old(gate).phase == DriverPark::Running,
        call_ensures(TimerData::<W>::after_pass::<R>, (&data, gate, wait), step),
    ensures
        step is Stop <==> data.shutdown && data.timers@.len() == 0,
        step is Stop <==> final(gate).phase == DriverPark::Terminal,
        data.shutdown && data.timers@.len() > 0 ==> step is Continue && final(gate).phase
            == DriverPark::Running,
        !data.shutdown && old(gate).notified ==> step is Continue && final(gate).phase
            == DriverPark::Running && !final(gate).notified,
        !data.shutdown && !old(gate).notified ==> {
            &&& wait matches Some(span) ==> step == TimerStep::Wait(span) && final(gate).phase
                == DriverPark::DeadlineWait
            &&& wait is None ==> step is Pause && final(gate).phase == DriverPark::Paused
        },
        final(gate).raw == old(gate).raw,
{
}

/// A shutdown pass drops every waiting timer without waking anyone, and keeps the
/// timers that have fired. Then the driver stops.
pub proof fn lemma_shutdown_drops_waiting_timers<W, R>(
    data: &mut TimerData<W>,
    closing: &mut TimerData<W>,
    now: Instant,
    pass: TimerPass<W>,
    gate: &mut DriverGate<R>,
    step: TimerStep,
)
    requires
        old(data)@.wf(),
        now.wf(),
        call_ensures(TimerData::<W>::begin_shutdown, (data,), ()),
        old(closing)@ == final(data)@,
        call_ensures(TimerData::<W>::pass, (closing, now), pass),
        old(gate).wf(),
        old(gate).raw is Some,
        call_ensures(
            TimerData::<W>::after_pass::<R>,
            (&*final(closing), gate, pass.wait),
            step,
        ),
    ensures
        final(data).shutdown,
        final(data).timers@ == old(data).timers@,
        final(data).states@ == old(data).states@,
        pass.wakes@.len() == 0,
        pass.wait is None,
        final(closing).timers@.len() == 0,
        forall|i: int|
            0 <= i < old(data).timers@.len() ==> !final(closing).states@.contains_key(
                (#[trigger] old(data).timers@[i]).id,
            ),
        forall|id: u64| #[trigger]
            old(data).states@.contains_key(id) && old(data).states@[id].fired
                ==> final(closing).states@.contains_key(id) && final(closing).states@[id]
                    == old(data).states@[id],
        step is Stop,
{
    let view = old(closing)@;
    view.lemma_shutdown_pass_drops_all();
    assert forall|i: int| 0 <= i < old(data).timers@.len() implies !final(closing).states@.contains_key((#[trigger] old(data).timers@[i]).id) by {
        assert(view.timers[i] == old(data).timers@[i]);
    }
}

/// A new collection waits for nothing and runs.
pub proof fn lemma_new_collection_is_empty<W>(data: TimerData<W>, id: u64)
    requires
        call_ensures(TimerData::<W>::new, (), data),
    ensures
        data@.wf(),
        data@.timers.len() == 0,
        !data@.states.contains_key(id),
        !data@.shutdown,
        data@.next_id == 1,
{
}

/// A cancelled timer is forgotten, and no other timer is disturbed.
pub proof fn lemma_cancelled_timer_is_forgotten<W>(data: &mut TimerData<W>, id: u64, other: u64)
    requires
        old(data)@.wf(),
        call_ensures(TimerData::<W>::cancel, (data, id), ()),
    ensures
        !final(data)@.states.contains_key(id),
        other != id ==> (final(data)@.states.contains_key(other)
            <==> old(data)@.states.contains_key(other)),
        other != id && old(data)@.states.contains_key(other) ==> final(data)@.states[other]
            == old(data)@.states[other],
        final(data)@.timers == old(data)@.timers,
        final(data)@.shutdown == old(data)@.shutdown,
        final(data)@.next_id == old(data)@.next_id,
{
}

/// A deadline that the clock cannot hold is moved to one hundred years from now.
pub proof fn lemma_unreachable_deadline_is_far_away(
    now: Instant,
    duration: Duration,
    sum: Option<Instant>,
    far: Instant,
    slept: Sleep,
    deadline: Instant,
)
    requires
        now.wf(),
        duration.wf(),
        now.secs <= i64::MAX - 3_153_600_000,
        call_ensures(Instant::checked_add, (&now, duration), sum),
        call_ensures(far_future, (now,), far),
        call_ensures(sleep, (now, duration), slept),
        call_ensures(Sleep::deadline, (&slept,), deadline),
    ensures
        far.secs == now.secs + 100 * 365 * 24 * 60 * 60,
        far.subsec_nanos == now.subsec_nanos,
        sum matches Some(sum) ==> deadline == sum,
        sum is None ==> deadline == far,
{
    if sum is Some {
        deadline.lemma_nanos_injective(sum->0);
    }
    if sum is None {
        deadline.lemma_nanos_injective(far);
    }
}

/// A pass tells the driver to wait exactly to the earliest deadline of a live timer
/// that is still to come, and to wait for a notification only if there is none.
pub proof fn lemma_driver_waits_to_the_earliest_deadline<W>(
    data: &mut TimerData<W>,
    now: Instant,
    pass: TimerPass<W>,
    i: int,
)
    requires
        old(data)@.wf(),
        !old(data).shutdown,
        now.wf(),
        call_ensures(TimerData::<W>::pass, (data, now), pass),
    ensures
        pass.wait matches Some(span) ==> {
            &&& span.secs > 0 || span.subsec_nanos > 0
            &&& span.subsec_nanos < 1_000_000_000
            &&& exists|j: int|
                0 <= j < old(data).timers@.len() && old(data).states@.contains_key(
                    (#[trigger] old(data).timers@[j]).id,
                ) && old(data).timers@[j].deadline.nanos() == now.nanos() + span.nanos()
            &&& 0 <= i < old(data).timers@.len() && old(data).states@.contains_key(
                old(data).timers@[i].id,
            ) && old(data).timers@[i].deadline.nanos() > now.nanos()
                ==> old(data).timers@[i].deadline.nanos() >= now.nanos() + span.nanos()
        },
        pass.wait is None && 0 <= i < old(data).timers@.len() && old(data).states@.contains_key(
            old(data).timers@[i].id,
        ) ==> old(data).timers@[i].deadline.nanos() <= now.nanos(),
{
    let view = old(data)@;
    view.lemma_wait_is_earliest(now);
    if pass.wait is Some {
        let j = choose|j: int|
            0 <= j < view.timers.len() && view.states.contains_key((#[trigger] view.timers[j]).id)
                && view.timers[j].deadline.nanos() == now.nanos() + view.wait(now)->0;
        assert(old(data).timers@[j] == view.timers[j]);
    }
    if 0 <= i < old(data).timers@.len() {
        assert(old(data).timers@[i] == view.timers[i]);
    }
}

/// No time is no time, and nothing else is.
pub proof fn lemma_zero_is_no_time(zero: Duration, none: bool, some: Duration, other: bool)
    requires
        call_ensures(Duration::zero, (), zero),
        call_ensures(Duration::is_zero, (&zero,), none),
        call_ensures(Duration::is_zero, (&some,), other),
    ensures
        zero.secs == 0 && zero.subsec_nanos == 0,
        none,
        other <==> some.secs == 0 && some.subsec_nanos == 0,
{
}

/// The waiters of a pass are woken in the order of the queue, each once: they are
/// the waiters of the live timers whose deadline has come, and nobody else.
pub proof fn lemma_waiters_are_woken_in_order<W>(
    data: &mut TimerData<W>,
    now: Instant,
    pass: TimerPass<W>,
)
    requires
        old(data)@.wf(),
        !old(data).shutdown,
        now.wf(),
        call_ensures(TimerData::<W>::pass, (data, now), pass),
    ensures
        ({
            let states = old(data).states@;
            pass.wakes@ == old(data).timers@.filter(
                |entry: TimerEntry|
                    states.contains_key(entry.id) && states[entry.id].waiter is Some
                        && entry.deadline.nanos() <= now.nanos(),
            ).map_values(|entry: TimerEntry| states[entry.id].waiter->0)
        }),
{
    let view = old(data)@;
    view.lemma_driver_turn(now, pass.wait);
    let states = old(data).states@;
    let owed = |entry: TimerEntry|
        states.contains_key(entry.id) && states[entry.id].waiter is Some && entry.deadline.nanos()
            <= now.nanos();
    assert(owed =~= |entry: TimerEntry| view.owes_wake(entry, now));
}

} // verus!
