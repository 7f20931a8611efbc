//! Waking, aborting, running and joining tasks.
use vstd::prelude::*;
use crate::error::{JoinError, NativeError};
use crate::task::{
    after_destroy, after_poll, after_suspend, begin_run, finish_run, force_panic, with_current,
    yield_now, AbortHandle, AbortRequest, CurrentTask, Ending, Finish, GateViolation, JoinHandle,
    JoinInner, NativeGate, NativePhase, Polled, StoredTwice, TaskBuilder, TerminalKind,
    YieldNow,
};
use crate::topology::{CpuId, NumaNodeId};
use crate::waker::{PollState, Poller};

verus! {

/// A wake of a live task leaves exactly one submission in flight: it submits the
/// task's own descriptor unless one is in flight already. A wake changes nothing
/// else, and a task that is out of reach or not live is left alone.
pub proof fn lemma_wake_submits_once<R: Copy>(
    gate: &mut NativeGate<R>,
    reachable: bool,
    submit: Option<R>,
)
    requires
        old(gate).wf(),
        call_ensures(NativeGate::<R>::schedule, (gate, reachable), submit),
    ensures
        reachable && old(gate).phase == NativePhase::Live ==> {
            &&& final(gate).wake_submitted
            &&& old(gate).wake_submitted ==> submit is None
            &&& !old(gate).wake_submitted ==> submit is Some && submit == old(gate).task
        },
        !reachable || old(gate).phase != NativePhase::Live ==> submit is None && *final(gate)
            == *old(gate),
        final(gate).task == old(gate).task,
        final(gate).phase == old(gate).phase,
        final(gate).polling == old(gate).polling,
        final(gate).cancel_requested == old(gate).cancel_requested,
{
}

/// However many wakes follow each other, only the first one submits; a wake after
/// the callback began to poll submits again, so that no wake is lost.
pub proof fn lemma_wake_after_poll_began_submits_again<R: Copy>(
    first: &mut NativeGate<R>,
    second: &mut NativeGate<R>,
    begun: &mut NativeGate<R>,
    third: &mut NativeGate<R>,
    submits: (Option<R>, Option<R>, Option<R>),
    poll: Result<bool, GateViolation>,
)
    requires
        old(first).wf(),
        old(first).phase == NativePhase::Live,
        !old(first).polling,
        !old(first).cancel_requested,
        call_ensures(NativeGate::<R>::schedule, (first, true), submits.0),
        *old(second) == *final(first),
        call_ensures(NativeGate::<R>::schedule, (second, true), submits.1),
        *old(begun) == *final(second),
        call_ensures(NativeGate::<R>::start_poll, (begun,), poll),
        *old(third) == *final(begun),
        call_ensures(NativeGate::<R>::schedule, (third, true), submits.2),
    ensures
        submits.1 is None,
        poll == Ok::<bool, GateViolation>(true),
        submits.2 is Some,
        submits.2 == old(first).task,
{
}

/// An abort request of a live task takes effect exactly once. The one that does
/// makes sure that a submission is in flight, so that an idle task observes it.
pub proof fn lemma_abort_takes_effect_once<R: Copy>(
    gate: &mut NativeGate<R>,
    again: &mut NativeGate<R>,
    reachable: bool,
    request: AbortRequest<R>,
    repeated: AbortRequest<R>,
)
    requires
        old(gate).wf(),
        call_ensures(NativeGate::<R>::request_abort, (gate, reachable), request),
        *old(again) == *final(gate),
        call_ensures(NativeGate::<R>::request_abort, (again, reachable), repeated),
    ensures
        reachable && old(gate).phase == NativePhase::Live ==> {
            &&& final(gate).cancel_requested
            &&& request.installed == !old(gate).cancel_requested
            &&& request.installed ==> final(gate).wake_submitted
            &&& request.installed && !old(gate).wake_submitted ==> request.submit is Some
                && request.submit == old(gate).task
        },
        !reachable || old(gate).phase != NativePhase::Live || old(gate).cancel_requested ==> {
            &&& !request.installed
            &&& *final(gate) == *old(gate)
        },
        !request.installed || old(gate).wake_submitted ==> request.submit is None,
        final(gate).phase == old(gate).phase,
        final(gate).task == old(gate).task,
        final(gate).polling == old(gate).polling,
        !repeated.installed,
        repeated.submit is None,
        *final(again) == *final(gate),
{
}

/// Both handles of a task request the same cancellation.
pub proof fn lemma_handles_abort_alike<R: Copy>(
    join: JoinHandle,
    handle: AbortHandle,
    one: &mut NativeGate<R>,
    other: &mut NativeGate<R>,
    reachable: bool,
    by_join: AbortRequest<R>,
    by_handle: AbortRequest<R>,
)
    requires
        call_ensures(JoinHandle::abort_handle, (&join,), handle),
        old(one).wf(),
        *old(one) == *old(other),
        call_ensures(JoinHandle::abort::<R>, (&join, one, reachable), by_join),
        call_ensures(AbortHandle::abort::<R>, (&handle, other, reachable), by_handle),
    ensures
        handle.id == join.id,
        by_join == by_handle,
        *final(one) == *final(other),
        by_join.installed == (reachable && old(one).phase == NativePhase::Live
            && !old(one).cancel_requested),
        by_join.installed ==> final(one).cancel_requested,
{
}

/// A callback enters a poll only of a live task that nobody polls, and consumes
/// the submission that entered it. A task that was asked to cancel ends without
/// being polled.
pub proof fn lemma_poll_begins_on_a_live_task<R>(
    gate: &mut NativeGate<R>,
    poll: Result<bool, GateViolation>,
)
    requires
        old(gate).wf(),
        call_ensures(NativeGate::<R>::start_poll, (gate,), poll),
    ensures
        poll is Ok <==> old(gate).phase == NativePhase::Live && !old(gate).polling,
        poll is Err ==> *final(gate) == *old(gate),
        poll is Ok ==> !final(gate).wake_submitted && final(gate).task == old(gate).task
            && final(gate).cancel_requested == old(gate).cancel_requested,
        poll == Ok::<bool, GateViolation>(true) ==> {
            &&& !old(gate).cancel_requested
            &&& final(gate).polling
            &&& final(gate).phase == NativePhase::Live
        },
        poll == Ok::<bool, GateViolation>(false) ==> {
            &&& old(gate).cancel_requested
            &&& !final(gate).polling
            &&& final(gate).phase == NativePhase::Terminal(TerminalKind::Cancelled)
        },
{
}

/// A task keeps its descriptor through a poll. It stays live only if it is pending
/// and nobody asked it to cancel; a wake during the poll stays in flight.
pub proof fn lemma_poll_ends_as_it_returned<R>(
    pending: &mut NativeGate<R>,
    terminal: &mut NativeGate<R>,
    kind: TerminalKind,
    suspend: Result<bool, GateViolation>,
    won: Result<bool, GateViolation>,
)
    requires
        old(pending).wf(),
        old(pending).phase == NativePhase::Live,
        old(pending).polling,
        *old(terminal) == *old(pending),
        call_ensures(NativeGate::<R>::finish_pending, (pending,), suspend),
        call_ensures(NativeGate::<R>::finish_terminal, (terminal, kind), won),
    ensures
        suspend == won,
        suspend == Ok::<bool, GateViolation>(!old(pending).cancel_requested),
        !final(pending).polling && !final(terminal).polling,
        final(pending).task == old(pending).task && final(terminal).task == old(pending).task,
        final(pending).wake_submitted == old(pending).wake_submitted,
        final(terminal).wake_submitted == old(pending).wake_submitted,
        final(pending).cancel_requested == old(pending).cancel_requested,
        final(terminal).cancel_requested == old(pending).cancel_requested,
        old(pending).cancel_requested ==> {
            &&& final(pending).phase == NativePhase::Terminal(TerminalKind::Cancelled)
            &&& final(terminal).phase == NativePhase::Terminal(TerminalKind::Cancelled)
        },
        !old(pending).cancel_requested ==> {
            &&& final(pending).phase == NativePhase::Live
            &&& final(terminal).phase == NativePhase::Terminal(kind)
        },
{
}

/// A poll can only be left by a callback that is inside one.
pub proof fn lemma_poll_ends_only_inside_one<R>(
    pending: &mut NativeGate<R>,
    terminal: &mut NativeGate<R>,
    kind: TerminalKind,
    suspend: Result<bool, GateViolation>,
    won: Result<bool, GateViolation>,
)
    requires
        old(pending).wf(),
        *old(terminal) == *old(pending),
        call_ensures(NativeGate::<R>::finish_pending, (pending,), suspend),
        call_ensures(NativeGate::<R>::finish_terminal, (terminal, kind), won),
    ensures
        suspend is Err <==> !old(pending).polling,
        won is Err <==> !old(pending).polling,
        suspend is Err ==> *final(pending) == *old(pending) && *final(terminal) == *old(terminal),
{
}

/// A terminal reason may be replaced, but no task becomes live or terminal that
/// way, and nothing else changes.
pub proof fn lemma_replacement_revives_nothing<R>(
    gate: &mut NativeGate<R>,
    kind: TerminalKind,
    suspended: &mut NativeGate<R>,
)
    requires
        old(gate).wf(),
        call_ensures(NativeGate::<R>::replace_terminal, (gate, kind), ()),
        old(suspended).wf(),
        !old(suspended).polling,
        call_ensures(NativeGate::<R>::suspend_failed, (suspended,), ()),
    ensures
        old(gate).phase is Terminal ==> final(gate).phase == NativePhase::Terminal(kind),
        !(old(gate).phase is Terminal) ==> final(gate).phase == old(gate).phase,
        *final(gate) == (NativeGate { phase: final(gate).phase, ..*old(gate) }),
        old(suspended).phase == NativePhase::Live ==> final(suspended).phase
            == NativePhase::Terminal(TerminalKind::RuntimeError),
        old(suspended).phase != NativePhase::Live ==> final(suspended).phase == old(suspended).phase,
        *final(suspended) == (NativeGate { phase: final(suspended).phase, ..*old(suspended) }),
{
}

/// A descriptor is released for destruction exactly once, and only by a terminal
/// task.
pub proof fn lemma_descriptor_is_released_once<R>(
    gate: &mut NativeGate<R>,
    again: &mut NativeGate<R>,
    raw: Result<R, NativeError>,
    repeated: Result<R, NativeError>,
)
    requires
        old(gate).wf(),
        call_ensures(NativeGate::<R>::retire, (gate,), raw),
        *old(again) == *final(gate),
        call_ensures(NativeGate::<R>::retire, (again,), repeated),
    ensures
        raw is Ok <==> old(gate).phase is Terminal,
        raw matches Ok(released) ==> {
            &&& old(gate).task == Some(released)
            &&& final(gate).task is None
            &&& final(gate).phase == NativePhase::Destroying
        },
        raw matches Err(error) ==> error == NativeError::InvalidOperation && *final(gate) == *old(gate),
        repeated == Err::<R, NativeError>(NativeError::InvalidOperation),
        *final(again) == *final(gate),
{
}

/// An installed descriptor is live with its submission in flight. A submission
/// that failed gives the same descriptor back, and the task is gone.
pub proof fn lemma_failed_submission_returns_the_descriptor<R>(
    gate: &mut NativeGate<R>,
    back: &mut NativeGate<R>,
    descriptor: R,
    raw: Option<R>,
)
    requires
        old(gate).wf(),
        old(gate).phase == NativePhase::Building,
        call_ensures(NativeGate::<R>::install, (gate, descriptor), ()),
        *old(back) == *final(gate),
        call_ensures(NativeGate::<R>::rollback, (back,), raw),
    ensures
        final(gate).phase == NativePhase::Live,
        final(gate).wake_submitted,
        final(gate).task == Some(descriptor),
        final(gate).cancel_requested == old(gate).cancel_requested,
        raw == Some(descriptor),
        final(back).task is None,
        final(back).phase == NativePhase::Destroyed,
{
}

/// A task that nobody asked to cancel joins with what its future did: its output,
/// or the panic of its poll. A panic of its destructor replaces either. An output
/// is handed to the joiner or discarded, never both and never neither.
pub proof fn lemma_uncancelled_task_joins_with_its_outcome<R, T, P>(
    gate: &mut NativeGate<R>,
    ended: &mut NativeGate<R>,
    polled: Polled<T, P>,
    ending: Result<Option<Ending<T, P>>, GateViolation>,
    drop_panic: Option<P>,
    finish: Finish<T, P>,
)
    requires
        old(gate).wf(),
        old(gate).phase == NativePhase::Live,
        old(gate).polling,
        !old(gate).cancel_requested,
        call_ensures(after_poll::<R, T, P>, (gate, polled), ending),
        ending matches Ok(Some(_)),
        *old(ended) == *final(gate),
        call_ensures(finish_run::<R, T, P>, (ended, ending->Ok_0->0, drop_panic), finish),
    ensures
        !(polled is Pending),
        polled matches Polled::Ready(output) ==> {
            &&& drop_panic is None ==> finish.result == Ok::<T, JoinError<P>>(output)
                && finish.discarded is None && final(ended).phase == NativePhase::Terminal(
                TerminalKind::Ready,
            )
            &&& drop_panic matches Some(payload) ==> finish.result == Err::<T, JoinError<P>>(
                JoinError::Panic(payload),
            ) && finish.discarded == Some(output) && final(ended).phase == NativePhase::Terminal(
                TerminalKind::Panicked,
            )
        },
        polled matches Polled::Panicked(payload) ==> {
            &&& finish.discarded is None
            &&& final(ended).phase == NativePhase::Terminal(TerminalKind::Panicked)
            &&& drop_panic is None ==> finish.result == Err::<T, JoinError<P>>(
                JoinError::Panic(payload),
            )
            &&& drop_panic matches Some(later) ==> finish.result == Err::<T, JoinError<P>>(
                JoinError::Panic(later),
            )
        },
        final(ended).task == old(gate).task,
{
}

/// A task that was asked to cancel while it was polled joins as cancelled,
/// whatever its poll or its destructor did, and its output is discarded.
pub proof fn lemma_cancelled_task_joins_as_cancelled<R, T, P>(
    gate: &mut NativeGate<R>,
    ended: &mut NativeGate<R>,
    polled: Polled<T, P>,
    ending: Result<Option<Ending<T, P>>, GateViolation>,
    drop_panic: Option<P>,
    finish: Finish<T, P>,
)
    requires
        old(gate).wf(),
        old(gate).phase == NativePhase::Live,
        old(gate).polling,
        old(gate).cancel_requested,
        call_ensures(after_poll::<R, T, P>, (gate, polled), ending),
        ending matches Ok(Some(_)),
        *old(ended) == *final(gate),
        call_ensures(finish_run::<R, T, P>, (ended, ending->Ok_0->0, drop_panic), finish),
    ensures
        finish.result == Err::<T, JoinError<P>>(JoinError::Cancelled),
        polled matches Polled::Ready(output) ==> finish.discarded == Some(output),
        !(polled is Ready) ==> finish.discarded is None,
        final(ended).phase == NativePhase::Terminal(TerminalKind::Cancelled),
{
}

/// A poll lets the task go on exactly if it is pending and nobody asked it to
/// cancel. Otherwise it ends.
pub proof fn lemma_task_ends_unless_pending<R, T, P>(
    gate: &mut NativeGate<R>,
    polled: Polled<T, P>,
    ending: Result<Option<Ending<T, P>>, GateViolation>,
)
    requires
        old(gate).wf(),
        call_ensures(after_poll::<R, T, P>, (gate, polled), ending),
    ensures
        ending is Ok <==> old(gate).polling,
        ending is Err ==> *final(gate) == *old(gate),
        ending is Ok ==> (ending->Ok_0 is None <==> polled is Pending && !old(gate).cancel_requested),
        ending matches Ok(None) ==> final(gate).phase == NativePhase::Live && !final(gate).polling,
        ending matches Ok(Some(_)) ==> final(gate).phase is Terminal,
{
}

/// Before its first poll a task ends only if it was asked to cancel or its runtime
/// is gone, and says which; cancellation comes first.
pub proof fn lemma_run_begins_with_a_poll<R, T, P>(
    gate: &mut NativeGate<R>,
    ended: &mut NativeGate<R>,
    runtime_alive: bool,
    ending: Result<Option<Ending<T, P>>, GateViolation>,
    drop_panic: Option<P>,
    finish: Finish<T, P>,
)
    requires
        old(gate).wf(),
        call_ensures(begin_run::<R, T, P>, (gate, runtime_alive), ending),
        *old(ended) == *final(gate),
        ending matches Ok(Some(end)) ==> call_ensures(
            finish_run::<R, T, P>,
            (ended, end, drop_panic),
            finish,
        ),
    ensures
        ending is Ok <==> old(gate).phase == NativePhase::Live && !old(gate).polling,
        ending is Err ==> *final(gate) == *old(gate),
        ending is Ok ==> (ending->Ok_0 is None <==> !old(gate).cancel_requested && runtime_alive),
        ending matches Ok(None) ==> final(gate).phase == NativePhase::Live && final(gate).polling
            && !final(gate).wake_submitted,
        ending matches Ok(Some(_)) ==> {
            &&& finish.discarded is None
            &&& final(gate).phase is Terminal
            &&& old(gate).cancel_requested ==> finish.result == Err::<T, JoinError<P>>(
                JoinError::Cancelled,
            )
            &&& !old(gate).cancel_requested ==> finish.result == Err::<T, JoinError<P>>(
                JoinError::Runtime(NativeError::InvalidOperation),
            )
        },
{
}

/// A task that was suspended goes on. One that could not be suspended joins with
/// the native error.
pub proof fn lemma_failed_suspension_ends_the_task<R, T, P>(
    gate: &mut NativeGate<R>,
    ended: &mut NativeGate<R>,
    suspended: Result<(), NativeError>,
    ending: Option<Ending<T, P>>,
    drop_panic: Option<P>,
    finish: Finish<T, P>,
)
    requires
        old(gate).wf(),
        old(gate).phase == NativePhase::Live,
        !old(gate).polling,
        call_ensures(after_suspend::<R, T, P>, (gate, suspended), ending),
        *old(ended) == *final(gate),
        ending matches Some(end) ==> call_ensures(
            finish_run::<R, T, P>,
            (ended, end, drop_panic),
            finish,
        ),
    ensures
        suspended is Ok ==> ending is None && *final(gate) == *old(gate),
        suspended matches Err(error) ==> {
            &&& ending is Some
            &&& finish.result == Err::<T, JoinError<P>>(JoinError::Runtime(error))
            &&& finish.discarded is None
            &&& final(ended).phase == NativePhase::Terminal(TerminalKind::RuntimeError)
        },
{
}

/// The joiner receives the stored result, once it is published and not before.
pub proof fn lemma_join_returns_the_stored_result<T, P, W>(
    stored: &mut JoinInner<T, P, W>,
    early: &mut JoinInner<T, P, W>,
    published: &mut JoinInner<T, P, W>,
    late: &mut JoinInner<T, P, W>,
    result: Result<T, JoinError<P>>,
    storing: Result<(), StoredTwice>,
    pollers: (Poller<W>, Poller<W>),
    before: PollState<Result<T, JoinError<P>>>,
    woken: Option<W>,
    after: PollState<Result<T, JoinError<P>>>,
)
    requires
        old(stored).wf(),
        old(stored).result is None,
        !old(stored).native_completed,
        call_ensures(JoinInner::<T, P, W>::store, (stored, result), storing),
        *old(early) == *final(stored),
        call_ensures(JoinInner::<T, P, W>::poll, (early, pollers.0), before),
        *old(published) == *final(early),
        call_ensures(JoinInner::<T, P, W>::publish, (published,), woken),
        *old(late) == *final(published),
        call_ensures(JoinInner::<T, P, W>::poll, (late, pollers.1), after),
    ensures
        storing is Ok,
        before is Pending,
        woken is Some,
        !pollers.0.registered || old(stored).waiter is None ==> woken == Some(pollers.0.waker),
        pollers.0.registered && old(stored).waiter is Some ==> woken == old(stored).waiter,
        after == PollState::Ready(result),
        final(late).consumed,
        final(late).result is None,
{
}

/// A second result is refused and changes nothing.
pub proof fn lemma_result_is_stored_once<T, P, W>(
    join: &mut JoinInner<T, P, W>,
    result: Result<T, JoinError<P>>,
    storing: Result<(), StoredTwice>,
)
    requires
        old(join).wf(),
        call_ensures(JoinInner::<T, P, W>::store, (join, result), storing),
    ensures
        storing is Err <==> old(join).result is Some,
        storing is Err ==> *final(join) == *old(join),
        storing is Ok ==> final(join).result == Some(result) && final(join).waiter
            == old(join).waiter && final(join).native_completed == old(join).native_completed,
{
}

/// A task that stored nothing joins with a runtime error.
pub proof fn lemma_missing_result_is_a_runtime_error<T, P, W>(
    join: &mut JoinInner<T, P, W>,
    late: &mut JoinInner<T, P, W>,
    woken: Option<W>,
    poller: Poller<W>,
    after: PollState<Result<T, JoinError<P>>>,
)
    requires
        old(join).wf(),
        !old(join).native_completed,
        old(join).result is None,
        call_ensures(JoinInner::<T, P, W>::publish, (join,), woken),
        *old(late) == *final(join),
        call_ensures(JoinInner::<T, P, W>::poll, (late, poller), after),
    ensures
        woken == old(join).waiter,
        after == PollState::<Result<T, JoinError<P>>>::Ready(
            Err(JoinError::Runtime(NativeError::InvalidOperation)),
        ),
{
}

/// A contained failure replaces a result that nobody can have seen, and never one
/// that is published.
pub proof fn lemma_published_result_is_final<R, T, P, W>(
    join: &mut JoinInner<T, P, W>,
    error: JoinError<P>,
    gate: &mut NativeGate<R>,
    panicked: &mut JoinInner<T, P, W>,
    payload: P,
)
    requires
        old(join).wf(),
        call_ensures(JoinInner::<T, P, W>::replace_error_if_unpublished, (join, error), ()),
        old(gate).wf(),
        old(panicked).wf(),
        call_ensures(force_panic::<R, T, P, W>, (gate, panicked, payload), ()),
    ensures
        old(join).native_completed ==> *final(join) == *old(join),
        !old(join).native_completed ==> final(join).result == Some(Err::<T, JoinError<P>>(error)),
        old(panicked).native_completed ==> *final(panicked) == *old(panicked),
        !old(panicked).native_completed ==> final(panicked).result == Some(
            Err::<T, JoinError<P>>(JoinError::Panic(payload)),
        ),
        final(join).waiter == old(join).waiter,
        final(join).native_completed == old(join).native_completed,
        final(panicked).waiter == old(panicked).waiter,
        old(gate).phase is Terminal ==> final(gate).phase == NativePhase::Terminal(
            TerminalKind::Panicked,
        ),
        !(old(gate).phase is Terminal) ==> *final(gate) == *old(gate),
{
}

/// Join completion becomes visible, and the joiner is woken, exactly when the
/// descriptor was destroyed.
pub proof fn lemma_join_completes_with_destruction<R, T, P, W>(
    gate: &mut NativeGate<R>,
    join: &mut JoinInner<T, P, W>,
    destroyed: Result<(), NativeError>,
    waiter: Result<Option<W>, NativeError>,
)
    requires
        old(gate).wf(),
        old(gate).phase == NativePhase::Destroying,
        old(join).wf(),
        !old(join).native_completed,
        call_ensures(after_destroy::<R, T, P, W>, (gate, join, destroyed), waiter),
    ensures
        destroyed is Ok <==> final(join).native_completed,
        destroyed is Ok <==> final(gate).phase == NativePhase::Destroyed,
        destroyed is Ok ==> waiter == Ok::<Option<W>, NativeError>(old(join).waiter)
            && final(join).waiter is None && final(join).result is Some,
        destroyed is Ok && old(join).result is Some ==> final(join).result == old(join).result,
        destroyed matches Err(error) ==> waiter == Err::<Option<W>, NativeError>(error)
            && final(join).waiter == old(join).waiter && *final(gate) == *old(gate)
                && final(join).result == Some(
            Err::<T, JoinError<P>>(JoinError::Runtime(error)),
        ),
        !final(join).consumed,
{
}

/// Both handles tell what has happened: a join can complete, a descriptor is gone.
pub proof fn lemma_handles_report_completion<R, T, P, W>(
    join: JoinHandle,
    handle: AbortHandle,
    cell: JoinInner<T, P, W>,
    gate: NativeGate<R>,
    joinable: bool,
    destroyed: bool,
)
    requires
        call_ensures(JoinHandle::is_finished::<T, P, W>, (&join, &cell), joinable),
        call_ensures(AbortHandle::is_finished::<R>, (&handle, &gate), destroyed),
    ensures
        joinable <==> cell.native_completed,
        destroyed <==> gate.phase == NativePhase::Destroyed,
{
}

/// Each setting of a task is the last one given for it, and no setting disturbs
/// another.
pub proof fn lemma_builder_keeps_every_setting(
    start: TaskBuilder,
    named: TaskBuilder,
    prioritized: TaskBuilder,
    placed: TaskBuilder,
    costed: TaskBuilder,
    name: String,
    priority: i32,
    affinity: crate::affinity::Affinity,
    cost: u64,
)
    requires
        call_ensures(TaskBuilder::rust_name, (start, name), named),
        call_ensures(TaskBuilder::priority, (named, priority), prioritized),
        call_ensures(TaskBuilder::affinity, (prioritized, affinity), placed),
        call_ensures(TaskBuilder::monitoring_cost, (placed, cost), costed),
    ensures
        named.config.name == Some(name),
        named.config.priority == start.config.priority,
        named.config.affinity == start.config.affinity,
        named.config.monitoring_cost == start.config.monitoring_cost,
        prioritized.config.monitoring_cost == start.config.monitoring_cost,
        prioritized.config.affinity == start.config.affinity,
        placed.config.monitoring_cost == start.config.monitoring_cost,
        costed.config.name == Some(name),
        costed.config.priority == Some(priority),
        costed.config.affinity == Some(affinity),
        costed.config.monitoring_cost == Some(cost),
{
}

/// A new builder sets nothing.
pub proof fn lemma_new_builder_sets_nothing(builder: TaskBuilder)
    requires
        call_ensures(TaskBuilder::new, (), builder),
    ensures
        builder.config.name is None,
        builder.config.priority is None,
        builder.config.affinity is None,
        builder.config.monitoring_cost is None,
{
}

/// The current place of a task is the native identifier, and there is one exactly
/// if that is not negative.
pub proof fn lemma_current_place_is_the_native_one(
    task: CurrentTask,
    native: i32,
    cpu: Result<CpuId, NativeError>,
    node: Result<NumaNodeId, NativeError>,
)
    requires
        call_ensures(CurrentTask::current_cpu, (&task, native), cpu),
        call_ensures(CurrentTask::current_numa_node, (&task, native), node),
    ensures
        native >= 0 ==> cpu is Ok && cpu->Ok_0.id() == native && node is Ok && node->Ok_0.id()
            == native,
        native < 0 ==> cpu == Err::<CpuId, NativeError>(NativeError::InvalidOperation) && node
            == Err::<NumaNodeId, NativeError>(NativeError::InvalidOperation),
{
}

/// A query runs exactly inside a task, and its answer is handed on.
pub proof fn lemma_queries_run_inside_a_task<
    T,
    F: FnOnce(&CurrentTask) -> Result<T, NativeError>,
>(in_task: bool, query: F, result: Result<T, NativeError>, answer: Result<T, NativeError>)
    requires
        call_ensures(with_current::<T, F>, (in_task, query), result),
        forall|task: &CurrentTask, given: Result<T, NativeError>|
            call_ensures(query, (task,), given) ==> given == answer,
    ensures
        in_task ==> result == answer,
        !in_task ==> result == Err::<T, NativeError>(NativeError::OutsideTask),
{
}

/// A new yielding future is pending once, with its own poller to wake, and ready
/// ever after, with nobody to wake.
pub proof fn lemma_yield_takes_one_turn<W>(
    future: YieldNow,
    first: &mut YieldNow,
    later: &mut YieldNow,
    wakers: (W, W),
    polls: ((PollState<()>, Option<W>), (PollState<()>, Option<W>)),
)
    requires
        call_ensures(yield_now, (), future),
        *old(first) == future,
        call_ensures(YieldNow::poll::<W>, (first, wakers.0), polls.0),
        old(later).has_yielded() == final(first).has_yielded(),
        call_ensures(YieldNow::poll::<W>, (later, wakers.1), polls.1),
    ensures
        polls.0.0 is Pending,
        polls.0.1 == Some(wakers.0),
        polls.1.0 == PollState::Ready(()),
        polls.1.1 is None,
        final(later).has_yielded(),
{
}

/// A new task is being built: it has no descriptor, and was neither woken nor
/// polled nor cancelled.
pub proof fn lemma_new_task_is_being_built<R>(gate: NativeGate<R>, destroyed: bool)
    requires
        call_ensures(NativeGate::<R>::new, (), gate),
        call_ensures(NativeGate::<R>::is_destroyed, (&gate,), destroyed),
    ensures
        gate.wf(),
        gate.task is None && gate.phase is Building,
        !gate.wake_submitted && !gate.polling && !gate.cancel_requested,
        !destroyed,
{
}

/// A task is destroyed once its descriptor was, and says so from then on.
pub proof fn lemma_destruction_is_recorded<R>(
    gate: &mut NativeGate<R>,
    before: bool,
    after: bool,
)
    requires
        old(gate).wf(),
        old(gate).phase is Destroying,
        call_ensures(NativeGate::<R>::is_destroyed, (&*old(gate),), before),
        call_ensures(NativeGate::<R>::destroyed, (gate,), ()),
        call_ensures(NativeGate::<R>::is_destroyed, (&*final(gate),), after),
    ensures
        !before && after,
        final(gate).task is None,
        final(gate).cancel_requested == old(gate).cancel_requested,
{
}

/// A new join cell has no result, and nobody waits for it.
pub proof fn lemma_new_join_cell_is_empty<T, P, W>(inner: JoinInner<T, P, W>)
    requires
        call_ensures(JoinInner::<T, P, W>::new, (), inner),
    ensures
        inner.wf(),
        inner.result is None && inner.waiter is None,
        !inner.native_completed && !inner.consumed,
{
}

} // verus!
