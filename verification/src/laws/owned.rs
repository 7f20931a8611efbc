//! Owned operations: what the kernel answered is what the caller is told.
use vstd::prelude::*;
use crate::io::{
    complete_drain, complete_fill, complete_unit, operation_len, result, runtime_closed_error,
    unsupported_opcode_error, Filled, IoError, IoErrorKind, OwnedOp, OwnedState, StartOp,
    Transfer, TransferStep,
};
use crate::io_uring::context::Delivery;
use crate::io_uring::driver::DriverData;
use crate::io_uring::handles::{Cancellation, CompletionStream};
use crate::io_uring::owned::{Owned, OwnedAdmission, OwnedOutcome, OwnedStep};
use crate::waker::{PollState, Poller};

verus! {

/// The outcome of an operation whose completion was delivered is the kernel's
/// result, whatever it is: a running operation with a buffered completion takes
/// that result, and reports it once its contexts have retired.
pub proof fn lemma_delivered_result_is_reported<W, E>(
    stream: CompletionStream,
    data: &mut DriverData<W>,
    later: &mut DriverData<W>,
    cancelled: (bool, bool),
    pollers: (Poller<W>, Poller<W>),
    taken: OwnedStep<E>,
    end: OwnedStep<E>,
)
    requires
        old(data)@.wf(),
        Owned::<E>::Running(stream).linked(old(data)@),
        old(data)@.submissions[stream.id].normal.len() > 0,
        call_ensures(
            Owned::<E>::advance::<W>,
            (Owned::<E>::Running(stream), data, cancelled.0, pollers.0),
            taken,
        ),
        taken is Continue,
        old(later)@.wf(),
        taken->Continue_0.linked(old(later)@),
        call_ensures(
            Owned::<E>::advance::<W>,
            (taken->Continue_0, later, cancelled.1, pollers.1),
            end,
        ),
    ensures
        ({
            let answer = old(data)@.submissions[stream.id].normal[0].cqe.result;
            let s = old(later)@.submissions[stream.id];
            let retired = s.original_terminal == s.originals && s.cancel_terminal == s.cancels;
            &&& retired ==> end == OwnedStep::<E>::Finish(OwnedOutcome::Completed(answer))
            &&& !retired ==> end == OwnedStep::Wait(taken->Continue_0)
        }),
{
}

/// A running operation always goes on to retire when a completion is buffered, and
/// waits while there is none and nobody gave it up.
pub proof fn lemma_running_operation_waits_for_its_completion<W, E>(
    stream: CompletionStream,
    data: &mut DriverData<W>,
    cancelled: bool,
    poller: Poller<W>,
    step: OwnedStep<E>,
)
    requires
        old(data)@.wf(),
        Owned::<E>::Running(stream).linked(old(data)@),
        call_ensures(
            Owned::<E>::advance::<W>,
            (Owned::<E>::Running(stream), data, cancelled, poller),
            step,
        ),
    ensures
        ({
            let s = old(data)@.submissions[stream.id];
            let delivered = s.normal.len() > 0;
            let over = s.normal_overflow || s.delivery != Delivery::Open || (s.iterator_finished
                && s.original_terminal == s.originals);
            let given_up = |outcome: OwnedOutcome|
                OwnedStep::Continue(
                    Owned::<E>::Retiring(Cancellation { id: stream.id, active: true }, outcome),
                );
            &&& delivered ==> step == given_up(OwnedOutcome::Completed(s.normal[0].cqe.result))
            &&& !delivered && over ==> step == given_up(OwnedOutcome::Closed)
            &&& !delivered && !over && cancelled ==> step == given_up(OwnedOutcome::Cancelled)
            &&& !delivered && !over && !cancelled ==> step == OwnedStep::Wait(
                Owned::<E>::Running(stream),
            )
            &&& step is Continue ==> crate::laws::handles::gives_up(final(data)@, stream.id)
        }),
{
    let driver = old(data)@;
    let s = driver.submissions[stream.id];
    let next = final(data)@;
    if step is Continue {
        let polled = driver.with_submission(stream.id, s.after_next(poller));
        assert(polled.cancel_requested(set![stream.id], Delivery::Cancelling, next));
        assert(next.submissions.dom().contains(stream.id));
        assert(next.submissions.contains_key(stream.id));
        assert forall|p: u64| #[trigger]
            next.contexts.contains_key(p) && next.contexts[p].submission == stream.id
                && next.contexts[p].kind == crate::io_uring::context::ContextKind::Original
                && next.contexts[p].phase != crate::io_uring::context::ContextPhase::Terminal implies
            next.contexts[p].cancel_queued by {
            assert(polled.contexts.dom().contains(p));
        }
    }
}

/// An operation that the kernel accepted runs; one whose runtime closed first
/// retires as closed. It never finishes before it ran or retired.
pub proof fn lemma_accepted_operation_runs<W, E>(
    operation: Owned<E>,
    data: &mut DriverData<W>,
    cancelled: bool,
    poller: Poller<W>,
    step: OwnedStep<E>,
)
    requires
        operation is Admitting,
        old(data)@.wf(),
        operation.linked(old(data)@),
        !operation->Admitting_0.closed,
        call_ensures(Owned::<E>::advance::<W>, (operation, data, cancelled, poller), step),
    ensures
        ({
            let id = operation->Admitting_0.id;
            let s = old(data)@.submissions[id];
            let accepted = s.iterator_finished && s.accepted == s.originals;
            &&& s.delivery == Delivery::Open && accepted ==> step == OwnedStep::Continue(
                Owned::<E>::Running(CompletionStream { id, active: true }),
            )
            &&& s.delivery == Delivery::Open && !accepted ==> step == OwnedStep::Wait(operation)
            &&& s.delivery != Delivery::Open ==> step == OwnedStep::Continue(
                Owned::<E>::Retiring(
                    Cancellation { id, active: true },
                    OwnedOutcome::Closed,
                ),
            )
        }),
{
}

/// An operation is taken over exactly if the driver is open and the kernel knows
/// its opcode, and the refusals can be told apart.
pub proof fn lemma_offer_is_answered<W>(
    data: DriverData<W>,
    supported: bool,
    admission: OwnedAdmission,
)
    requires
        call_ensures(DriverData::<W>::offer_owned, (&data, supported), admission),
    ensures
        admission is Accept <==> data@.accepting && supported,
        admission is Return <==> !data@.accepting,
        admission matches OwnedAdmission::Fail(error) ==> error is Simple && error->kind
            == IoErrorKind::Unsupported,
{
}

/// The resources of an operation stay with its future until it starts, then go to
/// the driver of a running runtime, and nowhere else. A second start hands out
/// nothing.
pub proof fn lemma_resources_move_once<H>(
    handler: H,
    op: OwnedOp<H>,
    first: &mut OwnedOp<H>,
    again: &mut OwnedOp<H>,
    running: (bool, bool),
    starts: (Option<StartOp<H>>, Option<StartOp<H>>),
)
    requires
        call_ensures(OwnedOp::<H>::new, (handler,), op),
        *old(first) == op,
        call_ensures(OwnedOp::<H>::start, (first, running.0), starts.0),
        old(again).phase() == final(first).phase(),
        call_ensures(OwnedOp::<H>::start, (again, running.1), starts.1),
    ensures
        running.0 ==> starts.0 == Some(StartOp::Enqueue(handler)),
        !running.0 ==> {
            &&& starts.0 is Some
            &&& starts.0->0 is Fail
            &&& starts.0->0->Fail_0 == handler
            &&& starts.0->0->Fail_1 is Simple
            &&& starts.0->0->Fail_1->kind == IoErrorKind::BrokenPipe
        },
        starts.1 is None,
        final(again).phase() == final(first).phase(),
{
}

/// A driver that refuses the resources gives them back, and the operation fails as
/// on a closed runtime.
pub proof fn lemma_refused_resources_come_back<H>(
    op: &mut OwnedOp<H>,
    outcome: Result<(), H>,
    failed: Option<(H, IoError)>,
)
    requires
        old(op).phase() is Offered,
        call_ensures(OwnedOp::<H>::enqueued, (op, outcome), failed),
    ensures
        outcome is Ok <==> failed is None,
        outcome is Ok ==> final(op).phase() is Queued,
        outcome matches Err(handler) ==> {
            &&& (failed->0).0 == handler
            &&& (failed->0).1 is Simple
            &&& (failed->0).1->kind == IoErrorKind::BrokenPipe
            &&& final(op).phase() is Failed
        },
{
}

/// Whoever polled an operation in vain is woken when its result is published, and
/// then receives exactly that result.
pub proof fn lemma_published_result_is_received<H, T, W>(
    early: &mut OwnedOp<H>,
    waiting: &mut OwnedState<T, W>,
    published: &mut OwnedState<T, W>,
    late: &mut OwnedOp<H>,
    ready: &mut OwnedState<T, W>,
    value: T,
    pollers: (Poller<W>, Poller<W>),
    polls: (PollState<T>, PollState<T>),
    woken: Option<W>,
)
    requires
        old(early).phase() is Queued,
        !old(waiting).completed,
        call_ensures(OwnedOp::<H>::poll::<T, W>, (early, waiting, pollers.0), polls.0),
        *old(published) == *final(waiting),
        call_ensures(OwnedState::<T, W>::publish, (published, value), woken),
        old(late).phase() == final(early).phase(),
        *old(ready) == *final(published),
        call_ensures(OwnedOp::<H>::poll::<T, W>, (late, ready, pollers.1), polls.1),
    ensures
        polls.0 is Pending,
        woken is Some,
        !pollers.0.registered ==> woken == Some(pollers.0.waker),
        pollers.0.registered && old(waiting).waker is Some ==> woken == old(waiting).waker,
        polls.1 == PollState::Ready(value),
        final(late).phase() is Done,
        final(ready).result is None,
        final(published).cancelled == old(waiting).cancelled,
        final(published).completed && final(published).waker is None,
{
}

/// Dropping a future asks the driver to cancel exactly if the driver has its
/// resources.
pub proof fn lemma_dropped_operation_is_cancelled<H, T, W>(
    op: OwnedOp<H>,
    state: &mut OwnedState<T, W>,
    cancel: bool,
    seen: bool,
)
    requires
        call_ensures(OwnedOp::<H>::release::<T, W>, (&op, state), cancel),
        call_ensures(OwnedState::<T, W>::is_cancelled, (&*final(state),), seen),
    ensures
        cancel <==> op.phase() is Queued,
        seen <==> old(state).cancelled || op.phase() is Queued,
        final(state).completed == old(state).completed,
        final(state).result == old(state).result,
        final(state).waker == old(state).waker,
{
}

/// A fresh operation is idle: not cancelled, not completed, with nobody waiting.
pub proof fn lemma_fresh_operation_is_idle<T, W>(state: OwnedState<T, W>)
    requires
        call_ensures(OwnedState::<T, W>::new, (), state),
    ensures
        !state.cancelled && !state.completed,
        state.waker is None && state.result is None,
{
}

/// A completion is the count of bytes, or the error with its number made positive.
pub proof fn lemma_negative_result_is_its_errno(cqe: i32, converted: Result<usize, IoError>)
    requires
        cqe > i32::MIN,
        call_ensures(result, (cqe,), converted),
    ensures
        cqe >= 0 ==> converted is Ok && converted->Ok_0 == cqe,
        cqe < 0 ==> converted is Err && converted->Err_0 is Os && converted->Err_0->0 == 0 - cqe
            && converted->Err_0->0 > 0,
{
}

/// A filled buffer counts what the kernel moved, never more than was asked for,
/// and its initialized part only grows. A drained one counts likewise. An error of
/// the kernel is handed on.
pub proof fn lemma_moved_bytes_are_counted(
    cqe: i32,
    remaining: usize,
    buffer_offset: usize,
    initialized: usize,
    oversized: &'static str,
    filled: Result<Filled, IoError>,
    drained: Result<usize, IoError>,
    unit: Result<(), IoError>,
)
    requires
        cqe > i32::MIN,
        buffer_offset + remaining <= usize::MAX,
        call_ensures(
            complete_fill,
            (cqe, remaining, buffer_offset, initialized, oversized),
            filled,
        ),
        call_ensures(complete_drain, (cqe, remaining, oversized), drained),
        call_ensures(complete_unit, (cqe,), unit),
    ensures
        filled is Ok <==> 0 <= cqe <= remaining,
        drained is Ok <==> 0 <= cqe <= remaining,
        unit is Ok <==> cqe >= 0,
        filled matches Ok(done) ==> {
            &&& done.count == cqe
            &&& done.initialized >= initialized
            &&& done.initialized >= buffer_offset + cqe
            &&& done.initialized == initialized || done.initialized == buffer_offset + cqe
        },
        drained matches Ok(count) ==> count == cqe,
        cqe < 0 ==> {
            &&& filled->Err_0 is Os && filled->Err_0->0 == 0 - cqe
            &&& drained->Err_0 is Os && drained->Err_0->0 == 0 - cqe
            &&& unit->Err_0 is Os && unit->Err_0->0 == 0 - cqe
        },
        cqe > remaining ==> {
            &&& filled->Err_0 is Simple && filled->Err_0->kind == IoErrorKind::InvalidData
                && filled->Err_0->message == oversized
            &&& drained->Err_0 is Simple && drained->Err_0->kind == IoErrorKind::InvalidData
                && drained->Err_0->message == oversized
        },
{
}

/// One operation moves what is left of a buffer, and is refused exactly if that is
/// more than the kernel takes at once.
pub proof fn lemma_operation_moves_what_is_left(
    total: usize,
    buffer_offset: usize,
    len: Result<u32, IoError>,
)
    requires
        call_ensures(operation_len, (total, buffer_offset), len),
    ensures
        len matches Ok(len) ==> (buffer_offset <= total ==> buffer_offset + len == total) && (
        buffer_offset > total ==> len == 0),
        len is Err <==> total - buffer_offset > 0xffff_ffff,
        len matches Err(error) ==> error is Simple && error->kind == IoErrorKind::InvalidInput,
{
}

/// The uniform errors of a closed runtime and of a missing opcode differ in kind.
pub proof fn lemma_uniform_errors_have_their_kind(closed: IoError, unsupported: IoError)
    requires
        call_ensures(runtime_closed_error, (), closed),
        call_ensures(unsupported_opcode_error, (), unsupported),
    ensures
        closed is Simple && closed->kind == IoErrorKind::BrokenPipe,
        unsupported is Simple && unsupported->kind == IoErrorKind::Unsupported,
{
}

/// A transfer asks for the rest of the buffer, behind what was moved, in the file
/// as in memory. It ends exactly when everything was moved, and is refused when
/// the range of the file overflows or the rest is more than the kernel takes.
pub proof fn lemma_transfer_asks_for_the_rest(
    offset: Option<u64>,
    total: usize,
    stall: IoError,
    moved: usize,
    started: Transfer,
    transfer: Transfer,
    step: TransferStep,
)
    requires
        call_ensures(Transfer::new, (offset, total, stall), started),
        moved <= total,
        transfer == (Transfer { moved, ..started }),
        call_ensures(Transfer::next, (&transfer,), step),
    ensures
        started.moved == 0,
        step is Finished <==> moved == total,
        step is Issue ==> {
            &&& step->buffer_offset == moved
            &&& step->len > 0
            &&& step->buffer_offset + step->len == total
            &&& offset is None ==> step->file_offset is None
            &&& offset matches Some(start) ==> step->file_offset is Some
                && step->file_offset->0 == start + moved
                && start + total - 1 <= u64::MAX
        },
        step is Refused <==> moved < total && ((offset is Some && offset->0 + total - 1 > u64::MAX)
            || total - moved > 0xffff_ffff),
        step matches TransferStep::Refused(error) ==> error is Simple && error->kind
            == IoErrorKind::InvalidInput,
{
}

/// A transfer advances by what was moved. An operation that moved nothing ends it
/// with the transfer's own error, and a failed one with its error; neither counts
/// as progress.
pub proof fn lemma_transfer_advances_by_what_was_moved(
    transfer: &mut Transfer,
    moved: Result<usize, IoError>,
    outcome: Result<(), IoError>,
)
    requires
        old(transfer).wf(),
        moved matches Ok(count) ==> count <= old(transfer).total - old(transfer).moved,
        call_ensures(Transfer::advance, (transfer, moved), outcome),
    ensures
        outcome is Ok <==> moved is Ok && moved->Ok_0 > 0,
        outcome is Ok ==> final(transfer).moved == old(transfer).moved + moved->Ok_0,
        outcome is Err ==> final(transfer).moved == old(transfer).moved,
        moved matches Err(error) ==> outcome == Err::<(), IoError>(error),
        moved == Ok::<usize, IoError>(0) ==> outcome == Err::<(), IoError>(old(transfer).stall),
        final(transfer).total == old(transfer).total,
        final(transfer).offset == old(transfer).offset,
        final(transfer).stall == old(transfer).stall,
{
}

/// An operation that waits is woken by what it waits for: by progress of its
/// admission, by its completion, or by its retirement. Whoever polls it is
/// registered there, unless the waker that is there wakes the same task.
pub proof fn lemma_waiting_operation_is_registered<W, E>(
    operation: Owned<E>,
    data: &mut DriverData<W>,
    cancelled: bool,
    poller: Poller<W>,
    step: OwnedStep<E>,
)
    requires
        old(data)@.wf(),
        operation.linked(old(data)@),
        call_ensures(Owned::<E>::advance::<W>, (operation, data, cancelled, poller), step),
        step is Wait,
    ensures
        step == OwnedStep::Wait(operation),
        ({
            let id = operation.id();
            let before = old(data)@.submissions[id];
            let after = final(data)@.submissions[id];
            let slots = match operation {
                Owned::Admitting(_) => (before.admission_waker, after.admission_waker),
                Owned::Running(_) => (before.normal_waker, after.normal_waker),
                Owned::Retiring(..) => (before.drain_waker, after.drain_waker),
            };
            &&& final(data)@.submissions.contains_key(id)
            &&& slots.0 is None || !poller.registered ==> slots.1 == Some(poller.waker)
            &&& slots.0 is Some && poller.registered ==> slots.1 == slots.0
            &&& after.held && after.delivery == before.delivery
            &&& final(data)@.contexts == old(data)@.contexts
        }),
{
}

/// A retiring operation finishes with its outcome exactly when nothing of it is left
/// in the kernel, and lets go of its submission then.
pub proof fn lemma_retiring_operation_finishes_when_drained<W, E>(
    cancellation: Cancellation,
    outcome: OwnedOutcome,
    data: &mut DriverData<W>,
    cancelled: bool,
    poller: Poller<W>,
    step: OwnedStep<E>,
)
    requires
        old(data)@.wf(),
        Owned::<E>::Retiring(cancellation, outcome).linked(old(data)@),
        call_ensures(
            Owned::<E>::advance::<W>,
            (Owned::<E>::Retiring(cancellation, outcome), data, cancelled, poller),
            step,
        ),
    ensures
        ({
            let s = old(data)@.submissions[cancellation.id];
            let drained = s.original_terminal == s.originals && s.cancel_terminal == s.cancels;
            &&& drained ==> step == OwnedStep::<E>::Finish(outcome)
                && !final(data)@.submissions[cancellation.id].held
                && final(data)@.submissions[cancellation.id].delivery == Delivery::Detached
                && final(data)@.submissions[cancellation.id].normal.len() == 0
                && final(data)@.submissions[cancellation.id].cancellations.len() == 0
            &&& !drained ==> step == OwnedStep::Wait(Owned::<E>::Retiring(cancellation, outcome))
                && final(data)@.submissions[cancellation.id].held
        }),
{
}

} // verus!
