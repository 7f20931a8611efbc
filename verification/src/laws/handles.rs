//! What a caller holds of a submission: admission, streams, cancellation.
use vstd::prelude::*;
use vstd::std_specs::iter::IteratorSpec;
use crate::io_uring::admission::{tags, Admission, SubmitEntries};
use crate::io_uring::completion::{CompletionError, Sqe, SubmissionErrorKind, Violation};
use crate::io_uring::context::{ContextKind, ContextPhase, CqeContext, Delivery};
use crate::io_uring::driver::{CancelSqe, DriverData};
use crate::io_uring::handles::{
    Cancellation, CompletionStream, IoUringHandle, NextCancellation, NextCompletion,
    SubmissionError, WaitDrained,
};
use crate::io_uring::model::DriverView;
use crate::io_uring::submission::SubmissionView;
use crate::laws::submission::NextPoll;
use crate::waker::{PollState, Poller};

verus! {

/// Every live original of `id` has been asked to cancel, and delivery is closed.
pub open spec fn gives_up<W>(driver: DriverView<W>, id: u64) -> bool {
    &&& driver.submissions.contains_key(id)
    &&& driver.submissions[id].delivery != Delivery::Open
    &&& forall|p: u64| #[trigger]
        driver.contexts.contains_key(p) && driver.contexts[p].submission == id
            && driver.contexts[p].kind == ContextKind::Original && driver.contexts[p].phase
            != ContextPhase::Terminal ==> driver.contexts[p].cancel_queued
}

/// A cancellation request gives the submission up.
proof fn lemma_requested_gives_up<W>(
    driver: DriverView<W>,
    id: u64,
    delivery: Delivery,
    next: DriverView<W>,
)
    requires
        driver.submissions.contains_key(id),
        delivery != Delivery::Open,
        driver.cancel_requested(set![id], delivery, next),
    ensures
        gives_up(next, id),
{
    assert(next.submissions.dom().contains(id));
    assert(next.submissions.contains_key(id));
    assert forall|p: u64| #[trigger]
        next.contexts.contains_key(p) && next.contexts[p].submission == id && next.contexts[p].kind
            == ContextKind::Original && next.contexts[p].phase != ContextPhase::Terminal implies
        next.contexts[p].cancel_queued by {
        assert(driver.contexts.dom().contains(p));
    }
}

/// A new submission is open if the runtime runs, and refused otherwise. It has
/// nothing pending.
pub proof fn lemma_submission_is_open_while_running<W, E>(
    handle: IoUringHandle,
    data: &mut DriverData<W>,
    running: bool,
    submit: Result<SubmitEntries<E>, Violation>,
    polled_data: &mut DriverData<W>,
    future: &mut SubmitEntries<E>,
    poller: Poller<W>,
    polled: PollState<Result<CompletionStream, SubmissionError>>,
)
    requires
        old(data)@.wf(),
        old(data)@.next_submission < u64::MAX,
        call_ensures(IoUringHandle::submit_entries::<W, E>, (&handle, data, running), submit),
        submit is Ok,
        *old(future) == submit->Ok_0,
        old(polled_data)@ == final(data)@,
        call_ensures(SubmitEntries::<E>::poll::<W>, (future, polled_data, poller), polled),
    ensures
        ({
            let id = submit->Ok_0.id;
            &&& !old(data)@.submissions.contains_key(id)
            &&& final(data)@.submissions.contains_key(id)
            &&& final(data)@.submissions[id].limit == handle.max_buffered_completions
            &&& final(data)@.submissions[id].held
            &&& submit->Ok_0.pending is None
            &&& submit->Ok_0.next_index == 0
            &&& !submit->Ok_0.done
            &&& submit->Ok_0.closed <==> !running
            &&& running ==> final(data)@.submissions[id].delivery == Delivery::Open
                && polled is Pending
            &&& !running ==> polled is Ready && polled->Ready_0 is Err
                && polled->Ready_0->Err_0.parts().0 == SubmissionErrorKind::RuntimeClosed
        }),
{
    if old(data)@.submissions.contains_key(submit->Ok_0.id) {
        assert(old(data)@.submission_wf(submit->Ok_0.id));
    }
}

/// Admission is resolved exactly when the iterator has ended and the kernel has
/// accepted every entry, or when delivery was closed before; then the reason is
/// reported and everything admitted is cancelled. Until then the polling task
/// takes the place of the waiter.
pub proof fn lemma_admission_resolves_when_accepted<W, E>(
    future: &mut SubmitEntries<E>,
    data: &mut DriverData<W>,
    poller: Poller<W>,
    polled: PollState<Result<CompletionStream, SubmissionError>>,
)
    requires
        old(data)@.wf(),
        !old(future).done,
        !old(future).closed,
        old(future).linked(old(data)@),
        call_ensures(SubmitEntries::<E>::poll::<W>, (future, data, poller), polled),
    ensures
        ({
            let id = old(future).id;
            let s = old(data)@.submissions[id];
            let open = s.delivery == Delivery::Open;
            let complete = s.iterator_finished && s.accepted == s.originals;
            &&& polled is Ready && polled->Ready_0 is Ok <==> open && complete
            &&& polled is Pending <==> open && !complete
            &&& polled matches PollState::Ready(Ok(stream)) ==> stream.id == id && stream.active
                && final(data)@ == old(data)@
            &&& polled matches PollState::Ready(Err(error)) ==> {
                &&& error.parts().0 == (if s.delivery == Delivery::Overflow {
                    SubmissionErrorKind::CompletionBufferOverflow
                } else {
                    SubmissionErrorKind::RuntimeClosed
                })
                &&& error.parts().1.id == id
                &&& error.parts().1.active
                &&& gives_up(final(data)@, id)
            }
            &&& polled is Ready ==> final(future).done
            &&& polled is Pending ==> {
                let after = final(data)@.submissions[id];
                &&& *final(future) == *old(future)
                &&& !poller.registered || s.admission_waker is None ==> after.admission_waker
                    == Some(poller.waker)
                &&& after.originals == s.originals && after.accepted == s.accepted
                    && after.delivery == s.delivery
                &&& final(data)@.contexts == old(data)@.contexts
            }
        }),
{
    let id = old(future).id;
    if let PollState::Ready(Err(error)) = polled {
        lemma_requested_gives_up(old(data)@, id, Delivery::Cancelling, final(data)@);
    }
}

/// An error says why admission stopped and hands out the capability to drain.
pub proof fn lemma_submission_error_hands_out_its_parts(
    error: SubmissionError,
    kind: SubmissionErrorKind,
    cancellation: Cancellation,
    text: &'static str,
)
    requires
        call_ensures(SubmissionError::kind, (&error,), kind),
        call_ensures(SubmissionError::into_cancellation, (error,), cancellation),
        call_ensures(SubmissionError::description, (&error,), text),
    ensures
        error.parts() == (kind, cancellation),
        kind == SubmissionErrorKind::RuntimeClosed ==> text@ == "the io_uring runtime is closed"@,
        kind == SubmissionErrorKind::CompletionBufferOverflow ==> text@
            == "completion buffering overflowed during admission"@,
{
}

/// The stream of a submission reads that submission: the oldest buffered
/// completion first, in any case before the end.
pub proof fn lemma_stream_reads_its_submission<W>(
    stream: CompletionStream,
    next: NextCompletion,
    data: &mut DriverData<W>,
    poller: Poller<W>,
    polled: NextPoll,
    other: u64,
)
    requires
        call_ensures(CompletionStream::next, (&stream,), next),
        old(data)@.wf(),
        old(data)@.submissions.contains_key(stream.id),
        call_ensures(NextCompletion::poll::<W>, (&next, data, poller), polled),
        other != stream.id,
        old(data)@.submissions.contains_key(other),
    ensures
        ({
            let s = old(data)@.submissions[stream.id];
            let after = final(data)@.submissions[stream.id];
            &&& s.normal.len() > 0 ==> polled == NextPoll::Ready(Some(Ok(s.normal[0])))
                && after.normal.len() == s.normal.len() - 1 && forall|i: int|
                0 <= i < after.normal.len() ==> #[trigger] after.normal[i] == s.normal[i + 1]
            &&& s.normal.len() == 0 && s.normal_overflow ==> polled == NextPoll::Ready(
                Some(Err(CompletionError::BufferOverflow)),
            ) && !after.normal_overflow
            &&& s.normal.len() == 0 && !s.normal_overflow ==> (polled is Pending <==> s.delivery
                == Delivery::Open && !(s.iterator_finished && s.original_terminal == s.originals))
            &&& s.normal.len() == 0 && !s.normal_overflow && polled is Ready ==> polled
                == NextPoll::Ready(None)
            &&& polled is Pending && !poller.registered ==> after.normal_waker == Some(poller.waker)
            &&& after.original_terminal == s.original_terminal && after.delivery == s.delivery
        }),
        final(data)@.submissions[other] == old(data)@.submissions[other],
        final(data)@.contexts == old(data)@.contexts,
{
}

/// The cancellation of a submission reads that submission, and is drained exactly
/// when every original and every cancellation is terminal.
pub proof fn lemma_cancellation_reads_its_submission<W>(
    cancellation: Cancellation,
    next: NextCancellation,
    wait: WaitDrained,
    read: &mut DriverData<W>,
    waited: &mut DriverData<W>,
    pollers: (Poller<W>, Poller<W>),
    polled: NextPoll,
    drained: PollState<()>,
)
    requires
        call_ensures(Cancellation::next, (&cancellation,), next),
        call_ensures(Cancellation::wait_drained, (&cancellation,), wait),
        old(read)@.wf(),
        old(read)@ == old(waited)@,
        old(read)@.submissions.contains_key(cancellation.id),
        call_ensures(NextCancellation::poll::<W>, (&next, read, pollers.0), polled),
        call_ensures(WaitDrained::poll::<W>, (&wait, waited, pollers.1), drained),
    ensures
        ({
            let s = old(read)@.submissions[cancellation.id];
            &&& s.cancellations.len() > 0 ==> polled == NextPoll::Ready(
                Some(Ok(s.cancellations[0])),
            )
            &&& s.cancellations.len() == 0 && s.cancel_overflow ==> polled == NextPoll::Ready(
                Some(Err(CompletionError::BufferOverflow)),
            )
            &&& s.cancellations.len() == 0 && !s.cancel_overflow && s.cancel_terminal == s.cancels
                ==> polled == NextPoll::Ready(None)
            &&& s.cancellations.len() == 0 && !s.cancel_overflow && s.cancel_terminal != s.cancels
                ==> polled is Pending
            &&& drained is Ready <==> s.original_terminal == s.originals && s.cancel_terminal
                == s.cancels
            &&& drained is Pending && !pollers.1.registered
                ==> final(waited)@.submissions[cancellation.id].drain_waker == Some(pollers.1.waker)
            &&& polled is Pending && !pollers.0.registered
                ==> final(read)@.submissions[cancellation.id].cancel_waker == Some(pollers.0.waker)
        }),
{
}

/// Cancelling a stream gives its submission up and hands out its cancellation,
/// through which it can still be drained.
pub proof fn lemma_cancelled_stream_can_be_drained<W>(
    stream: CompletionStream,
    data: &mut DriverData<W>,
    cancellation: Cancellation,
)
    requires
        old(data)@.wf(),
        old(data)@.submissions.contains_key(stream.id),
        call_ensures(CompletionStream::cancel::<W>, (stream, data), cancellation),
    ensures
        cancellation.id == stream.id,
        cancellation.active,
        gives_up(final(data)@, stream.id),
        final(data)@.submissions[stream.id].held == old(data)@.submissions[stream.id].held,
        final(data)@.submissions[stream.id].drain_waker
            == old(data)@.submissions[stream.id].drain_waker,
{
    lemma_requested_gives_up(old(data)@, stream.id, Delivery::Cancelling, final(data)@);
    assert(final(data)@.submissions.contains_key(stream.id));
}

/// A stream or an admission that is dropped cancels what it admitted and lets the
/// submission go. Dropping it again changes nothing.
pub proof fn lemma_dropped_handle_cancels<W, E>(
    stream: &mut CompletionStream,
    data: &mut DriverData<W>,
    submit: &mut SubmitEntries<E>,
    other: &mut DriverData<W>,
)
    requires
        old(data)@.wf(),
        old(other)@.wf(),
        old(data)@.submissions.contains_key(old(stream).id),
        old(other)@.submissions.contains_key(old(submit).id),
        call_ensures(CompletionStream::release::<W>, (stream, data), ()),
        call_ensures(SubmitEntries::<E>::release::<W>, (submit, other), ()),
    ensures
        !final(stream).active,
        old(stream).active ==> gives_up(final(data)@, old(stream).id)
            && final(data)@.submissions[old(stream).id].delivery == Delivery::Detached
                && !final(data)@.submissions[old(stream).id].held,
        !old(stream).active ==> final(data)@ == old(data)@,
        final(submit).done,
        !old(submit).done ==> gives_up(final(other)@, old(submit).id)
            && final(other)@.submissions[old(submit).id].delivery == Delivery::Detached
                && !final(other)@.submissions[old(submit).id].held,
        old(submit).done ==> final(other)@ == old(other)@,
{
    if old(stream).active {
        let id = old(stream).id;
        let s = old(data)@.submissions[id];
        let released = old(data)@.with_submission(id, SubmissionView { held: false, ..s });
        lemma_requested_gives_up(released, id, Delivery::Detached, final(data)@);
        assert(final(data)@.submissions.contains_key(id));
    }
    if !old(submit).done {
        let id = old(submit).id;
        let s = old(other)@.submissions[id];
        let released = old(other)@.with_submission(id, SubmissionView { held: false, ..s });
        lemma_requested_gives_up(released, id, Delivery::Detached, final(other)@);
        assert(final(other)@.submissions.contains_key(id));
    }
}

/// A cancellation that is dropped lets the submission go, keeps no completion of
/// it, and cancels nothing by itself.
pub proof fn lemma_dropped_cancellation_lets_go<W>(
    cancellation: &mut Cancellation,
    data: &mut DriverData<W>,
)
    requires
        old(data)@.wf(),
        old(data)@.submissions.contains_key(old(cancellation).id),
        call_ensures(Cancellation::release::<W>, (cancellation, data), ()),
    ensures
        !final(cancellation).active,
        final(data)@.contexts == old(data)@.contexts,
        final(data)@.cancel_queue == old(data)@.cancel_queue,
        !old(cancellation).active ==> final(data)@ == old(data)@,
        old(cancellation).active ==> {
            let after = final(data)@.submissions[old(cancellation).id];
            let before = old(data)@.submissions[old(cancellation).id];
            &&& !after.held
            &&& after.delivery == Delivery::Detached
            &&& after.normal.len() == 0 && after.cancellations.len() == 0
            &&& after.original_terminal == before.original_terminal
            &&& after.cancel_terminal == before.cancel_terminal
            &&& after.drain_waker == before.drain_waker
        },
{
}

/// Entries are admitted in the order of the iterator, as many as fit beside the
/// queued cancellations. Each takes a pointer of its own to the kernel, under which
/// its own tag, its own position and its submission are found again. An entry that
/// does not fit waits and comes first the next time; the end of the iterator is
/// noticed.
pub proof fn lemma_admitted_entries_keep_their_tags<W, E, I: Iterator<Item = Sqe<E>>>(
    submit: &mut SubmitEntries<E>,
    data: &mut DriverData<W>,
    iterator: &mut I,
    space: usize,
    wakes: &mut Vec<W>,
    admission: Result<Admission<E>, Violation>,
    k: int,
)
    requires
        old(data)@.wf(),
        old(data)@.accepting,
        old(submit).linked(old(data)@),
        IteratorSpec::obeys_prophetic_iter_laws(&*old(iterator)),
        call_ensures(
            SubmitEntries::<E>::admit_entries::<W, I>,
            (submit, data, iterator, space, wakes),
            admission,
        ),
        admission is Ok,
    ensures
        ({
            let first: Seq<Sqe<E>> = match old(submit).pending {
                Some((_, entry)) => seq![entry],
                None => Seq::empty(),
            };
            let items = first + IteratorSpec::remaining(&*old(iterator));
            let id = old(submit).id;
            let queued = old(data)@.cancel_queue.len();
            let free = if queued >= space {
                0int
            } else {
                space - queued
            };
            let originals = admission->Ok_0.originals@;
            &&& originals.len() == (if items.len() <= free {
                items.len() as int
            } else {
                free
            })
            &&& admission->Ok_0.cancels@.len() == space - free
            &&& admission->Ok_0.notify <==> items.len() > 0
            &&& final(data)@.staged == old(data)@.staged + admission->Ok_0.cancels@.map_values(
                |sqe: CancelSqe| sqe.user_data,
            ) + originals.map_values(|sqe: Sqe<E>| sqe.user_data)
            &&& 0 <= k < originals.len() ==> {
                let sqe = originals[k];
                let context = final(data)@.contexts[sqe.user_data];
                &&& sqe.operation == items[k].operation
                &&& !old(data)@.contexts.contains_key(sqe.user_data)
                &&& final(data)@.contexts.contains_key(sqe.user_data)
                &&& context.kind == ContextKind::Original
                &&& context.phase == ContextPhase::Staged
                &&& context.original_user_data == items[k].user_data
                &&& context.index == old(data)@.submissions[id].originals + k
                &&& context.submission == id
                &&& !context.cancel_queued
            }
            &&& final(data)@.submissions[id].originals == old(data)@.submissions[id].originals
                + originals.len()
            &&& items.len() <= free ==> final(submit).pending is None
                && final(data)@.submissions[id].iterator_finished && final(submit).next_index
                    == old(data)@.submissions[id].originals
                + items.len()
            &&& items.len() > free ==> final(submit).pending == Some(
                ((old(data)@.submissions[id].originals + free) as usize, items[free]),
            )
            &&& items.len() <= free && old(data)@.submissions[id].admission_waker is Some
                ==> final(wakes)@.contains(old(data)@.submissions[id].admission_waker->0)
        }),
        final(submit).id == old(submit).id,
        final(submit).closed == old(submit).closed && final(submit).done == old(submit).done,
        ({
            let first: nat = if old(submit).pending is Some {
                1
            } else {
                0
            };
            let left = IteratorSpec::remaining(&*old(iterator));
            let taken = left.len() - IteratorSpec::remaining(&*final(iterator)).len();
            &&& IteratorSpec::remaining(&*final(iterator)) == left.skip(taken)
            &&& first + taken == admission->Ok_0.originals@.len() + (if final(submit).pending
                is Some {
                1int
            } else {
                0int
            })
        }),
{
    let items = old(submit).waiting() + IteratorSpec::remaining(&*old(iterator));
    let id = old(submit).id;
    let free = SubmitEntries::<E>::room(old(data)@, space);
    let driver = old(data)@.cancels_staged((space - free) as nat);
    let count = vstd::math::min(items.len() as int, free);
    lemma_cancels_leave_submissions(old(data)@, (space - free) as nat);
    lemma_originals_staged(driver, id, tags(items.take(count)), k);
    assert(tags(items.take(count)).len() == count);
    if 0 <= k < count {
        let p = (driver.next_pointer + k) as u64;
        assert(tags(items.take(count))[k] == items[k].user_data);
        assert(admission->Ok_0.originals@[k].user_data == p);
        if old(data)@.contexts.contains_key(p) {
            assert(old(data)@.context_wf(p));
        }
    }
    if items.len() <= free && old(data)@.submissions[id].admission_waker is Some {
        let waker = old(data)@.submissions[id].admission_waker->0;
        assert(final(wakes)@[old(wakes)@.len() as int] == waker);
    }
    let cancels = admission->Ok_0.cancels@.map_values(|sqe: CancelSqe| sqe.user_data);
    let originals = admission->Ok_0.originals@.map_values(|sqe: Sqe<E>| sqe.user_data);
    assert(cancels =~= Seq::new(
        (space - free) as nat,
        |i: int| (old(data)@.next_pointer + i) as u64,
    ));
    assert(originals =~= Seq::new(count as nat, |i: int| (driver.next_pointer + i) as u64));
    assert(final(data)@.staged =~= old(data)@.staged + cancels + originals);
}

/// Staging cancellations adds no original and moves the pointers on.
proof fn lemma_cancels_leave_submissions<W>(driver: DriverView<W>, count: nat)
    requires
        count <= driver.cancel_queue.len(),
        driver.next_pointer + count <= u64::MAX,
    ensures
        driver.cancels_staged(count).submissions == driver.submissions,
        driver.cancels_staged(count).next_pointer == driver.next_pointer + count,
        driver.cancels_staged(count).cancel_queue == driver.cancel_queue.skip(count as int),
        driver.cancels_staged(count).staged == driver.staged + Seq::new(
            count,
            |i: int| (driver.next_pointer + i) as u64,
        ),
    decreases count,
{
    if count == 0 {
        assert(driver.cancel_queue.skip(0) =~= driver.cancel_queue);
        assert(driver.staged + Seq::new(0, |i: int| (driver.next_pointer + i) as u64)
            =~= driver.staged);
    } else {
        lemma_cancels_leave_submissions(driver, (count - 1) as nat);
        let before = driver.cancels_staged((count - 1) as nat);
        assert(before.cancel_queue.drop_first() =~= driver.cancel_queue.skip(count as int));
        assert(before.staged.push(before.next_pointer) =~= driver.staged + Seq::new(
            count,
            |i: int| (driver.next_pointer + i) as u64,
        ));
    }
}

/// The context of the original `k` among those staged with `user_data`.
proof fn lemma_originals_staged<W>(driver: DriverView<W>, id: u64, user_data: Seq<u64>, k: int)
    requires
        driver.next_pointer + user_data.len() <= u64::MAX,
        driver.submissions.contains_key(id),
        0 <= driver.submissions[id].originals,
        driver.submissions[id].originals + user_data.len() <= usize::MAX,
    ensures
        ({
            let next = driver.originals_staged(id, user_data);
            let p = (driver.next_pointer + k) as u64;
            let first = driver.submissions[id].originals;
            &&& next.next_pointer == driver.next_pointer + user_data.len()
            &&& next.staged == driver.staged + Seq::new(
                user_data.len(),
                |i: int| (driver.next_pointer + i) as u64,
            )
            &&& next.submissions.contains_key(id)
            &&& next.submissions[id].originals == first + user_data.len()
            &&& next.submissions[id].admission_waker == driver.submissions[id].admission_waker
            &&& 0 <= k < user_data.len() ==> next.contexts.contains_key(p) && next.contexts[p]
                == (CqeContext {
                kind: ContextKind::Original,
                phase: ContextPhase::Staged,
                index: (first + k) as usize,
                original_user_data: user_data[k],
                submission: id,
                target: None,
                cancel_queued: false,
                cancel_seen: false,
            })
        }),
    decreases user_data.len(),
{
    if user_data.len() > 0 {
        lemma_originals_staged(driver, id, user_data.drop_last(), k);
        let before = driver.originals_staged(id, user_data.drop_last());
        assert(before.staged.push(before.next_pointer) =~= driver.staged + Seq::new(
            user_data.len(),
            |i: int| (driver.next_pointer + i) as u64,
        ));
    } else {
        assert(driver.staged + Seq::new(0, |i: int| (driver.next_pointer + i) as u64)
            =~= driver.staged);
    }
}

/// A driver that accepts nothing admits nothing: no entry is handed to the kernel,
/// the submission stays as it is, and what it has already admitted is cancelled.
pub proof fn lemma_closed_driver_admits_nothing<W, E, I: Iterator<Item = Sqe<E>>>(
    submit: &mut SubmitEntries<E>,
    data: &mut DriverData<W>,
    iterator: &mut I,
    space: usize,
    wakes: &mut Vec<W>,
    admission: Result<Admission<E>, Violation>,
)
    requires
        old(data)@.wf(),
        !old(data)@.accepting,
        old(submit).linked(old(data)@),
        call_ensures(
            SubmitEntries::<E>::admit_entries::<W, I>,
            (submit, data, iterator, space, wakes),
            admission,
        ),
    ensures
        admission is Ok,
        admission->Ok_0.originals@.len() == 0 && admission->Ok_0.cancels@.len() == 0,
        admission->Ok_0.notify,
        *final(submit) == *old(submit),
        final(wakes)@ == old(wakes)@,
        old(data)@.submissions[old(submit).id].delivery == Delivery::Open
            ==> final(data)@.submissions[old(submit).id].delivery == Delivery::Cancelling,
{
}

/// Admission fails only when pointers or indices are used up, and then it says which.
pub proof fn lemma_admission_fails_only_when_exhausted<W, E, I: Iterator<Item = Sqe<E>>>(
    submit: &mut SubmitEntries<E>,
    data: &mut DriverData<W>,
    iterator: &mut I,
    space: usize,
    wakes: &mut Vec<W>,
    admission: Result<Admission<E>, Violation>,
)
    requires
        old(data)@.wf(),
        old(submit).linked(old(data)@),
        call_ensures(
            SubmitEntries::<E>::admit_entries::<W, I>,
            (submit, data, iterator, space, wakes),
            admission,
        ),
    ensures
        old(data)@.accepting && old(data)@.next_pointer + space > u64::MAX ==> admission == Err::<
            Admission<E>,
            Violation,
        >(Violation::PointersExhausted) && final(data)@ == old(data)@,
        admission matches Err(violation) ==> old(data)@.accepting && (violation
            == Violation::PointersExhausted || violation == Violation::IndexExhausted),
        admission matches Err(Violation::PointersExhausted) ==> old(data)@.next_pointer + space
            > u64::MAX,
        admission matches Err(Violation::IndexExhausted) ==> old(submit).next_index + space
            >= usize::MAX,
{
}

/// A submission is refused exactly when the identifiers of submissions are used up,
/// and then nothing changes.
pub proof fn lemma_submission_needs_an_identifier<W, E>(
    handle: IoUringHandle,
    data: &mut DriverData<W>,
    running: bool,
    submit: Result<SubmitEntries<E>, Violation>,
)
    requires
        old(data)@.wf(),
        call_ensures(IoUringHandle::submit_entries::<W, E>, (&handle, data, running), submit),
    ensures
        submit is Err <==> old(data)@.next_submission == u64::MAX,
        submit matches Err(violation) ==> violation == Violation::SubmissionsExhausted
            && final(data)@ == old(data)@,
{
}

} // verus!
