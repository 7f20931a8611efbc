//! Delivery, waiting and retirement of one submission.
use vstd::prelude::*;
use crate::io_uring::completion::{Completion, CompletionError, Cqe};
use crate::io_uring::context::Delivery;
use crate::io_uring::submission::SubmissionState;
use crate::waker::{PollState, Poller};

verus! {

/// What polling a stream of completions yields.
pub type NextPoll = PollState<Option<Result<Completion<Cqe>, CompletionError>>>;

/// While delivery is open, an original completion is kept behind the ones that
/// arrived before it, or overflows a full queue and closes delivery. Otherwise it
/// is dropped.
pub proof fn lemma_completion_is_buffered_in_order<W>(
    state: &mut SubmissionState<W>,
    completion: Completion<Cqe>,
    more: bool,
    wakes: &mut Vec<W>,
    overflow: bool,
)
    requires
        old(state)@.wf(),
        !more ==> old(state).original_terminal < old(state).accepted,
        call_ensures(
            SubmissionState::<W>::complete_original,
            (state, completion, more, wakes),
            overflow,
        ),
    ensures
        old(state).delivery == Delivery::Open && old(state).normal@.len() < old(state).limit ==> {
            &&& !overflow
            &&& final(state).delivery == Delivery::Open
            &&& final(state).normal@.len() == old(state).normal@.len() + 1
            &&& final(state).normal@.last() == completion
            &&& final(state).normal@.drop_last() == old(state).normal@
        },
        old(state).delivery == Delivery::Open && old(state).normal@.len() >= old(state).limit ==> {
            &&& overflow
            &&& final(state).delivery == Delivery::Overflow
            &&& final(state).normal_overflow
            &&& final(state).normal@ == old(state).normal@
        },
        old(state).delivery != Delivery::Open ==> {
            &&& !overflow
            &&& final(state).delivery == old(state).delivery
            &&& final(state).normal@ == old(state).normal@
            &&& final(state).normal_overflow == old(state).normal_overflow
        },
        final(state).limit == old(state).limit,
        final(state).held == old(state).held,
        final(state).cancellations@ == old(state).cancellations@,
        final(state).cancel_overflow == old(state).cancel_overflow,
        final(state).cancel_waker == old(state).cancel_waker,
        final(state).iterator_finished == old(state).iterator_finished,
{
    assert(final(state)@ == old(state)@.original_completed(completion, more));
    if old(state).delivery == Delivery::Open && old(state).normal@.len() < old(state).limit {
        assert(final(state)@.normal == old(state)@.normal.push(completion));
        assert(final(state).normal@.drop_last() =~= old(state).normal@);
    }
}

/// An original counts as terminal exactly when the kernel announces no further
/// completion of it, and no other counter moves.
pub proof fn lemma_last_completion_is_terminal<W>(
    state: &mut SubmissionState<W>,
    completion: Completion<Cqe>,
    more: bool,
    wakes: &mut Vec<W>,
    overflow: bool,
)
    requires
        old(state)@.wf(),
        !more ==> old(state).original_terminal < old(state).accepted,
        call_ensures(
            SubmissionState::<W>::complete_original,
            (state, completion, more, wakes),
            overflow,
        ),
    ensures
        more ==> final(state).original_terminal == old(state).original_terminal,
        !more ==> final(state).original_terminal == old(state).original_terminal + 1,
        final(state).originals == old(state).originals,
        final(state).accepted == old(state).accepted,
        final(state).cancels == old(state).cancels,
        final(state).cancel_terminal == old(state).cancel_terminal,
{
    assert(final(state)@.original_terminal == old(state)@.original_terminal + (if more {
        0int
    } else {
        1int
    }));
    assert(final(state)@.originals == old(state)@.originals);
    assert(final(state)@.accepted == old(state)@.accepted);
    assert(final(state)@.cancels == old(state)@.cancels);
    assert(final(state)@.cancel_terminal == old(state)@.cancel_terminal);
}

/// No wake is lost on an original completion. Whoever waits for the stream is
/// woken by every completion while delivery is open, and by the last one in any
/// case; whoever waits for retirement is woken once everything is terminal; a
/// future that still admits entries is woken by every completion. A waiter is
/// woken once, and nobody else is.
pub proof fn lemma_original_completion_wakes_its_waiters<W>(
    state: &mut SubmissionState<W>,
    completion: Completion<Cqe>,
    more: bool,
    wakes: &mut Vec<W>,
    overflow: bool,
)
    requires
        old(state)@.wf(),
        !more ==> old(state).original_terminal < old(state).accepted,
        call_ensures(
            SubmissionState::<W>::complete_original,
            (state, completion, more, wakes),
            overflow,
        ),
    ensures
        old(wakes)@.is_prefix_of(final(wakes)@),
        old(state).delivery == Delivery::Open && old(state).normal_waker is Some
            ==> final(wakes)@.contains(old(state).normal_waker->0) && final(state).normal_waker is None,
        !more && old(state).original_terminal + 1 == old(state).originals
            && old(state).normal_waker is Some ==> final(wakes)@.contains(old(state).normal_waker->0),
        !old(state).iterator_finished && old(state).admission_waker is Some
            ==> final(wakes)@.contains(old(state).admission_waker->0),
        !more && old(state).original_terminal + 1 == old(state).originals
            && old(state).cancel_terminal == old(state).cancels && old(state).drain_waker is Some
                ==> final(wakes)@.contains(old(state).drain_waker->0),
        final(wakes)@.len() == old(wakes)@.len() + (if old(state).normal_waker is Some
            && final(state).normal_waker is None {
            1int
        } else {
            0int
        }) + (if old(state).admission_waker is Some && final(state).admission_waker is None {
            1int
        } else {
            0int
        }) + (if old(state).drain_waker is Some && final(state).drain_waker is None {
            1int
        } else {
            0int
        }),
        old(state).delivery != Delivery::Open && (more || old(state).original_terminal + 1
            != old(state).originals) ==> final(state).normal_waker == old(state).normal_waker,
        old(state).iterator_finished ==> final(state).admission_waker == old(state).admission_waker,
        more || old(state).original_terminal + 1 != old(state).originals
            || old(state).cancel_terminal != old(state).cancels ==> final(state).drain_waker
                == old(state).drain_waker,
        final(state).normal_waker is Some ==> final(state).normal_waker == old(state).normal_waker,
        final(state).drain_waker is Some ==> final(state).drain_waker == old(state).drain_waker,
        final(state).admission_waker is Some ==> final(state).admission_waker
            == old(state).admission_waker,
{
    let before = old(state)@;
    let admission = crate::waker::taken(!before.iterator_finished, before.admission_waker);
    let normal = crate::waker::taken(before.normal_due(more), before.normal_waker);
    let drained = before.original_terminal + 1 == before.originals && before.cancel_terminal
        == before.cancels;
    let drain = crate::waker::taken(!more && drained, before.drain_waker);
    let added = admission + normal + drain;
    assert(final(wakes)@ == old(wakes)@ + added);
    let all = final(wakes)@;
    let start = old(wakes)@.len() as int;
    if admission.len() > 0 {
        assert(all[start] == admission[0]);
    }
    if normal.len() > 0 {
        assert(all[start + admission.len()] == normal[0]);
    }
    if drain.len() > 0 {
        assert(all[start + admission.len() + normal.len()] == drain[0]);
    }
    assert(final(state)@ == before.original_completed(completion, more));
    assert(final(state)@.drain_waker == final(state).drain_waker);
}

/// Whoever polled a stream in vain is woken by the completion that makes the
/// stream ready.
pub proof fn lemma_stream_is_woken_when_ready<W>(
    waiting: &mut SubmissionState<W>,
    state: &mut SubmissionState<W>,
    ready: &mut SubmissionState<W>,
    pollers: (Poller<W>, Poller<W>),
    polls: (NextPoll, NextPoll),
    completion: Completion<Cqe>,
    more: bool,
    wakes: &mut Vec<W>,
    overflow: bool,
)
    requires
        old(waiting)@.wf(),
        call_ensures(SubmissionState::<W>::poll_next, (waiting, pollers.0), polls.0),
        polls.0 is Pending,
        !pollers.0.registered,
        *old(state) == *final(waiting),
        !more ==> old(state).original_terminal < old(state).accepted,
        call_ensures(
            SubmissionState::<W>::complete_original,
            (state, completion, more, wakes),
            overflow,
        ),
        *old(ready) == *final(state),
        call_ensures(SubmissionState::<W>::poll_next, (ready, pollers.1), polls.1),
    ensures
        final(waiting).normal_waker == Some(pollers.0.waker),
        final(wakes)@.contains(pollers.0.waker),
        polls.1 is Ready,
        !overflow ==> polls.1 == NextPoll::Ready(Some(Ok(completion))),
        overflow ==> polls.1 == NextPoll::Ready(Some(Err(CompletionError::BufferOverflow))),
{
    assert(old(waiting)@.next() is Pending);
    assert(final(waiting)@ == old(waiting)@.after_next(pollers.0));
    assert(final(waiting)@.normal_waker == final(waiting).normal_waker);
    assert(final(waiting)@.delivery == final(waiting).delivery);
    lemma_original_completion_wakes_its_waiters(state, completion, more, wakes, overflow);
}

/// A stream hands out its completions in the order in which they arrived, then an
/// overflow once, and ends only when delivery is closed or every original is
/// terminal. Until then the polling task takes the place of the waiter.
pub proof fn lemma_stream_reads_in_order<W>(
    state: &mut SubmissionState<W>,
    poller: Poller<W>,
    polled: NextPoll,
)
    requires
        call_ensures(SubmissionState::<W>::poll_next, (state, poller), polled),
    ensures
        old(state).normal@.len() > 0 ==> {
            &&& polled == NextPoll::Ready(Some(Ok(old(state).normal@[0])))
            &&& final(state).normal@ == old(state).normal@.skip(1)
            &&& final(state).normal_overflow == old(state).normal_overflow
        },
        old(state).normal@.len() == 0 && old(state).normal_overflow ==> {
            &&& polled == NextPoll::Ready(Some(Err(CompletionError::BufferOverflow)))
            &&& !final(state).normal_overflow
            &&& final(state).normal@.len() == 0
        },
        old(state).normal@.len() == 0 && !old(state).normal_overflow ==> {
            let over = old(state).delivery != Delivery::Open || (old(state).iterator_finished
                && old(state).original_terminal == old(state).originals);
            &&& over ==> polled == NextPoll::Ready(None)
            &&& !over ==> polled is Pending
            &&& !over && (!poller.registered || old(state).normal_waker is None)
                ==> final(state).normal_waker == Some(poller.waker)
            &&& !over && poller.registered && old(state).normal_waker is Some
                ==> final(state).normal_waker == old(state).normal_waker
        },
        final(state).delivery == old(state).delivery,
        final(state).cancellations@ == old(state).cancellations@,
        final(state).original_terminal == old(state).original_terminal,
        final(state).drain_waker == old(state).drain_waker,
{
    assert(final(state)@ == old(state)@.after_next(poller));
    if old(state).normal@.len() > 0 {
        assert(old(state).normal@.skip(1) =~= old(state).normal@.drop_first());
    }
    assert(final(state)@.original_terminal == final(state).original_terminal);
    assert(final(state)@.normal_waker == final(state).normal_waker);
    assert(final(state)@.drain_waker == final(state).drain_waker);
    assert(final(state)@.delivery == final(state).delivery);
    assert(final(state)@.normal_overflow == final(state).normal_overflow);
    assert(final(state)@.cancellations == final(state).cancellations@);
}

/// A cancellation's completion is kept in order unless the submission is detached,
/// counts as terminal, and wakes whoever waits for it or for retirement.
pub proof fn lemma_cancellation_completion_is_kept_and_woken<W>(
    state: &mut SubmissionState<W>,
    completion: Completion<Cqe>,
    wakes: &mut Vec<W>,
)
    requires
        old(state)@.wf(),
        old(state).cancel_terminal < old(state).cancels,
        call_ensures(SubmissionState::<W>::complete_cancel, (state, completion, wakes), ()),
    ensures
        final(state).cancel_terminal == old(state).cancel_terminal + 1,
        final(state).cancels == old(state).cancels,
        final(state).original_terminal == old(state).original_terminal,
        final(state).normal@ == old(state).normal@,
        final(state).normal_waker == old(state).normal_waker,
        final(state).delivery == old(state).delivery,
        old(state).delivery == Delivery::Detached ==> final(state).cancellations@
            == old(state).cancellations@,
        old(state).delivery != Delivery::Detached
            && old(state).cancellations@.len() < old(state).limit ==> final(state).cancellations@
                == old(state).cancellations@ + seq![completion],
        old(state).delivery != Delivery::Detached
            && old(state).cancellations@.len() >= old(state).limit
                ==> final(state).cancel_overflow && final(state).cancellations@
                    == old(state).cancellations@,
        old(state).delivery != Delivery::Detached && old(state).cancel_waker is Some
            ==> final(wakes)@.contains(old(state).cancel_waker->0) && final(state).cancel_waker is None,
        old(state).cancel_terminal + 1 == old(state).cancels && old(state).cancel_waker is Some
            ==> final(wakes)@.contains(old(state).cancel_waker->0),
        old(state).cancel_terminal + 1 == old(state).cancels && old(state).original_terminal
            == old(state).originals && old(state).drain_waker is Some ==> final(wakes)@.contains(
            old(state).drain_waker->0,
        ),
        old(wakes)@.is_prefix_of(final(wakes)@),
        final(wakes)@.len() == old(wakes)@.len() + (if old(state).cancel_waker is Some
            && final(state).cancel_waker is None {
            1int
        } else {
            0int
        }) + (if old(state).drain_waker is Some && final(state).drain_waker is None {
            1int
        } else {
            0int
        }),
{
    let before = old(state)@;
    let cancel = crate::waker::taken(before.cancel_due(), before.cancel_waker);
    let drained = before.original_terminal == before.originals && before.cancel_terminal + 1
        == before.cancels;
    let drain = crate::waker::taken(drained, before.drain_waker);
    assert(final(wakes)@ == old(wakes)@ + (cancel + drain));
    let start = old(wakes)@.len() as int;
    if cancel.len() > 0 {
        assert(final(wakes)@[start] == cancel[0]);
    }
    if drain.len() > 0 {
        assert(final(wakes)@[start + cancel.len()] == drain[0]);
    }
    assert(final(state)@ == before.cancel_completed(completion));
    assert(before.cancellations.push(completion) =~= before.cancellations + seq![completion]);
    assert(final(state)@.cancel_terminal == final(state).cancel_terminal);
    assert(final(state)@.cancels == final(state).cancels);
    assert(final(state)@.original_terminal == final(state).original_terminal);
    assert(final(state)@.cancel_overflow == final(state).cancel_overflow);
}

/// Completions of cancellations are read in order, then an overflow once; the end
/// comes when every cancellation is terminal.
pub proof fn lemma_cancellations_are_read_in_order<W>(
    state: &mut SubmissionState<W>,
    poller: Poller<W>,
    polled: NextPoll,
)
    requires
        call_ensures(SubmissionState::<W>::poll_cancellation, (state, poller), polled),
    ensures
        old(state).cancellations@.len() > 0 ==> {
            &&& polled == NextPoll::Ready(Some(Ok(old(state).cancellations@[0])))
            &&& final(state).cancellations@ == old(state).cancellations@.skip(1)
        },
        old(state).cancellations@.len() == 0 && old(state).cancel_overflow ==> {
            &&& polled == NextPoll::Ready(Some(Err(CompletionError::BufferOverflow)))
            &&& !final(state).cancel_overflow
        },
        old(state).cancellations@.len() == 0 && !old(state).cancel_overflow ==> {
            let over = old(state).cancel_terminal == old(state).cancels;
            &&& over ==> polled == NextPoll::Ready(None)
            &&& !over ==> polled is Pending
            &&& !over && (!poller.registered || old(state).cancel_waker is None)
                ==> final(state).cancel_waker == Some(poller.waker)
        },
        final(state).normal@ == old(state).normal@,
        final(state).delivery == old(state).delivery,
        final(state).cancel_terminal == old(state).cancel_terminal,
{
    assert(final(state)@ == old(state)@.after_next_cancellation(poller));
    if old(state).cancellations@.len() > 0 {
        assert(old(state).cancellations@.skip(1) =~= old(state).cancellations@.drop_first());
    }
    assert(final(state)@.cancel_terminal == final(state).cancel_terminal);
    assert(final(state)@.cancel_overflow == final(state).cancel_overflow);
    assert(final(state)@.cancel_waker == final(state).cancel_waker);
    assert(final(state)@.delivery == final(state).delivery);
}

/// Retirement is announced exactly when every original and every cancellation is
/// terminal. Until then the polling task takes the place of the waiter.
pub proof fn lemma_drained_means_everything_terminal<W>(
    state: &mut SubmissionState<W>,
    poller: Poller<W>,
    polled: PollState<()>,
    drained: bool,
)
    requires
        call_ensures(SubmissionState::<W>::drained, (&*old(state),), drained),
        call_ensures(SubmissionState::<W>::poll_drained, (state, poller), polled),
    ensures
        drained <==> old(state).original_terminal == old(state).originals
            && old(state).cancel_terminal == old(state).cancels,
        polled is Ready <==> drained,
        !drained && (!poller.registered || old(state).drain_waker is None)
            ==> final(state).drain_waker == Some(poller.waker),
        !drained && poller.registered && old(state).drain_waker is Some
            ==> final(state).drain_waker == old(state).drain_waker,
        final(state).normal@ == old(state).normal@,
        final(state).original_terminal == old(state).original_terminal,
{
    assert(final(state)@ == old(state)@.after_wait_drained(poller));
    assert(final(state)@.drain_waker == final(state).drain_waker);
    assert(final(state)@.original_terminal == final(state).original_terminal);
}

/// Closing delivery keeps what is buffered and counted, and the first reason
/// stays. Detaching always takes effect and drops what the caller could have
/// seen; retirement is still counted and announced.
pub proof fn lemma_closing_keeps_retirement<W>(
    closed: &mut SubmissionState<W>,
    detached: &mut SubmissionState<W>,
    delivery: Delivery,
)
    requires
        *old(closed) == *old(detached),
        delivery != Delivery::Detached,
        call_ensures(SubmissionState::<W>::close, (closed, delivery), ()),
        call_ensures(SubmissionState::<W>::close, (detached, Delivery::Detached), ()),
    ensures
        old(closed).delivery == Delivery::Open ==> final(closed).delivery == delivery,
        old(closed).delivery != Delivery::Open ==> final(closed).delivery == old(closed).delivery,
        final(closed).normal@ == old(closed).normal@,
        final(closed).cancellations@ == old(closed).cancellations@,
        final(closed).normal_waker == old(closed).normal_waker,
        final(detached).delivery == Delivery::Detached,
        final(detached).normal@.len() == 0,
        final(detached).cancellations@.len() == 0,
        final(detached).normal_waker is None,
        final(detached).cancel_waker is None,
        final(closed).drain_waker == old(closed).drain_waker,
        final(detached).drain_waker == old(closed).drain_waker,
        final(closed).originals == old(closed).originals,
        final(closed).original_terminal == old(closed).original_terminal,
        final(closed).cancels == old(closed).cancels,
        final(closed).cancel_terminal == old(closed).cancel_terminal,
        final(detached).originals == old(closed).originals,
        final(detached).original_terminal == old(closed).original_terminal,
        final(detached).cancels == old(closed).cancels,
        final(detached).cancel_terminal == old(closed).cancel_terminal,
        final(detached).held == old(closed).held,
{
    assert(final(closed)@ == old(closed)@.closed(delivery));
    assert(final(detached)@ == old(detached)@.detached());
    assert(final(closed)@.originals == final(closed).originals);
    assert(final(closed)@.original_terminal == final(closed).original_terminal);
    assert(final(closed)@.cancels == final(closed).cancels);
    assert(final(closed)@.cancel_terminal == final(closed).cancel_terminal);
    assert(final(detached)@.originals == final(detached).originals);
    assert(final(detached)@.original_terminal == final(detached).original_terminal);
    assert(final(detached)@.cancels == final(detached).cancels);
    assert(final(detached)@.cancel_terminal == final(detached).cancel_terminal);
    assert(final(closed)@.delivery == final(closed).delivery);
    assert(final(detached)@.delivery == final(detached).delivery);
    assert(final(closed)@.drain_waker == final(closed).drain_waker);
    assert(final(detached)@.drain_waker == final(detached).drain_waker);
    assert(final(detached)@.held == final(detached).held);
}

/// The kernel's acceptance of an original is counted, and so is the end of the
/// iterator; both wake the future that admits.
pub proof fn lemma_admission_progress_wakes_the_future<W>(
    accepted: &mut SubmissionState<W>,
    finished: &mut SubmissionState<W>,
    accept_wakes: &mut Vec<W>,
    finish_wakes: &mut Vec<W>,
)
    requires
        *old(accepted) == *old(finished),
        old(accepted).accepted < usize::MAX,
        call_ensures(SubmissionState::<W>::accept_one, (accepted, accept_wakes), ()),
        call_ensures(SubmissionState::<W>::finish_iterator, (finished, finish_wakes), ()),
    ensures
        final(accepted).accepted == old(accepted).accepted + 1,
        final(accepted).iterator_finished == old(accepted).iterator_finished,
        final(finished).accepted == old(finished).accepted,
        final(finished).iterator_finished,
        final(accepted).originals == old(accepted).originals,
        final(finished).originals == old(finished).originals,
        final(accepted).admission_waker is None,
        final(finished).admission_waker is None,
        old(accepted).admission_waker matches Some(waker) ==> {
            &&& final(accept_wakes)@ == old(accept_wakes)@ + seq![waker]
            &&& final(finish_wakes)@ == old(finish_wakes)@ + seq![waker]
        },
        old(accepted).admission_waker is None ==> {
            &&& final(accept_wakes)@ == old(accept_wakes)@
            &&& final(finish_wakes)@ == old(finish_wakes)@
        },
        final(accepted).normal@ == old(accepted).normal@,
        final(finished).normal@ == old(finished).normal@,
        final(accepted).delivery == old(accepted).delivery,
        final(finished).delivery == old(finished).delivery,
{
    assert(final(accepted)@ == old(accepted)@.accepted_one());
    assert(final(finished)@ == old(finished)@.finished());
    assert(final(accepted)@.accepted == final(accepted).accepted);
    assert(final(finished)@.accepted == final(finished).accepted);
    assert(final(accepted)@.originals == final(accepted).originals);
    assert(final(finished)@.originals == final(finished).originals);
    assert(final(accepted)@.iterator_finished == final(accepted).iterator_finished);
    assert(final(finished)@.iterator_finished == final(finished).iterator_finished);
    assert(final(accepted)@.delivery == final(accepted).delivery);
    assert(final(finished)@.delivery == final(finished).delivery);
    assert(old(accept_wakes)@ + Seq::<W>::empty() =~= old(accept_wakes)@);
    assert(old(finish_wakes)@ + Seq::<W>::empty() =~= old(finish_wakes)@);
}

/// A new submission has nothing buffered, counted or closed, and is held.
pub proof fn lemma_new_submission_is_open_and_empty<W>(limit: usize, state: SubmissionState<W>)
    requires
        call_ensures(SubmissionState::<W>::new, (limit,), state),
    ensures
        state.limit == limit,
        state.held,
        state.delivery == Delivery::Open,
        state.normal@.len() == 0,
        state.cancellations@.len() == 0,
        state.originals == 0 && state.accepted == 0 && state.original_terminal == 0,
        state.cancels == 0 && state.cancel_terminal == 0,
        !state.iterator_finished && !state.normal_overflow && !state.cancel_overflow,
        state.admission_waker is None && state.normal_waker is None,
        state.cancel_waker is None && state.drain_waker is None,
{
    assert(state@.limit == state.limit && state@.held == state.held);
    assert(state@.originals == state.originals && state@.accepted == state.accepted);
    assert(state@.original_terminal == state.original_terminal);
    assert(state@.cancels == state.cancels && state@.cancel_terminal == state.cancel_terminal);
    assert(state@.normal == state.normal@ && state@.cancellations == state.cancellations@);
    assert(state@.delivery == state.delivery);
    assert(state@.admission_waker == state.admission_waker);
    assert(state@.normal_waker == state.normal_waker);
    assert(state@.cancel_waker == state.cancel_waker);
    assert(state@.drain_waker == state.drain_waker);
    assert(state@.iterator_finished == state.iterator_finished);
    assert(state@.normal_overflow == state.normal_overflow);
    assert(state@.cancel_overflow == state.cancel_overflow);
}

/// Detaching discards what was not read, and whoever waits to read it; what retires
/// the submission stays.
pub proof fn lemma_detached_submission_retires_unread<W>(state: &mut SubmissionState<W>)
    requires
        call_ensures(SubmissionState::<W>::detach, (state,), ()),
    ensures
        final(state)@.delivery is Detached,
        final(state)@.normal.len() == 0 && final(state)@.cancellations.len() == 0,
        final(state)@.normal_waker is None && final(state)@.cancel_waker is None,
        final(state)@.drain_waker == old(state)@.drain_waker,
        final(state)@.admission_waker == old(state)@.admission_waker,
        final(state)@.original_terminal == old(state)@.original_terminal,
        final(state)@.cancel_terminal == old(state)@.cancel_terminal,
        final(state)@.originals == old(state)@.originals,
        final(state)@.cancels == old(state)@.cancels,
        final(state)@.accepted == old(state)@.accepted,
        final(state)@.iterator_finished == old(state)@.iterator_finished,
{
}

} // verus!
