//! What the driver promises across operations.
use vstd::prelude::*;
use crate::io_uring::admission::SubmitEntries;
use crate::io_uring::completion::{Completion, CompletionError, Cqe, SubmissionErrorKind};
use crate::io_uring::context::{ContextKind, ContextPhase, CqeContext, Delivery};
use crate::io_uring::model::{
    has_more, lemma_members_finite, members, Class, DriverView,
};
use crate::io_uring::run::RunDecision;
use crate::io_uring::submission::{restored, SubmissionView};
use crate::waker::{PollState, Poller};

verus! {

/// A cancellation CQE and an original CQE can arrive in either order: the
/// driver ends in the same state.
pub proof fn lemma_cancellation_order_is_irrelevant<W>(
    driver: DriverView<W>,
    cancel: Cqe,
    original: Cqe,
)
    requires
        driver.wf(),
        driver.dispatch_violation(cancel) is None,
        driver.dispatch_violation(original) is None,
        driver.contexts[cancel.user_data].kind == ContextKind::Cancel,
        driver.contexts[original.user_data].kind == ContextKind::Original,
    ensures
        driver.dispatched(cancel).dispatch_violation(original) is None,
        driver.dispatched(original).dispatch_violation(cancel) is None,
        driver.dispatched(cancel).dispatched(original) == driver.dispatched(original).dispatched(
            cancel,
        ),
{
    let c = cancel.user_data;
    let o = original.user_data;
    let more = has_more(original.flags);
    let x = driver.contexts[c].submission;
    let y = driver.contexts[o].submission;
    lemma_cancellation_order_contexts(driver, cancel, original);
    driver.lemma_dispatched(cancel);
    assert(driver.context_wf(o));
    assert(driver.submission_wf(y));
    let live = members(driver.contexts, y, Class::Live);
    lemma_members_finite(driver.contexts);
    assert(live.contains(o));
    assert(live.len() > 0);
    let first = driver.dispatched(cancel).dispatched(original);
    let second = driver.dispatched(original).dispatched(cancel);
    let cancelled = restored(
        driver.contexts[c].index,
        cancel,
        driver.contexts[c].original_user_data,
    );
    let completed = restored(
        driver.contexts[o].index,
        original,
        driver.contexts[o].original_user_data,
    );
    if x == y {
        lemma_completions_commute(driver.submissions[x], cancelled, completed, more);
    }
    assert(first.submissions =~= second.submissions);
    assert(first =~= second);
}

/// Cancellation and original completions of one submission commute.
proof fn lemma_completions_commute<W>(
    s: SubmissionView<W>,
    cancelled: Completion<Cqe>,
    completed: Completion<Cqe>,
    more: bool,
)
    requires
        s.wf(),
        s.original_terminal < s.originals,
        s.cancel_terminal < s.cancels,
    ensures
        s.cancel_completed(cancelled).original_completed(completed, more) == s.original_completed(
            completed,
            more,
        ).cancel_completed(cancelled),
{
    assert(s.cancel_completed(cancelled).original_completed(completed, more)
        =~= s.original_completed(completed, more).cancel_completed(cancelled));
}

/// The contexts that remain do not depend on the order of the two CQEs.
proof fn lemma_cancellation_order_contexts<W>(
    driver: DriverView<W>,
    cancel: Cqe,
    original: Cqe,
)
    requires
        driver.wf(),
        driver.dispatch_violation(cancel) is None,
        driver.dispatch_violation(original) is None,
        driver.contexts[cancel.user_data].kind == ContextKind::Cancel,
        driver.contexts[original.user_data].kind == ContextKind::Original,
    ensures
        driver.dispatched(cancel).dispatch_violation(original) is None,
        driver.dispatched(original).dispatch_violation(cancel) is None,
        driver.dispatched(cancel).dispatched(original).contexts == driver.dispatched(
            original,
        ).dispatched(cancel).contexts,
        driver.dispatched(cancel).contexts[original.user_data].submission
            == driver.contexts[original.user_data].submission,
        driver.dispatched(cancel).contexts[original.user_data].index
            == driver.contexts[original.user_data].index,
        driver.dispatched(cancel).contexts[original.user_data].original_user_data
            == driver.contexts[original.user_data].original_user_data,
        driver.dispatched(cancel).contexts[original.user_data].kind == ContextKind::Original,
        driver.dispatched(original).contexts[cancel.user_data]
            == driver.contexts[cancel.user_data],
{
    let c = cancel.user_data;
    let o = original.user_data;
    let t = driver.contexts[c].target->0;
    assert(driver.context_wf(c));
    assert(driver.context_wf(o));
    assert(driver.contexts.contains_key(t));
    assert(driver.context_wf(t));
    assert(c != o && c != t);
    let first = driver.dispatched(cancel).dispatched(original);
    let second = driver.dispatched(original).dispatched(cancel);
    assert(first.contexts =~= second.contexts);
}

/// While the kernel announces further completions, the context stays registered
/// and the operation does not count as terminal.
pub proof fn lemma_multishot_context_is_retained<W>(driver: DriverView<W>, cqe: Cqe)
    requires
        driver.wf(),
        driver.dispatch_violation(cqe) is None,
        has_more(cqe.flags),
    ensures
        driver.dispatched(cqe).contexts == driver.contexts,
        ({
            let id = driver.contexts[cqe.user_data].submission;
            driver.dispatched(cqe).submissions[id].original_terminal
                == driver.submissions[id].original_terminal
        }),
{
}

/// An original is forgotten only after its own last completion and, if it was
/// cancelled, after the cancellation's completion as well.
pub proof fn lemma_original_outlives_its_completions<W>(
    driver: DriverView<W>,
    cqe: Cqe,
    p: u64,
)
    requires
        driver.wf(),
        driver.dispatch_violation(cqe) is None,
        driver.contexts.contains_key(p),
        driver.contexts[p].kind == ContextKind::Original,
        !driver.dispatched(cqe).contexts.contains_key(p),
    ensures
        cqe.user_data == p ==> !has_more(cqe.flags) && !driver.contexts[p].outstanding(),
        cqe.user_data != p ==> driver.contexts[p].phase == ContextPhase::Terminal
            && driver.contexts[cqe.user_data].target == Some(p),
{
    assert(driver.context_wf(p));
    assert(driver.context_wf(cqe.user_data));
}

/// Routing data never changes while a context is registered: whatever is
/// delivered for it carries the caller's tag and index.
pub proof fn lemma_routing_is_stable<W>(driver: DriverView<W>, cqe: Cqe, p: u64)
    requires
        driver.wf(),
        driver.dispatch_violation(cqe) is None,
        driver.contexts.contains_key(p),
        driver.dispatched(cqe).contexts.contains_key(p),
    ensures
        ({
            let before = driver.contexts[p];
            let after = driver.dispatched(cqe).contexts[p];
            &&& after.kind == before.kind
            &&& after.index == before.index
            &&& after.original_user_data == before.original_user_data
            &&& after.submission == before.submission
            &&& after.target == before.target
        }),
{
    assert(driver.context_wf(cqe.user_data));
}

/// A completion that is delivered is the CQE with the caller's tag restored, at
/// the end of its submission's queue, and other submissions see nothing of it.
pub proof fn lemma_delivery_restores_user_data<W>(driver: DriverView<W>, cqe: Cqe, other: u64)
    requires
        driver.wf(),
        driver.dispatch_violation(cqe) is None,
        other != driver.contexts[cqe.user_data].submission,
    ensures
        ({
            let c = driver.contexts[cqe.user_data];
            let before = driver.submissions[c.submission];
            let after = driver.dispatched(cqe).submissions[c.submission];
            let delivered = Completion {
                index: c.index,
                cqe: Cqe { user_data: c.original_user_data, ..cqe },
            };
            &&& after.normal == before.normal || after.normal == before.normal.push(delivered)
            &&& after.cancellations == before.cancellations || after.cancellations
                == before.cancellations.push(delivered)
            &&& c.kind == ContextKind::Original && before.delivery == Delivery::Open
                && before.normal.len() < before.limit ==> after.normal == before.normal.push(
                delivered,
            )
            &&& c.kind == ContextKind::Cancel && before.delivery != Delivery::Detached
                && before.cancellations.len() < before.limit ==> after.cancellations
                == before.cancellations.push(delivered)
        }),
        driver.submissions.contains_key(other) ==> driver.dispatched(cqe).submissions[other]
            == driver.submissions[other],
{
}

/// Closed delivery never opens again, whatever happens to the submission.
pub proof fn lemma_delivery_never_reopens<W>(
    s: SubmissionView<W>,
    completion: Completion<Cqe>,
    more: bool,
    delivery: Delivery,
    poller: Poller<W>,
)
    requires
        s.delivery != Delivery::Open,
    ensures
        s.original_completed(completion, more).delivery != Delivery::Open,
        s.cancel_completed(completion).delivery != Delivery::Open,
        s.closed(delivery).delivery != Delivery::Open,
        s.detached().delivery != Delivery::Open,
        s.accepted_one().delivery != Delivery::Open,
        s.finished().delivery != Delivery::Open,
        s.after_next(poller).delivery != Delivery::Open,
        s.after_next_cancellation(poller).delivery != Delivery::Open,
        s.after_wait_drained(poller).delivery != Delivery::Open,
{
}

/// An overflow of original completions is reported exactly once: it closes
/// delivery for good, and the report clears it.
pub proof fn lemma_overflow_is_reported_once<W>(
    s: SubmissionView<W>,
    completion: Completion<Cqe>,
    more: bool,
    poller: Poller<W>,
)
    requires
        s.wf(),
        s.overflows(),
    ensures
        ({
            let full = s.original_completed(completion, more);
            &&& full.normal_overflow
            &&& full.delivery == Delivery::Overflow
            &&& full.normal == s.normal
            &&& !full.overflows()
            &&& full.original_completed(completion, more).normal == full.normal
        }),
        ({
            let read = SubmissionView { normal: Seq::empty(), ..s.original_completed(
                completion,
                more,
            ) };
            &&& read.next() is Ready
            &&& read.next()->Ready_0 is Some
            &&& read.next()->Ready_0->0 is Err
            &&& !read.after_next(poller).normal_overflow
            &&& read.after_next(poller).next() == PollState::<
                Option<Result<Completion<Cqe>, CompletionError>>,
            >::Ready(None)
        }),
{
}

/// Reading a stream to its end without an error proves every original terminal.
pub proof fn lemma_stream_end_proves_completion<W>(s: SubmissionView<W>)
    requires
        s.delivery == Delivery::Open,
        s.next() == PollState::<
            Option<Result<Completion<Cqe>, CompletionError>>,
        >::Ready(None),
    ensures
        s.iterator_finished,
        s.original_terminal == s.originals,
{
}

/// After a cancellation request every live original of the submission has a
/// cancellation, so that it drains once the kernel has answered.
pub proof fn lemma_cancel_reaches_every_original<W>(
    driver: DriverView<W>,
    ids: Set<u64>,
    delivery: Delivery,
    next: DriverView<W>,
    p: u64,
)
    requires
        driver.wf(),
        driver.cancel_requested(ids, delivery, next),
        next.contexts.contains_key(p),
        next.contexts[p].live(),
        ids.contains(next.contexts[p].submission),
    ensures
        next.contexts[p].cancel_queued,
{
    assert(driver.contexts.dom().contains(p));
}

/// Requesting cancellation again queues nothing.
pub proof fn lemma_cancel_is_idempotent<W>(
    driver: DriverView<W>,
    id: u64,
    delivery: Delivery,
    next: DriverView<W>,
    again: DriverView<W>,
)
    requires
        driver.wf(),
        driver.submissions.contains_key(id),
        driver.cancel_requested(set![id], delivery, next),
        next.cancel_requested(set![id], delivery, again),
    ensures
        again == next,
{
    assert(next.cancel_targets(set![id]) =~= Set::<u64>::empty()) by {
        assert forall|p: u64| !next.cancel_targets(set![id]).contains(p) by {
            if next.contexts.contains_key(p) {
                assert(driver.contexts.dom().contains(p));
            }
        }
    }
    assert(members(next.contexts, id, Class::Cancellable) =~= next.cancel_targets(set![id]));
    assert(again.contexts =~= next.contexts) by {
        assert(again.contexts.dom() == next.contexts.dom());
        assert forall|p: u64| next.contexts.contains_key(p) implies again.contexts[p]
            == next.contexts[p] by {
            assert(again.contexts.dom().contains(p));
            assert(again.contexts.contains_key(p));
        }
    }
    assert(again.cancel_queue =~= next.cancel_queue);
    assert(again.submissions =~= next.submissions) by {
        assert(again.submissions.dom() == next.submissions.dom());
        assert forall|other: u64| next.submissions.contains_key(other) implies
            again.submissions[other] == next.submissions[other] by {
            assert(again.submissions.dom().contains(other));
            assert(again.submissions.contains_key(other));
            assert(driver.submissions.dom().contains(other));
        }
    }
    assert(again =~= next);
}

/// The driver stops only when every submission has drained.
pub proof fn lemma_stopped_driver_is_drained<W>(driver: DriverView<W>, backlog: bool, id: u64)
    requires
        driver.wf(),
        driver.decision(backlog) == RunDecision::Stop,
        driver.submissions.contains_key(id),
    ensures
        driver.submissions[id].drained(),
        driver.contexts == Map::<u64, CqeContext>::empty(),
{
    assert(driver.submission_wf(id));
    assert(members(driver.contexts, id, Class::Live) =~= Set::<u64>::empty());
    assert(members(driver.contexts, id, Class::Outstanding) =~= Set::<u64>::empty());
}

/// While anything is left to do, the driver neither pauses nor stops.
pub proof fn lemma_active_driver_keeps_running<W>(driver: DriverView<W>, backlog: bool, p: u64)
    requires
        driver.contexts.contains_key(p),
    ensures
        driver.decision(backlog) == RunDecision::Yield || driver.decision(backlog)
            == RunDecision::Wait,
{
}

/// No context leaks: once nothing is queued and the kernel has answered every
/// SQE, no context is left.
pub proof fn lemma_answered_driver_holds_nothing<W>(driver: DriverView<W>)
    requires
        driver.wf(),
        driver.cancel_queue.len() == 0,
        forall|p: u64| #[trigger]
            driver.contexts.contains_key(p) ==> driver.contexts[p].phase == ContextPhase::Terminal,
    ensures
        driver.contexts == Map::<u64, CqeContext>::empty(),
{
    assert forall|p: u64| !driver.contexts.contains_key(p) by {
        if driver.contexts.contains_key(p) {
            assert(driver.context_wf(p));
            assert(driver.contexts[p].outstanding());
            assert(driver.has_canceller(p));
            if exists|q: u64| #[trigger] driver.context_cancels(q, p) {
                let q = choose|q: u64| #[trigger] driver.context_cancels(q, p);
                assert(driver.context_wf(q));
            } else {
                let i = choose|i: int| #[trigger] driver.command_cancels(i, p);
            }
        }
    }
    assert(driver.contexts =~= Map::<u64, CqeContext>::empty());
}

/// At most one cancellation exists for an original at any time.
pub proof fn lemma_cancellation_is_unique<W>(driver: DriverView<W>, p: u64, q: u64, r: u64, i: int)
    requires
        driver.wf(),
    ensures
        driver.context_cancels(q, p) && driver.context_cancels(r, p) ==> q == r,
        !(driver.context_cancels(q, p) && driver.command_cancels(i, p)),
{
}

/// Completions are read in the order in which they arrived.
///
/// A new completion is kept behind the buffered ones, and reading takes the
/// first.
pub proof fn lemma_completions_are_read_in_arrival_order<W>(
    s: SubmissionView<W>,
    completion: Completion<Cqe>,
    more: bool,
    poller: Poller<W>,
)
    requires
        s.wf(),
        s.normal.len() > 0,
    ensures
        s.delivery == Delivery::Open && s.normal.len() < s.limit ==> s.original_completed(
            completion,
            more,
        ).normal == s.normal.push(completion),
        s.original_completed(completion, more).next() == s.next(),
        s.next() == PollState::<
            Option<Result<Completion<Cqe>, CompletionError>>,
        >::Ready(Some(Ok(s.normal[0]))),
        s.after_next(poller).normal == s.normal.drop_first(),
{
}

/// A detached submission keeps no completion, but its retirement is counted.
pub proof fn lemma_detached_submission_retains_nothing<W>(
    s: SubmissionView<W>,
    completion: Completion<Cqe>,
    more: bool,
)
    ensures
        ({
            let d = s.detached();
            &&& d.normal.len() == 0 && d.cancellations.len() == 0
            &&& d.original_completed(completion, more).normal == d.normal
            &&& d.cancel_completed(completion).cancellations == d.cancellations
            &&& d.drained() == s.drained()
            &&& d.drain_waker == s.drain_waker
            &&& d.original_completed(completion, false).original_terminal == s.original_terminal + 1
            &&& d.cancel_completed(completion).cancel_terminal == s.cancel_terminal + 1
        }),
{
}

/// Once shutdown has begun, every admission fails and says that the runtime is
/// closed.
pub proof fn lemma_shutdown_refuses_admission<W, E>(
    driver: DriverView<W>,
    next: DriverView<W>,
    submit: SubmitEntries<E>,
)
    requires
        driver.wf(),
        (DriverView { accepting: false, shutdown: true, ..driver }).cancel_requested(
            driver.submissions.dom(),
            Delivery::Detached,
            next,
        ),
        next.submissions.contains_key(submit.id),
    ensures
        !next.accepting,
        submit.failure(next.submissions[submit.id]) == Some(SubmissionErrorKind::RuntimeClosed),
{
    assert(next.submissions.dom().contains(submit.id));
}

/// After shutdown has begun, the driver stops as soon as the last context is
/// gone.
pub proof fn lemma_drained_driver_stops<W>(driver: DriverView<W>, backlog: bool)
    requires
        driver.wf(),
        driver.shutdown,
        driver.contexts == Map::<u64, CqeContext>::empty(),
    ensures
        driver.decision(backlog) == RunDecision::Stop,
{
    if driver.staged.len() > 0 {
        assert(driver.contexts.contains_key(driver.staged[0]));
    }
    if driver.cancel_queue.len() > 0 {
        assert(driver.targets(
            driver.cancel_queue[0].target,
            driver.cancel_queue[0].index,
            driver.cancel_queue[0].original_user_data,
            driver.cancel_queue[0].submission,
        ));
    }
}

/// A drained submission is the boundary of its resources' lifetime: none of the
/// driver's contexts belongs to it, so the kernel holds no pointer of it.
pub proof fn lemma_drained_submission_has_no_context<W>(driver: DriverView<W>, id: u64, p: u64)
    requires
        driver.wf(),
        driver.submissions.contains_key(id),
        driver.submissions[id].drained(),
        driver.contexts.contains_key(p),
    ensures
        driver.contexts[p].submission != id,
{
    driver.lemma_drained_is_retired(id);
}

} // verus!
