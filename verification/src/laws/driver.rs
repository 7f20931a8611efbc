//! Routing, cancellation and admission of the ring driver.
use vstd::prelude::*;
use crate::io_uring::completion::{Cqe, Violation};
use crate::io_uring::context::{
    CancelCommand, ContextKind, ContextPhase, CqeContext, Delivery,
};
use crate::io_uring::driver::{CancelSqe, DriverData};
use crate::io_uring::model::{has_more, members, Class, DriverView};
use crate::io_uring::run::{has_backlog, RunDecision, RunStep};
use crate::park::{DriverGate, DriverPark};

verus! {

/// A new driver accepts submissions and holds nothing.
pub proof fn lemma_new_driver_is_empty<W>(data: DriverData<W>)
    requires
        call_ensures(DriverData::<W>::new, (), data),
    ensures
        data@.contexts.dom() == Set::<u64>::empty(),
        data@.submissions.dom() == Set::<u64>::empty(),
        data@.staged.len() == 0 && data@.cancel_queue.len() == 0,
        data@.accepting && !data@.shutdown,
        data@.next_pointer > 0,
{
    assert(data@.contexts.dom() =~= Set::<u64>::empty());
    assert(data@.submissions.dom() =~= Set::<u64>::empty());
}

/// A completion is routed exactly if it names a context that the kernel has
/// accepted and not finished, and if a cancellation announces no further one.
/// Otherwise nothing changes, and the reason is reported.
pub proof fn lemma_only_known_completions_are_routed<W>(
    data: &mut DriverData<W>,
    cqe: Cqe,
    wakes: &mut Vec<W>,
    overflow: Result<Option<u64>, Violation>,
)
    requires
        old(data)@.wf(),
        call_ensures(DriverData::<W>::dispatch, (data, cqe, wakes), overflow),
    ensures
        ({
            let p = cqe.user_data;
            let known = old(data)@.contexts.contains_key(p);
            let c = old(data)@.contexts[p];
            let announced = cqe.flags & 2 != 0;
            &&& overflow is Ok <==> known && c.phase == ContextPhase::Submitted && !(c.kind
                == ContextKind::Cancel && announced)
            &&& p == 0 ==> overflow == Err::<Option<u64>, Violation>(Violation::NullContext)
            &&& p != 0 && !known ==> overflow == Err::<Option<u64>, Violation>(
                Violation::UnknownContext,
            )
            &&& known && c.phase != ContextPhase::Submitted ==> overflow == Err::<
                Option<u64>,
                Violation,
            >(Violation::UnsubmittedContext)
            &&& known && c.phase == ContextPhase::Submitted && c.kind == ContextKind::Cancel
                && announced ==> overflow == Err::<Option<u64>, Violation>(
                Violation::MultishotCancellation,
            )
        }),
        overflow is Err ==> final(data)@ == old(data)@ && final(wakes)@ == old(wakes)@,
{
    if old(data)@.contexts.contains_key(cqe.user_data) {
        assert(old(data)@.context_wf(cqe.user_data));
    }
}

/// What is delivered for a completion is the kernel's entry with the caller's own
/// tag in place of the pointer, under the index of the submitted entry, to the
/// submission that it belongs to and to no other.
pub proof fn lemma_caller_receives_its_own_tag<W>(
    data: &mut DriverData<W>,
    cqe: Cqe,
    wakes: &mut Vec<W>,
    overflow: Result<Option<u64>, Violation>,
    other: u64,
)
    requires
        old(data)@.wf(),
        call_ensures(DriverData::<W>::dispatch, (data, cqe, wakes), overflow),
        overflow is Ok,
    ensures
        ({
            let c = old(data)@.contexts[cqe.user_data];
            let before = old(data)@.submissions[c.submission];
            let after = final(data)@.submissions[c.submission];
            &&& after.normal.len() > before.normal.len() ==> {
                let delivered = after.normal.last();
                &&& c.kind == ContextKind::Original
                &&& after.normal.len() == before.normal.len() + 1
                &&& delivered.index == c.index
                &&& delivered.cqe.user_data == c.original_user_data
                &&& delivered.cqe.result == cqe.result
                &&& delivered.cqe.flags == cqe.flags
                &&& delivered.cqe.big_cqe == cqe.big_cqe
            }
            &&& after.cancellations.len() > before.cancellations.len() ==> {
                let delivered = after.cancellations.last();
                &&& c.kind == ContextKind::Cancel
                &&& after.cancellations.len() == before.cancellations.len() + 1
                &&& delivered.index == c.index
                &&& delivered.cqe.user_data == c.original_user_data
                &&& delivered.cqe.result == cqe.result
                &&& delivered.cqe.flags == cqe.flags
                &&& delivered.cqe.big_cqe == cqe.big_cqe
            }
            &&& c.kind == ContextKind::Original && before.delivery == Delivery::Open ==> {
                &&& before.normal.len() < before.limit ==> after.normal.len() == before.normal.len()
                    + 1 && overflow == Ok::<Option<u64>, Violation>(None)
                &&& before.normal.len() >= before.limit ==> after.delivery == Delivery::Overflow
                    && overflow == Ok::<Option<u64>, Violation>(Some(c.submission))
            }
            &&& c.kind == ContextKind::Original && before.delivery != Delivery::Open ==> overflow
                == Ok::<Option<u64>, Violation>(None)
            &&& c.kind == ContextKind::Cancel ==> overflow == Ok::<Option<u64>, Violation>(None)
            &&& c.kind == ContextKind::Cancel && before.delivery != Delivery::Detached
                && before.cancellations.len() < before.limit ==> after.cancellations.len()
                == before.cancellations.len() + 1
            &&& before.normal.is_prefix_of(after.normal)
            &&& before.cancellations.is_prefix_of(after.cancellations)
            &&& other != c.submission && old(data)@.submissions.contains_key(other) ==> {
                &&& final(data)@.submissions.contains_key(other)
                &&& final(data)@.submissions[other] == old(data)@.submissions[other]
            }
        }),
        final(data)@.accepting == old(data)@.accepting,
        final(data)@.shutdown == old(data)@.shutdown,
        final(data)@.staged == old(data)@.staged,
        final(data)@.cancel_queue == old(data)@.cancel_queue,
{
}

/// A routed completion counts as terminal exactly if it is the last one of its
/// entry. Then its context is forgotten, unless it is an original whose
/// cancellation is still to be answered; that one goes with the answer.
pub proof fn lemma_context_lives_until_its_last_completion<W>(
    data: &mut DriverData<W>,
    cqe: Cqe,
    wakes: &mut Vec<W>,
    overflow: Result<Option<u64>, Violation>,
    q: u64,
)
    requires
        old(data)@.wf(),
        call_ensures(DriverData::<W>::dispatch, (data, cqe, wakes), overflow),
        overflow is Ok,
    ensures
        ({
            let p = cqe.user_data;
            let c = old(data)@.contexts[p];
            let last = cqe.flags & 2 == 0;
            let before = old(data)@.submissions[c.submission];
            let after = final(data)@.submissions[c.submission];
            let awaited = c.cancel_queued && !c.cancel_seen;
            &&& c.kind == ContextKind::Original ==> {
                &&& final(data)@.contexts.contains_key(p) <==> !last || awaited
                &&& !last ==> final(data)@.contexts[p] == c
                &&& last && awaited ==> final(data)@.contexts[p].phase == ContextPhase::Terminal
                &&& after.original_terminal == before.original_terminal + (if last {
                    1int
                } else {
                    0int
                })
                &&& after.cancel_terminal == before.cancel_terminal
                &&& q != p && old(data)@.contexts.contains_key(q)
                    ==> final(data)@.contexts.contains_key(q) && final(data)@.contexts[q]
                        == old(data)@.contexts[q]
            }
            &&& c.kind == ContextKind::Cancel ==> {
                let target = c.target->0;
                let original = old(data)@.contexts[target];
                &&& !final(data)@.contexts.contains_key(p)
                &&& final(data)@.contexts.contains_key(target) <==> original.phase
                    != ContextPhase::Terminal
                &&& original.phase != ContextPhase::Terminal
                    ==> final(data)@.contexts[target].cancel_seen && final(data)@.contexts[target].phase
                    == original.phase
                &&& after.cancel_terminal == before.cancel_terminal + 1
                &&& after.original_terminal == before.original_terminal
                &&& q != p && q != target && old(data)@.contexts.contains_key(q)
                    ==> final(data)@.contexts.contains_key(q) && final(data)@.contexts[q]
                        == old(data)@.contexts[q]
            }
            &&& !old(data)@.contexts.contains_key(q) ==> !final(data)@.contexts.contains_key(q)
        }),
{
    let p = cqe.user_data;
    assert(old(data)@.context_wf(p));
}

/// A stream's consumer is woken by each completion that its open stream receives,
/// and in any case by the last one. Whoever waits for cancellations is woken by
/// each, and whoever waits for retirement by the completion that brings it.
pub proof fn lemma_routed_completion_wakes_who_waits<W>(
    data: &mut DriverData<W>,
    cqe: Cqe,
    wakes: &mut Vec<W>,
    overflow: Result<Option<u64>, Violation>,
)
    requires
        old(data)@.wf(),
        call_ensures(DriverData::<W>::dispatch, (data, cqe, wakes), overflow),
        overflow is Ok,
    ensures
        ({
            let c = old(data)@.contexts[cqe.user_data];
            let s = old(data)@.submissions[c.submission];
            let after = final(data)@.submissions[c.submission];
            &&& old(wakes)@.is_prefix_of(final(wakes)@)
            &&& c.kind == ContextKind::Original && s.normal_waker is Some && (s.delivery
                == Delivery::Open || after.original_terminal == after.originals && cqe.flags & 2
                == 0) ==> final(wakes)@.contains(s.normal_waker->0)
            &&& c.kind == ContextKind::Cancel && s.cancel_waker is Some && (s.delivery
                != Delivery::Detached || after.cancel_terminal == after.cancels)
                    ==> final(wakes)@.contains(s.cancel_waker->0)
            &&& s.drain_waker is Some && after.original_terminal == after.originals
                && after.cancel_terminal == after.cancels && (c.kind == ContextKind::Cancel
                || cqe.flags & 2 == 0) ==> final(wakes)@.contains(s.drain_waker->0)
            &&& c.kind == ContextKind::Original && s.admission_waker is Some
                && !s.iterator_finished ==> final(wakes)@.contains(s.admission_waker->0)
        }),
{
    let c = old(data)@.contexts[cqe.user_data];
    let s = old(data)@.submissions[c.submission];
    let more = has_more(cqe.flags);
    let start = old(wakes)@.len() as int;
    let all = final(wakes)@;
    match c.kind {
        ContextKind::Original => {
            let admission = crate::waker::taken(!s.iterator_finished, s.admission_waker);
            let normal = crate::waker::taken(s.normal_due(more), s.normal_waker);
            let drained = s.original_terminal + 1 == s.originals && s.cancel_terminal == s.cancels;
            let drain = crate::waker::taken(!more && drained, s.drain_waker);
            assert(all == old(wakes)@ + (admission + normal + drain));
            if admission.len() > 0 {
                assert(all[start] == admission[0]);
            }
            if normal.len() > 0 {
                assert(all[start + admission.len()] == normal[0]);
            }
            if drain.len() > 0 {
                assert(all[start + admission.len() + normal.len()] == drain[0]);
            }
        },
        ContextKind::Cancel => {
            let cancel = crate::waker::taken(s.cancel_due(), s.cancel_waker);
            let drained = s.original_terminal == s.originals && s.cancel_terminal + 1 == s.cancels;
            let drain = crate::waker::taken(drained, s.drain_waker);
            assert(all == old(wakes)@ + (cancel + drain));
            if cancel.len() > 0 {
                assert(all[start] == cancel[0]);
            }
            if drain.len() > 0 {
                assert(all[start + cancel.len()] == drain[0]);
            }
        },
    }
}

/// Reaping routes completions one after the other: routing a batch is routing its
/// first part and then the rest, with the wakes in that order.
pub proof fn lemma_batches_are_routed_in_order<W>(
    driver: DriverView<W>,
    first: Seq<Cqe>,
    rest: Seq<Cqe>,
)
    ensures
        driver.all_dispatched(first + rest) == driver.all_dispatched(first).all_dispatched(rest),
        driver.all_dispatch_wakes(first + rest) == driver.all_dispatch_wakes(first)
            + driver.all_dispatched(first).all_dispatch_wakes(rest),
        driver.all_overflows(first + rest) == driver.all_overflows(first).union(
            driver.all_dispatched(first).all_overflows(rest),
        ),
        driver.first_violation(first + rest) == (if driver.first_violation(first) is Some {
            driver.first_violation(first)
        } else {
            driver.all_dispatched(first).first_violation(rest)
        }),
    decreases rest.len(),
{
    if rest.len() == 0 {
        assert(first + rest =~= first);
        assert(driver.all_overflows(first).union(Set::<u64>::empty()) =~= driver.all_overflows(
            first,
        ));
        assert(driver.all_dispatch_wakes(first) + Seq::<W>::empty() =~= driver.all_dispatch_wakes(
            first,
        ));
    } else {
        lemma_batches_are_routed_in_order(driver, first, rest.drop_last());
        assert((first + rest).drop_last() =~= first + rest.drop_last());
        assert((first + rest).last() == rest.last());
        let middle = driver.all_dispatched(first);
        assert(driver.all_dispatch_wakes(first + rest) =~= driver.all_dispatch_wakes(first)
            + middle.all_dispatch_wakes(rest));
        assert(driver.all_overflows(first + rest) =~= driver.all_overflows(first).union(
            middle.all_overflows(rest),
        ));
    }
}

/// Reaping one completion is routing it, and cancelling its submission if that
/// overflowed.
pub proof fn lemma_reaping_one_is_routing_it<W>(
    reaped: &mut DriverData<W>,
    routed: &mut DriverData<W>,
    cqes: Vec<Cqe>,
    cqe: Cqe,
    reap_wakes: &mut Vec<W>,
    route_wakes: &mut Vec<W>,
    outcome: Result<(), Violation>,
    overflow: Result<Option<u64>, Violation>,
)
    requires
        old(reaped)@.wf(),
        old(reaped)@ == old(routed)@,
        old(reap_wakes)@ == old(route_wakes)@,
        cqes@ == seq![cqe],
        call_ensures(DriverData::<W>::reap, (reaped, cqes, reap_wakes), outcome),
        call_ensures(DriverData::<W>::dispatch, (routed, cqe, route_wakes), overflow),
    ensures
        outcome is Ok <==> overflow is Ok,
        outcome matches Err(violation) ==> overflow == Err::<Option<u64>, Violation>(violation),
        outcome is Ok ==> final(reap_wakes)@ == final(route_wakes)@,
        outcome is Ok ==> final(reaped)@.contexts.dom() == final(routed)@.contexts.dom(),
        overflow == Ok::<Option<u64>, Violation>(None) ==> final(reaped)@ == final(routed)@,
        overflow matches Ok(Some(id)) ==> forall|p: u64| #[trigger]
            final(reaped)@.contexts.contains_key(p) && final(reaped)@.contexts[p].submission == id
                && final(reaped)@.contexts[p].kind == ContextKind::Original
                && final(reaped)@.contexts[p].phase != ContextPhase::Terminal
                ==> final(reaped)@.contexts[p].cancel_queued,
{
    let driver = old(reaped)@;
    let none = Seq::<Cqe>::empty();
    assert(cqes@.drop_last() =~= none);
    assert(driver.all_dispatched(none) == driver);
    assert(driver.first_violation(none) is None);
    assert(driver.all_dispatch_wakes(cqes@) =~= driver.dispatch_wakes(cqe)) by {
        assert(driver.all_dispatch_wakes(none) =~= Seq::<W>::empty());
    }
    assert(driver.all_dispatched(cqes@) == driver.dispatched(cqe));
    if outcome is Ok {
        let middle = driver.dispatched(cqe);
        let ids = driver.all_overflows(cqes@);
        assert(driver.all_overflows(none) =~= Set::<u64>::empty());
        let last = final(reaped)@;
        if overflow->Ok_0 is None {
            assert(ids =~= Set::<u64>::empty());
            lemma_cancelling_nothing_changes_nothing(middle, Delivery::Overflow, last);
        } else {
            let id = overflow->Ok_0->0;
            assert(ids.contains(id));
            assert forall|p: u64| #[trigger]
                last.contexts.contains_key(p) && last.contexts[p].submission == id
                    && last.contexts[p].kind == ContextKind::Original && last.contexts[p].phase
                    != ContextPhase::Terminal implies last.contexts[p].cancel_queued by {
                assert(middle.contexts.dom().contains(p));
            }
        }
    }
}

/// A cancellation of no submission changes nothing.
proof fn lemma_cancelling_nothing_changes_nothing<W>(
    driver: DriverView<W>,
    delivery: Delivery,
    next: DriverView<W>,
)
    requires
        driver.cancel_requested(Set::empty(), delivery, next),
    ensures
        next == driver,
{
    assert(driver.cancel_targets(Set::empty()) =~= Set::<u64>::empty());
    assert forall|p: u64| next.contexts.dom().contains(p) implies next.contexts[p]
        == driver.contexts[p] by {
        assert(next.contexts.contains_key(p));
    }
    assert(next.contexts =~= driver.contexts);
    assert forall|id: u64| next.submissions.dom().contains(id) implies next.submissions[id]
        == driver.submissions[id] by {
        assert(next.submissions.contains_key(id));
    }
    assert(next.submissions =~= driver.submissions);
    assert(next.cancel_queue =~= driver.cancel_queue) by {
        assert(next.cancel_queue.take(driver.cancel_queue.len() as int) =~= next.cancel_queue);
    }
    assert(next =~= driver);
}

/// A cancellation request marks every live original of its submission, once, and
/// queues one command for each that was not marked. It touches nothing of another
/// submission, and never what has completed.
pub proof fn lemma_cancellation_reaches_its_submission_only<W>(
    data: &mut DriverData<W>,
    id: u64,
    delivery: Delivery,
    p: u64,
    other: u64,
)
    requires
        old(data)@.wf(),
        old(data)@.submissions.contains_key(id),
        call_ensures(DriverData::<W>::request_cancel, (data, id, delivery), ()),
        old(data)@.contexts.contains_key(p),
        other != id,
        old(data)@.submissions.contains_key(other),
    ensures
        ({
            let before = old(data)@;
            let after = final(data)@;
            let c = before.contexts[p];
            let reached = c.submission == id && c.kind == ContextKind::Original && c.phase
                != ContextPhase::Terminal;
            &&& after.contexts.contains_key(p)
            &&& reached ==> after.contexts[p].cancel_queued
            &&& !reached ==> after.contexts[p] == c
            &&& after.contexts[p].phase == c.phase && after.contexts[p].index == c.index
                && after.contexts[p].original_user_data == c.original_user_data
                && after.contexts[p].submission == c.submission && after.contexts[p].kind == c.kind
            &&& after.cancel_queue.len() >= before.cancel_queue.len()
            &&& forall|i: int|
                0 <= i < before.cancel_queue.len() ==> #[trigger] after.cancel_queue[i]
                    == before.cancel_queue[i]
            &&& forall|i: int|
                before.cancel_queue.len() <= i < after.cancel_queue.len() ==> {
                    let command = #[trigger] after.cancel_queue[i];
                    &&& before.contexts.contains_key(command.target)
                    &&& before.contexts[command.target].submission == id
                    &&& before.contexts[command.target].kind == ContextKind::Original
                    &&& before.contexts[command.target].phase != ContextPhase::Terminal
                    &&& !before.contexts[command.target].cancel_queued
                    &&& command.submission == id
                    &&& command.index == before.contexts[command.target].index
                    &&& command.original_user_data
                        == before.contexts[command.target].original_user_data
                }
            &&& after.submissions[id].cancels - before.submissions[id].cancels
                == after.cancel_queue.len() - before.cancel_queue.len()
            &&& after.submissions[id].originals == before.submissions[id].originals
            &&& after.submissions[id].original_terminal == before.submissions[id].original_terminal
            &&& after.submissions[id].drain_waker == before.submissions[id].drain_waker
            &&& delivery == Delivery::Detached ==> after.submissions[id].delivery
                == Delivery::Detached
            &&& delivery != Delivery::Detached && before.submissions[id].delivery == Delivery::Open
                ==> after.submissions[id].delivery == delivery
            &&& delivery != Delivery::Detached && before.submissions[id].delivery != Delivery::Open
                ==> after.submissions[id].delivery == before.submissions[id].delivery
            &&& after.submissions.contains_key(other)
            &&& after.submissions[other] == before.submissions[other]
            &&& after.accepting == before.accepting && after.shutdown == before.shutdown
            &&& after.staged == before.staged
        }),
{
    let before = old(data)@;
    let after = final(data)@;
    assert(after.contexts.dom().contains(p));
    assert(after.submissions.dom().contains(id));
    assert(after.submissions.contains_key(id));
    assert(after.submissions.dom().contains(other));
    assert(after.submissions.contains_key(other));
    let targets = before.cancel_targets(set![id]);
    assert(targets =~= members(before.contexts, id, Class::Cancellable));
    assert forall|i: int| 0 <= i < before.cancel_queue.len() implies
        #[trigger] after.cancel_queue[i] == before.cancel_queue[i] by {
        assert(after.cancel_queue.take(before.cancel_queue.len() as int)[i]
            == after.cancel_queue[i]);
    }
}

/// Shutdown closes admission, detaches every submission and cancels every live
/// original.
pub proof fn lemma_shutdown_cancels_everything<W>(data: &mut DriverData<W>, p: u64, id: u64)
    requires
        old(data)@.wf(),
        call_ensures(DriverData::<W>::begin_shutdown, (data,), ()),
        old(data)@.contexts.contains_key(p),
        old(data)@.submissions.contains_key(id),
    ensures
        !final(data)@.accepting,
        final(data)@.shutdown,
        final(data)@.contexts.contains_key(p),
        final(data)@.contexts[p].kind == ContextKind::Original && final(data)@.contexts[p].phase
            != ContextPhase::Terminal ==> final(data)@.contexts[p].cancel_queued,
        final(data)@.contexts[p].phase == old(data)@.contexts[p].phase,
        final(data)@.submissions.contains_key(id),
        final(data)@.submissions[id].delivery == Delivery::Detached,
        final(data)@.submissions[id].normal.len() == 0,
        final(data)@.submissions[id].drain_waker == old(data)@.submissions[id].drain_waker,
{
    assert(old(data)@.context_wf(p));
    assert(final(data)@.contexts.dom().contains(p));
    assert(final(data)@.submissions.dom().contains(id));
    assert(final(data)@.submissions.contains_key(id));
}

/// Registering a submission gives it a number that none before it had, and keeps
/// every submission that somebody holds or that has work left.
pub proof fn lemma_registered_submission_is_new<W>(
    data: &mut DriverData<W>,
    limit: usize,
    registered: Result<u64, Violation>,
    other: u64,
)
    requires
        old(data)@.wf(),
        call_ensures(DriverData::<W>::register_submission, (data, limit), registered),
        old(data)@.submissions.contains_key(other),
    ensures
        registered is Err <==> old(data)@.next_submission == u64::MAX,
        registered is Err ==> final(data)@ == old(data)@,
        registered matches Ok(id) ==> {
            let new = final(data)@.submissions[id];
            &&& id != other
            &&& final(data)@.next_submission == id + 1
            &&& final(data)@.submissions.contains_key(id)
            &&& new.limit == limit && new.held && new.delivery == Delivery::Open
            &&& new.originals == 0 && new.cancels == 0 && new.normal.len() == 0
            &&& !new.iterator_finished
            &&& old(data)@.submissions[other].held || !old(data)@.submissions[other].drained()
                ==> final(data)@.submissions.contains_key(other)
                    && final(data)@.submissions[other] == old(data)@.submissions[other]
            &&& !old(data)@.submissions[other].held && old(data)@.submissions[other].original_terminal
                == old(data)@.submissions[other].originals
                && old(data)@.submissions[other].cancel_terminal
                == old(data)@.submissions[other].cancels ==> !final(data)@.submissions.contains_key(
                other,
            )
            &&& final(data)@.contexts == old(data)@.contexts
            &&& final(data)@.staged == old(data)@.staged
            &&& final(data)@.cancel_queue == old(data)@.cancel_queue
        },
{
    assert(old(data)@.submission_wf(other));
}

/// Cancellation entries are staged in the order of their commands, as many as fit,
/// each under a pointer of its own. Nothing else changes.
pub proof fn lemma_cancellations_are_staged_in_order<W>(
    data: &mut DriverData<W>,
    space: usize,
    entries: Result<Vec<CancelSqe>, Violation>,
)
    requires
        old(data)@.wf(),
        old(data)@.next_pointer + space <= u64::MAX,
        call_ensures(DriverData::<W>::stage_cancellations, (data, space), entries),
    ensures
        entries is Ok,
        ({
            let staged = entries->Ok_0@;
            let queue = old(data)@.cancel_queue;
            &&& staged.len() <= space
            &&& staged.len() == space || staged.len() == queue.len()
            &&& staged.len() + final(data)@.cancel_queue.len() == queue.len()
            &&& forall|i: int|
                0 <= i < staged.len() ==> (#[trigger] staged[i]).target == queue[i].target
                    && !old(data)@.contexts.contains_key(staged[i].user_data)
            &&& forall|i: int, j: int|
                0 <= i < j < staged.len() ==> (#[trigger] staged[i]).user_data != (
                #[trigger] staged[j]).user_data
            &&& forall|i: int|
                0 <= i < final(data)@.cancel_queue.len()
                    ==> #[trigger] final(data)@.cancel_queue[i] == queue[i + staged.len()]
            &&& final(data)@.submissions == old(data)@.submissions
            &&& final(data)@.staged == old(data)@.staged + staged.map_values(
                |sqe: CancelSqe| sqe.user_data,
            )
        }),
        forall|i: int|
            0 <= i < entries->Ok_0@.len() ==> {
                let sqe = #[trigger] entries->Ok_0@[i];
                let command = old(data)@.cancel_queue[i];
                let context = final(data)@.contexts[sqe.user_data];
                &&& final(data)@.contexts.contains_key(sqe.user_data)
                &&& context.kind == ContextKind::Cancel
                &&& context.phase == ContextPhase::Staged
                &&& context.target == Some(command.target)
                &&& context.index == command.index
                &&& context.original_user_data == command.original_user_data
                &&& context.submission == command.submission
            },
{
    let queue = old(data)@.cancel_queue;
    let count = vstd::math::min(space as int, queue.len() as int);
    let staged = entries->Ok_0@;
    assert forall|i: int| 0 <= i < staged.len() implies (#[trigger] staged[i]).target
        == queue[i].target && !old(data)@.contexts.contains_key(staged[i].user_data) by {
        if old(data)@.contexts.contains_key(staged[i].user_data) {
            assert(old(data)@.context_wf(staged[i].user_data));
        }
    }
    assert forall|i: int| 0 <= i < staged.len() implies cancels_by(
        final(data)@.contexts[(#[trigger] staged[i]).user_data],
        queue[i],
    ) && final(data)@.contexts.contains_key(staged[i].user_data) by {
        let p = staged[i].user_data;
        assert(p == old(data)@.next_pointer + i);
        lemma_staged_context(old(data)@, count as nat, p);
    }
    lemma_staged_context(old(data)@, count as nat, 0);
    assert(staged.map_values(|sqe: CancelSqe| sqe.user_data) =~= Seq::new(
        count as nat,
        |i: int| (old(data)@.next_pointer + i) as u64,
    ));
}

/// The context at `p` is that of a staged cancellation for `command`.
spec fn cancels_by(context: CqeContext, command: CancelCommand) -> bool {
    &&& context.kind == ContextKind::Cancel
    &&& context.phase == ContextPhase::Staged
    &&& context.target == Some(command.target)
    &&& context.index == command.index
    &&& context.original_user_data == command.original_user_data
    &&& context.submission == command.submission
}

/// The context of one of the first `count` staged cancellations.
proof fn lemma_staged_context<W>(driver: DriverView<W>, count: nat, p: u64)
    requires
        count <= driver.cancel_queue.len(),
        driver.next_pointer + count <= u64::MAX,
    ensures
        driver.cancels_staged(count).next_pointer == driver.next_pointer + count,
        driver.cancels_staged(count).cancel_queue == driver.cancel_queue.skip(count as int),
        driver.cancels_staged(count).staged == driver.staged + Seq::new(
            count,
            |i: int| (driver.next_pointer + i) as u64,
        ),
        driver.next_pointer <= p < driver.next_pointer + count ==> driver.cancels_staged(
            count,
        ).contexts.contains_key(p) && cancels_by(
            driver.cancels_staged(count).contexts[p],
            driver.cancel_queue[p - driver.next_pointer],
        ),
    decreases count,
{
    if count == 0 {
        assert(driver.cancel_queue.skip(0) =~= driver.cancel_queue);
        assert(driver.staged + Seq::new(0, |i: int| (driver.next_pointer + i) as u64)
            =~= driver.staged);
    } else {
        let before = driver.cancels_staged((count - 1) as nat);
        lemma_staged_context(driver, (count - 1) as nat, p);
        assert(before.cancel_queue.drop_first() =~= driver.cancel_queue.skip(count as int));
        assert(before.cancel_queue[0] == driver.cancel_queue[count - 1]);
        assert(driver.cancels_staged(count) == before.cancel_staged());
        assert(before.staged.push(before.next_pointer) =~= driver.staged + Seq::new(
            count,
            |i: int| (driver.next_pointer + i) as u64,
        ));
    }
}

/// The kernel accepts entries in the order in which they were staged, and as many
/// as it says. What it did not accept stays staged; a failure that may pass
/// changes nothing, and any other one is reported.
pub proof fn lemma_accepted_entries_are_submitted<W>(
    data: &mut DriverData<W>,
    submitted: Result<usize, Option<i32>>,
    wakes: &mut Vec<W>,
    outcome: Result<(), Violation>,
    i: int,
)
    requires
        old(data)@.wf(),
        call_ensures(DriverData::<W>::submit_staged, (data, submitted, wakes), outcome),
        0 <= i < old(data)@.staged.len(),
    ensures
        submitted matches Ok(count) ==> {
            let p = old(data)@.staged[i];
            let c = old(data)@.contexts[p];
            &&& outcome is Ok <==> count <= old(data)@.staged.len()
            &&& outcome is Ok ==> {
                &&& final(data)@.contexts.contains_key(p)
                &&& i < count ==> final(data)@.contexts[p].phase == ContextPhase::Submitted
                &&& i >= count ==> final(data)@.contexts[p] == c && final(data)@.staged[i - count]
                    == p
                &&& final(data)@.contexts[p].original_user_data == c.original_user_data
                    && final(data)@.contexts[p].submission == c.submission
                        && final(data)@.contexts[p].index == c.index
                            && final(data)@.contexts[p].target == c.target
                    && final(data)@.contexts[p].kind == c.kind
                &&& final(data)@.staged.len() == old(data)@.staged.len() - count
                &&& i < count && c.kind == ContextKind::Original
                    && old(data)@.submissions[c.submission].admission_waker is Some
                        ==> final(wakes)@.contains(
                    old(data)@.submissions[c.submission].admission_waker->0,
                )
            }
        },
        submitted matches Err(errno) ==> {
            &&& outcome is Ok <==> errno == Some(4i32) || errno == Some(11i32) || errno == Some(
                16i32,
            )
            &&& final(data)@ == old(data)@
        },
        old(wakes)@.is_prefix_of(final(wakes)@),
{
    if let Ok(count) = submitted {
        if count <= old(data)@.staged.len() {
            lemma_prefix_accepted(old(data)@, count as nat, i);
            let added = old(data)@.prefix_accepted_wakes(count as nat);
            let c = old(data)@.contexts[old(data)@.staged[i]];
            if i < count && c.kind == ContextKind::Original
                && old(data)@.submissions[c.submission].admission_waker is Some {
                let waker = old(data)@.submissions[c.submission].admission_waker->0;
                let k = added.index_of(waker);
                assert(final(wakes)@[old(wakes)@.len() + k] == waker);
            }
        }
    }
}

/// What the acceptance of the first `count` staged entries does to entry `i`.
proof fn lemma_prefix_accepted<W>(driver: DriverView<W>, count: nat, i: int)
    requires
        driver.wf(),
        count <= driver.staged.len(),
        0 <= i < driver.staged.len(),
    ensures
        ({
            let next = driver.prefix_accepted(count);
            let p = driver.staged[i];
            let c = driver.contexts[p];
            let s = driver.submissions[c.submission];
            &&& next.wf()
            &&& next.staged == driver.staged.skip(count as int)
            &&& next.contexts.dom() == driver.contexts.dom()
            &&& next.submissions.dom() == driver.submissions.dom()
            &&& i < count ==> next.contexts[p] == (CqeContext {
                phase: ContextPhase::Submitted,
                ..c
            })
            &&& i >= count ==> next.contexts[p] == c
            &&& i < count && c.kind == ContextKind::Original && s.admission_waker is Some
                ==> driver.prefix_accepted_wakes(count).contains(s.admission_waker->0)
            &&& next.submissions[c.submission].admission_waker == s.admission_waker
                || (next.submissions[c.submission].admission_waker is None && (s.admission_waker
                is Some ==> driver.prefix_accepted_wakes(count).contains(s.admission_waker->0)))
        }),
    decreases count,
{
    let p = driver.staged[i];
    let c = driver.contexts[p];
    let s = driver.submissions[c.submission];
    assert(driver.contexts.contains_key(p));
    assert(driver.context_wf(p));
    if count == 0 {
        assert(driver.staged.skip(0) =~= driver.staged);
    } else {
        let before = driver.prefix_accepted((count - 1) as nat);
        let next = driver.prefix_accepted(count);
        lemma_prefix_accepted(driver, (count - 1) as nat, i);
        lemma_prefix_accepted(driver, (count - 1) as nat, count - 1);
        assert(before.staged[0] == driver.staged[count - 1]);
        before.lemma_first_accepted();
        assert(next.staged =~= driver.staged.skip(count as int));
        let q = driver.staged[count - 1];
        assert(before.contexts.dom().contains(q));
        assert(before.context_wf(q));
        assert(next.contexts.dom() =~= driver.contexts.dom());
        assert(next.submissions.dom() =~= driver.submissions.dom());
        let earlier = driver.prefix_accepted_wakes((count - 1) as nat);
        let added = before.first_accepted_wakes();
        let all = driver.prefix_accepted_wakes(count);
        assert(all == earlier + added);
        assert forall|waker: W| earlier.contains(waker) implies all.contains(waker) by {
            let k = earlier.index_of(waker);
            assert(all[k] == waker);
        }
        assert forall|waker: W| added.contains(waker) implies all.contains(waker) by {
            let k = added.index_of(waker);
            assert(all[earlier.len() + k] == waker);
        }
        let qc = before.contexts[q];
        let qs = before.submissions[qc.submission];
        if qc.kind == ContextKind::Original && qs.admission_waker is Some {
            assert(added[0] == qs.admission_waker->0);
            assert(added.contains(qs.admission_waker->0));
        }
        if q == p {
            assert(driver.staged[i] == driver.staged[count - 1]);
            assert(i == count - 1);
        }
    }
}

/// The driver stops only when shutdown was requested and nothing is left, and does
/// so then. While the kernel may answer it neither stops nor pauses, and while
/// something can be done at once it does not wait either.
pub proof fn lemma_driver_rests_only_when_idle<W>(
    data: DriverData<W>,
    backlog: bool,
    decision: RunDecision,
)
    requires
        data@.wf(),
        call_ensures(DriverData::<W>::decide, (&data, backlog), decision),
    ensures
        ({
            let idle = data@.contexts.dom() == Set::<u64>::empty() && data@.staged.len() == 0
                && data@.cancel_queue.len() == 0;
            let ready = backlog || data@.staged.len() > 0 || data@.cancel_queue.len() > 0;
            &&& decision == RunDecision::Stop <==> data@.shutdown && idle
            &&& decision == RunDecision::Yield <==> ready && !(data@.shutdown && idle)
            &&& decision == RunDecision::Pause <==> idle && !data@.shutdown && !backlog
            &&& decision == RunDecision::Wait <==> !idle && !ready
        }),
{
    let empty = Map::<u64, CqeContext>::empty();
    if data@.contexts.dom() == Set::<u64>::empty() {
        assert(data@.contexts =~= empty);
    } else {
        if data@.contexts == empty {
            assert(data@.contexts.dom() =~= Set::<u64>::empty());
        }
    }
}

/// A driver that was told of work runs on. Otherwise it does what its queues
/// suggest, and its gate shows how it can be woken.
pub proof fn lemma_told_driver_runs_on<W, R>(
    data: DriverData<W>,
    gate: &mut DriverGate<R>,
    backlog: bool,
    decision: RunDecision,
    step: RunStep,
)
    requires
        old(gate).wf(),
        old(gate).raw is Some,
        old(gate).phase == DriverPark::Running,
        call_ensures(DriverData::<W>::decide, (&data, backlog), decision),
        call_ensures(DriverData::<W>::after_pass::<R>, (&data, gate, backlog), step),
    ensures
        step is Stop <==> decision is Stop,
        step is Stop <==> final(gate).phase == DriverPark::Terminal,
        !(decision is Stop) && old(gate).notified ==> step is Continue && !final(gate).notified
            && final(gate).phase == DriverPark::Running,
        !(decision is Stop) && !old(gate).notified ==> {
            &&& decision is Yield ==> step is Yield && final(gate).phase == DriverPark::Running
            &&& decision is Wait ==> step is Wait && final(gate).phase == DriverPark::DeadlineWait
            &&& decision is Pause ==> step is Pause && final(gate).phase == DriverPark::Paused
        },
        final(gate).raw == old(gate).raw,
{
}

/// There may be more completions exactly if the pass took as many as it may, or
/// some were left.
pub proof fn lemma_backlog_is_noticed(reaped: usize, reap_size: usize, empty: bool, backlog: bool)
    requires
        call_ensures(has_backlog, (reaped, reap_size, empty), backlog),
    ensures
        !empty ==> backlog,
        reaped == reap_size ==> backlog,
        empty && reaped != reap_size ==> !backlog,
{
}

} // verus!
