//! State serialized across all producers and the sole CQ consumer.
use std::collections::VecDeque;
use vstd::prelude::*;
use crate::io_uring::completion::{Completion, Cqe, Violation};
use crate::io_uring::context::{CancelCommand, ContextKind, ContextPhase, CqeContext, Delivery};
use crate::io_uring::model::{has_more, members, Class, DriverView};
use crate::io_uring::submission::{SubmissionState, SubmissionView};
use crate::table::Table;

verus! {

/// Calls `io_uring::cqueue::more`, which tests the `IORING_CQE_F_MORE` bit:
/// bit one of the completion flags.
#[verifier::external_body]
fn more_completions(flags: u32) -> (more: bool)
    ensures
        more == has_more(flags),
{
    ::io_uring::cqueue::more(flags)
}

/// Registry of contexts, pending queues, and admission/shutdown flags.
pub struct DriverData<W> {
    /// Live contexts keyed by the pointer stored in kernel `user_data`.
    pub contexts: Table<CqeContext>,
    /// Context pointers in SQ order not yet known to be accepted.
    pub staged: VecDeque<u64>,
    /// Cancellation commands waiting for free SQ slots.
    pub cancel_queue: VecDeque<CancelCommand>,
    /// Submissions that are held by a caller or not drained.
    pub submissions: Table<SubmissionState<W>>,
    /// Whether submission futures may admit more original SQEs.
    pub accepting: bool,
    /// Whether the driver should stop once every work queue is empty.
    pub shutdown: bool,
    /// Pointer of the next context.
    pub next_pointer: u64,
    /// Identifier of the next submission.
    pub next_submission: u64,
}

/// A cancellation SQE to push: it carries `user_data` and cancels `target`.
#[derive(Clone, Copy, Debug, PartialEq, Eq)]
pub struct CancelSqe {
    /// Pointer of the cancellation's own context.
    pub user_data: u64,
    /// Pointer of the original context to cancel.
    pub target: u64,
}

/// Contents of the submissions in `table`.
pub open spec fn submission_views<W>(table: Map<u64, SubmissionState<W>>) -> Map<
    u64,
    SubmissionView<W>,
> {
    table.map_values(|s: SubmissionState<W>| s@)
}

/// Storing a submission stores its content.
pub proof fn lemma_submission_inserted<W>(
    table: Map<u64, SubmissionState<W>>,
    id: u64,
    s: SubmissionState<W>,
)
    ensures
        submission_views(table.insert(id, s)) == submission_views(table).insert(id, s@),
        submission_views(table.remove(id).insert(id, s)) == submission_views(table).insert(id, s@),
{
    assert(submission_views(table.insert(id, s)) =~= submission_views(table).insert(id, s@));
    assert(table.remove(id).insert(id, s) =~= table.insert(id, s));
}

impl<W> View for DriverData<W> {
    type V = DriverView<W>;

    open spec fn view(&self) -> DriverView<W> {
        DriverView {
            contexts: self.contexts@,
            staged: self.staged@,
            cancel_queue: self.cancel_queue@,
            submissions: submission_views(self.submissions@),
            accepting: self.accepting,
            shutdown: self.shutdown,
            next_pointer: self.next_pointer,
            next_submission: self.next_submission,
        }
    }
}

impl<W> DriverData<W> {
    /// Creates a driver that accepts submissions and has no work.
    pub fn new() -> (data: Self)
        ensures
            data@ == DriverView::<W>::empty(),
            data@.wf(),
    {
        let data = DriverData {
            contexts: Table::new(),
            staged: VecDeque::new(),
            cancel_queue: VecDeque::new(),
            submissions: Table::new(),
            accepting: true,
            shutdown: false,
            next_pointer: 1,
            next_submission: 0,
        };
        assert(data@ =~= DriverView::<W>::empty());
        data
    }

    /// Routes one CQE through its pointer context and updates retirement.
    ///
    /// Caller `user_data` is restored before delivery. Original multishot
    /// contexts remain registered while `IORING_CQE_F_MORE` is set. An original
    /// context targeted by cancellation remains registered until both its own
    /// terminal CQE and the cancellation CQE have arrived, in either order.
    ///
    /// Returns the submission only when original delivery first overflows; the
    /// caller then requests its cancellation.
    pub fn dispatch(&mut self, cqe: Cqe, wakes: &mut Vec<W>) -> (overflow: Result<
        Option<u64>,
        Violation,
    >)
        requires
            old(self)@.wf(),
        ensures
            final(self)@.wf(),
            match old(self)@.dispatch_violation(cqe) {
                Some(violation) => {
                    &&& overflow == Err::<Option<u64>, Violation>(violation)
                    &&& final(self)@ == old(self)@
                    &&& final(wakes)@ == old(wakes)@
                },
                None => {
                    &&& overflow == Ok::<Option<u64>, Violation>(old(self)@.dispatch_overflow(cqe))
                    &&& final(self)@ == old(self)@.dispatched(cqe)
                    &&& final(wakes)@ == old(wakes)@ + old(self)@.dispatch_wakes(cqe)
                },
            },
    {
        let pointer: u64 = cqe.user_data;
        if pointer == 0 {
            return Err(Violation::NullContext);
        }
        let more = more_completions(cqe.flags);
        let context: CqeContext = match self.contexts.get(pointer) {
            Some(context) => *context,
            None => {
                return Err(Violation::UnknownContext);
            },
        };
        if context.phase != ContextPhase::Submitted {
            return Err(Violation::UnsubmittedContext);
        }
        if context.kind == ContextKind::Cancel && more {
            return Err(Violation::MultishotCancellation);
        }
        proof {
            self@.lemma_dispatched(cqe);
            assert(self@.context_wf(pointer));
            assert(self.submissions@.contains_key(context.submission));
        }
        let completion = Completion {
            index: context.index,
            cqe: Cqe {
                user_data: context.original_user_data,
                result: cqe.result,
                flags: cqe.flags,
                big_cqe: cqe.big_cqe,
            },
        };
        let mut overflow: Option<u64> = None;
        let mut state: SubmissionState<W> = self.submissions.remove(context.submission).unwrap();
        match context.kind {
            ContextKind::Original => {
                if state.complete_original(completion, more, wakes) {
                    overflow = Some(context.submission);
                }
                if !more {
                    if context.cancel_queued && !context.cancel_seen {
                        let mut terminal = context;
                        terminal.phase = ContextPhase::Terminal;
                        self.contexts.insert(pointer, terminal);
                    } else {
                        self.contexts.remove(pointer);
                    }
                }
            },
            ContextKind::Cancel => {
                state.complete_cancel(completion, wakes);
                let target: u64 = context.target.unwrap();
                let mut original: CqeContext = *self.contexts.get(target).unwrap();
                self.contexts.remove(pointer);
                if original.phase == ContextPhase::Terminal {
                    self.contexts.remove(target);
                } else {
                    original.cancel_seen = true;
                    self.contexts.insert(target, original);
                }
            },
        }
        proof {
            lemma_submission_inserted(old(self).submissions@, context.submission, state);
        }
        self.submissions.insert(context.submission, state);
        assert(self@ =~= old(self)@.dispatched(cqe));
        Ok(overflow)
    }

    /// Allocates submission state and adds it to the registry.
    ///
    /// Submissions that no caller holds and that have no work left are removed
    /// first, so completed submissions do not make the registry grow.
    pub fn register_submission(&mut self, limit: usize) -> (registered: Result<u64, Violation>)
        requires
            old(self)@.wf(),
        ensures
            final(self)@.wf(),
            if old(self)@.next_submission == u64::MAX {
                &&& registered == Err::<u64, Violation>(Violation::SubmissionsExhausted)
                &&& final(self)@ == old(self)@
            } else {
                &&& registered == Ok::<u64, Violation>(old(self)@.next_submission)
                &&& final(self)@ == old(self)@.registered(limit)
            },
    {
        if self.next_submission == u64::MAX {
            return Err(Violation::SubmissionsExhausted);
        }
        let ghost before = self@;
        let ids = self.submissions.keys();
        let mut i: usize = 0;
        while i < ids.len()
            invariant
                0 <= i <= ids@.len(),
                before.wf(),
                self@.wf(),
                self@ == (DriverView { submissions: self@.submissions, ..before }),
                ids@.no_duplicates(),
                ids@.to_set() == before.submissions.dom(),
                forall|id: u64| #[trigger]
                    self@.submissions.contains_key(id) <==> before.submissions.contains_key(id)
                        && !(before.forgotten(id) && ids@.take(i as int).contains(id)),
                forall|id: u64| #[trigger]
                    self@.submissions.contains_key(id) ==> self@.submissions[id]
                        == before.submissions[id],
            decreases ids.len() - i,
        {
            let id: u64 = ids[i];
            let ghost step = self@;
            proof {
                assert(ids@.to_set().contains(id));
                assert(!ids@.take(i as int).contains(id)) by {
                    if ids@.take(i as int).contains(id) {
                        let j = ids@.take(i as int).index_of(id);
                        assert(ids@[j] == ids@[i as int]);
                    }
                }
                assert(step.submissions.contains_key(id));
                assert(self.submissions@.contains_key(id));
            }
            let forgotten = match self.submissions.get(id) {
                Some(state) => !state.held && state.drained(),
                None => false,
            };
            if forgotten {
                proof {
                    step.lemma_submission_removed(id);
                }
                self.submissions.remove(id);
                assert(self@.submissions =~= step.submissions.remove(id));
            }
            proof {
                let take = ids@.take(i as int);
                let next = ids@.take(i + 1);
                assert(next =~= take.push(id));
                assert forall|other: u64| next.contains(other) <==> take.contains(other) || other
                    == id by {
                    if take.contains(other) {
                        let j = take.index_of(other);
                        assert(next[j] == other);
                    }
                    if other == id {
                        assert(next[i as int] == id);
                    }
                }
            }
            i = i + 1;
        }
        let id: u64 = self.next_submission;
        proof {
            assert(ids@.take(i as int) =~= ids@);
            assert forall|id: u64| before.submissions.contains_key(id) implies ids@.contains(
                id,
            ) by {
                assert(ids@.to_set().contains(id));
            }
            assert(self@.submissions =~= before.pruned().submissions);
            self@.lemma_registered(limit);
        }
        let state = SubmissionState::new(limit);
        proof {
            lemma_submission_inserted(self.submissions@, id, state);
        }
        self.submissions.insert(id, state);
        self.next_submission = id + 1;
        assert(self@ =~= before.registered(limit));
        Ok(id)
    }

    /// Converts queued cancellation commands into SQEs until the SQ becomes full.
    ///
    /// `space` is the number of free SQ slots. Each generated SQE receives its
    /// own context while targeting the pointer of an original context. Commands
    /// that do not fit stay queued in their order.
    pub fn stage_cancellations(&mut self, space: usize) -> (entries: Result<
        Vec<CancelSqe>,
        Violation,
    >)
        requires
            old(self)@.wf(),
        ensures
            final(self)@.wf(),
            ({
                let queued = old(self)@.cancel_queue.len();
                let count = vstd::math::min(space as int, queued as int);
                if old(self)@.next_pointer + count > u64::MAX {
                    &&& entries == Err::<Vec<CancelSqe>, Violation>(Violation::PointersExhausted)
                    &&& final(self)@ == old(self)@
                } else {
                    &&& entries is Ok
                    &&& final(self)@ == old(self)@.cancels_staged(count as nat)
                    &&& final(self)@.next_pointer == old(self)@.next_pointer + count
                    &&& final(self)@.cancel_queue == old(self)@.cancel_queue.skip(count)
                    &&& final(self)@.submissions == old(self)@.submissions
                    &&& final(self)@.accepting == old(self)@.accepting
                    &&& final(self)@.shutdown == old(self)@.shutdown
                    &&& final(self)@.next_submission == old(self)@.next_submission
                    &&& entries->Ok_0@ == Seq::new(
                        count as nat,
                        |i: int|
                            CancelSqe {
                                user_data: (old(self)@.next_pointer + i) as u64,
                                target: old(self)@.cancel_queue[i].target,
                            },
                    )
                }
            }),
    {
        let queued: usize = self.cancel_queue.len();
        let count: usize = if space <= queued {
            space
        } else {
            queued
        };
        let pointers: u64 = u64::MAX - self.next_pointer;
        if (count as u128) > (pointers as u128) {
            return Err(Violation::PointersExhausted);
        }
        let ghost before = self@;
        let mut entries: Vec<CancelSqe> = Vec::new();
        let mut done: usize = 0;
        while done < count
            invariant
                done <= count <= before.cancel_queue.len(),
                before.next_pointer + count <= u64::MAX,
                self@.wf(),
                self@ == before.cancels_staged(done as nat),
                self@.next_pointer == before.next_pointer + done,
                self@.cancel_queue == before.cancel_queue.skip(done as int),
                self@.submissions == before.submissions,
                self@.accepting == before.accepting,
                self@.shutdown == before.shutdown,
                self@.next_submission == before.next_submission,
                entries@ == Seq::new(
                    done as nat,
                    |i: int|
                        CancelSqe {
                            user_data: (before.next_pointer + i) as u64,
                            target: before.cancel_queue[i].target,
                        },
                ),
            decreases count - done,
        {
            let ghost step = self@;
            proof {
                step.lemma_cancel_staged();
                assert(before.cancels_staged((done + 1) as nat) == step.cancel_staged());
            }
            let command: CancelCommand = self.cancel_queue.pop_front().unwrap();
            let pointer: u64 = self.next_pointer;
            self.next_pointer = pointer + 1;
            self.contexts.insert(
                pointer,
                CqeContext {
                    kind: ContextKind::Cancel,
                    phase: ContextPhase::Staged,
                    index: command.index,
                    original_user_data: command.original_user_data,
                    submission: command.submission,
                    target: Some(command.target),
                    cancel_queued: false,
                    cancel_seen: false,
                },
            );
            self.staged.push_back(pointer);
            entries.push(CancelSqe { user_data: pointer, target: command.target });
            done = done + 1;
            assert(self@ =~= step.cancel_staged());
            assert(self@.cancel_queue =~= before.cancel_queue.skip(done as int));
            assert(entries@ =~= Seq::new(
                done as nat,
                |i: int|
                    CancelSqe {
                        user_data: (before.next_pointer + i) as u64,
                        target: before.cancel_queue[i].target,
                    },
            ));
        }
        Ok(entries)
    }

    /// Advances the kernel-accepted context prefix after a ring submission.
    ///
    /// `submitted` is the number of SQEs the kernel accepted, or the raw error
    /// of the failed call. Accepted counts correspond to the ordered staged
    /// queue. Admission counters and wakers are updated only for that prefix.
    /// Transient failures leave all contexts staged.
    pub fn submit_staged(
        &mut self,
        submitted: Result<usize, Option<i32>>,
        wakes: &mut Vec<W>,
    ) -> (outcome: Result<(), Violation>)
        requires
            old(self)@.wf(),
        ensures
            final(self)@.wf(),
            match submitted {
                Ok(count) => if count > old(self)@.staged.len() {
                    &&& outcome == Err::<(), Violation>(Violation::UnstagedAccepted)
                    &&& final(self)@ == old(self)@
                    &&& final(wakes)@ == old(wakes)@
                } else {
                    &&& outcome == Ok::<(), Violation>(())
                    &&& final(self)@ == old(self)@.prefix_accepted(count as nat)
                    &&& final(self)@.staged == old(self)@.staged.skip(count as int)
                    &&& final(wakes)@ == old(wakes)@ + old(self)@.prefix_accepted_wakes(
                        count as nat,
                    )
                },
                Err(errno) => {
                    &&& outcome == (if crate::errno::retryable(errno) {
                        Ok::<(), Violation>(())
                    } else {
                        Err(Violation::SubmitFailed)
                    })
                    &&& final(self)@ == old(self)@
                    &&& final(wakes)@ == old(wakes)@
                },
            },
    {
        let count: usize = match submitted {
            Ok(count) => count,
            Err(errno) => {
                if crate::errno::is_retryable(errno) {
                    return Ok(());
                }
                return Err(Violation::SubmitFailed);
            },
        };
        if count > self.staged.len() {
            return Err(Violation::UnstagedAccepted);
        }
        let ghost before = self@;
        let mut done: usize = 0;
        while done < count
            invariant
                done <= count <= before.staged.len(),
                self@.wf(),
                self@ == before.prefix_accepted(done as nat),
                self@.staged == before.staged.skip(done as int),
                wakes@ == old(wakes)@ + before.prefix_accepted_wakes(done as nat),
            decreases count - done,
        {
            let ghost step = self@;
            proof {
                step.lemma_first_accepted();
                assert(before.prefix_accepted((done + 1) as nat) == step.first_accepted());
                assert(step.contexts.contains_key(step.staged[0]));
                assert(step.context_wf(step.staged[0]));
            }
            let pointer: u64 = self.staged.pop_front().unwrap();
            let mut context: CqeContext = *self.contexts.get(pointer).unwrap();
            context.phase = ContextPhase::Submitted;
            self.contexts.insert(pointer, context);
            if context.kind == ContextKind::Original {
                assert(self.submissions@.contains_key(context.submission));
                let mut state: SubmissionState<W> = self.submissions.remove(
                    context.submission,
                ).unwrap();
                assert(state@ == step.submissions[context.submission]);
                assert(step.submission_wf(context.submission));
                state.accept_one(wakes);
                proof {
                    lemma_submission_inserted(old(self).submissions@, context.submission, state);
                    assert(submission_views(
                        self.submissions@.insert(context.submission, state),
                    ) =~= step.submissions.insert(context.submission, state@));
                }
                self.submissions.insert(context.submission, state);
            }
            done = done + 1;
            assert(self@ =~= step.first_accepted());
            assert(self@.staged =~= before.staged.skip(done as int));
            assert(wakes@ =~= old(wakes)@ + before.prefix_accepted_wakes(done as nat));
        }
        Ok(())
    }

    /// Closes delivery as requested and queues cancellation for live originals.
    ///
    /// At most one cancellation command is created for each original context.
    /// Detached delivery additionally discards both retained CQE queues and
    /// their consumer wakers, but terminal counters and the drain waker remain.
    pub fn request_cancel(&mut self, id: u64, delivery: Delivery)
        requires
            old(self)@.wf(),
            old(self)@.submissions.contains_key(id),
        ensures
            final(self)@.wf(),
            old(self)@.cancel_requested(set![id], delivery, final(self)@),
    {
        let ghost before = self@;
        assert(self.submissions@.contains_key(id));
        let mut state: SubmissionState<W> = self.submissions.remove(id).unwrap();
        assert(before.submission_wf(id));
        state.close(delivery);
        let ghost closed = state@;
        proof {
            lemma_submission_inserted(old(self).submissions@, id, state);
            before.lemma_with_submission(id, closed);
        }
        self.submissions.insert(id, state);
        let ghost start = self@;
        assert(start =~= before.with_submission(id, closed));
        let ghost targets = members(start.contexts, id, Class::Cancellable);
        assert(start.with_submission(id, start.submissions[id]) =~= start);
        let pointers = self.contexts.keys();
        let mut count: usize = 0;
        let ghost mut marked = Set::<u64>::empty();
        let mut i: usize = 0;
        while i < pointers.len()
            invariant
                0 <= i <= pointers@.len(),
                pointers@.no_duplicates(),
                pointers@.to_set() == start.contexts.dom(),
                start.contexts.dom().finite(),
                start.submissions.contains_key(id),
                targets == members(start.contexts, id, Class::Cancellable),
                self@.submissions == start.submissions,
                self@.staged == start.staged,
                self@.accepting == start.accepting,
                self@.shutdown == start.shutdown,
                self@.next_pointer == start.next_pointer,
                self@.next_submission == start.next_submission,
                self@.with_submission(
                    id,
                    SubmissionView {
                        cancels: start.submissions[id].cancels + count,
                        ..start.submissions[id]
                    },
                ).wf(),
                marked.finite(),
                marked.len() == count,
                forall|p: u64| #[trigger]
                    marked.contains(p) <==> targets.contains(p) && pointers@.take(
                        i as int,
                    ).contains(p),
                self@.contexts.dom() == start.contexts.dom(),
                forall|p: u64| #[trigger]
                    self@.contexts.contains_key(p) ==> self@.contexts[p] == (if marked.contains(p) {
                        CqeContext { cancel_queued: true, ..start.contexts[p] }
                    } else {
                        start.contexts[p]
                    }),
                self@.cancel_queue.len() == start.cancel_queue.len() + count,
                self@.cancel_queue.take(start.cancel_queue.len() as int) == start.cancel_queue,
                forall|j: int|
                    start.cancel_queue.len() <= j < self@.cancel_queue.len() ==> {
                        let command = #[trigger] self@.cancel_queue[j];
                        &&& marked.contains(command.target)
                        &&& command == CancelCommand::cancelling(
                            command.target,
                            start.contexts[command.target],
                        )
                    },
            decreases pointers.len() - i,
        {
            let pointer: u64 = pointers[i];
            let ghost step = self@;
            let ghost counted = self@.with_submission(
                id,
                SubmissionView {
                    cancels: start.submissions[id].cancels + count,
                    ..start.submissions[id]
                },
            );
            proof {
                assert(pointers@.to_set().contains(pointer));
                assert(!pointers@.take(i as int).contains(pointer)) by {
                    if pointers@.take(i as int).contains(pointer) {
                        let j = pointers@.take(i as int).index_of(pointer);
                        assert(pointers@[j] == pointers@[i as int]);
                    }
                }
                assert(step.contexts.contains_key(pointer));
                let take = pointers@.take(i as int);
                let next = pointers@.take(i + 1);
                assert(next =~= take.push(pointer));
                assert forall|p: u64| next.contains(p) <==> take.contains(p) || p == pointer by {
                    if take.contains(p) {
                        let j = take.index_of(p);
                        assert(next[j] == p);
                    }
                    if p == pointer {
                        assert(next[i as int] == p);
                    }
                }
            }
            let mut context: CqeContext = *self.contexts.get(pointer).unwrap();
            if context.kind == ContextKind::Original && context.phase != ContextPhase::Terminal
                && !context.cancel_queued && context.submission == id {
                proof {
                    counted.lemma_cancel_queued(pointer);
                    assert(counted.submission_wf(id));
                }
                let command = CancelCommand {
                    target: pointer,
                    index: context.index,
                    original_user_data: context.original_user_data,
                    submission: context.submission,
                };
                context.cancel_queued = true;
                self.contexts.insert(pointer, context);
                self.cancel_queue.push_back(command);
                count = count + 1;
                proof {
                    marked = marked.insert(pointer);
                    let next = self@.with_submission(
                        id,
                        SubmissionView {
                            cancels: start.submissions[id].cancels + count,
                            ..start.submissions[id]
                        },
                    );
                    assert(next.submissions =~= counted.cancel_queued(pointer).submissions);
                    assert(next =~= counted.cancel_queued(pointer));
                    assert(self@.contexts.dom() =~= start.contexts.dom());
                    assert(self@.cancel_queue.take(start.cancel_queue.len() as int)
                        =~= start.cancel_queue) by {
                        assert forall|j: int| 0 <= j < start.cancel_queue.len() implies
                            self@.cancel_queue[j] == start.cancel_queue[j] by {
                            assert(step.cancel_queue.take(start.cancel_queue.len() as int)[j]
                                == start.cancel_queue[j]);
                        }
                    }
                }
            }
            i = i + 1;
        }
        let ghost last = self@;
        let mut state: SubmissionState<W> = self.submissions.remove(id).unwrap();
        proof {
            let counted = last.with_submission(
                id,
                SubmissionView {
                    cancels: start.submissions[id].cancels + count,
                    ..start.submissions[id]
                },
            );
            assert(counted.submission_wf(id));
        }
        state.cancels = state.cancels + count;
        self.submissions.insert(id, state);
        proof {
            assert(submission_views(self.submissions@) =~= last.submissions.insert(id, state@));
            assert(self@ =~= last.with_submission(id, state@));
            assert(pointers@.take(i as int) =~= pointers@);
            assert forall|p: u64| targets.contains(p) implies pointers@.contains(p) by {
                assert(pointers@.to_set().contains(p));
            }
            assert(marked =~= targets);
            before.lemma_cancel_targets(set![id]);
            assert(before.cancel_targets(set![id]) =~= targets);
            assert(self@.submissions.dom() =~= before.submissions.dom());
        }
    }

    /// Routes a batch of CQEs and cancels the submissions whose delivery
    /// overflowed.
    ///
    /// Overflow is converted into cancellation only after the whole batch is
    /// routed.
    pub fn reap(&mut self, cqes: Vec<Cqe>, wakes: &mut Vec<W>) -> (outcome: Result<(), Violation>)
        requires
            old(self)@.wf(),
        ensures
            final(self)@.wf(),
            match old(self)@.first_violation(cqes@) {
                Some(violation) => outcome == Err::<(), Violation>(violation),
                None => {
                    &&& outcome == Ok::<(), Violation>(())
                    &&& final(wakes)@ == old(wakes)@ + old(self)@.all_dispatch_wakes(cqes@)
                    &&& old(self)@.all_dispatched(cqes@).cancel_requested(
                        old(self)@.all_overflows(cqes@),
                        Delivery::Overflow,
                        final(self)@,
                    )
                },
            },
    {
        let ghost before = self@;
        let mut overflow: Vec<u64> = Vec::new();
        let mut i: usize = 0;
        while i < cqes.len()
            invariant
                0 <= i <= cqes@.len(),
                before == old(self)@,
                self@.wf(),
                before.first_violation(cqes@.take(i as int)) is None,
                self@ == before.all_dispatched(cqes@.take(i as int)),
                wakes@ == old(wakes)@ + before.all_dispatch_wakes(cqes@.take(i as int)),
                overflow@.to_set() == before.all_overflows(cqes@.take(i as int)),
                forall|j: int|
                    0 <= j < overflow@.len() ==> self@.submissions.contains_key(
                        #[trigger] overflow@[j],
                    ),
            decreases cqes.len() - i,
        {
            let ghost step = self@;
            let ghost listed = overflow@;
            proof {
                assert(cqes@.take(i + 1).drop_last() =~= cqes@.take(i as int));
                assert(cqes@.take(i + 1).last() == cqes@[i as int]);
            }
            match self.dispatch(cqes[i], wakes) {
                Ok(None) => {},
                Ok(Some(id)) => {
                    overflow.push(id);
                    proof {
                        lemma_take_set(overflow@, overflow@.len() - 1);
                        assert(overflow@.take(overflow@.len() - 1) =~= listed);
                        assert(overflow@.take(overflow@.len() as int) =~= overflow@);
                        assert(step.context_wf(cqes@[i as int].user_data));
                    }
                },
                Err(violation) => {
                    proof {
                        before.lemma_first_violation(cqes@, i + 1);
                    }
                    return Err(violation);
                },
            }
            proof {
                if step.dispatch_violation(cqes@[i as int]) is None {
                    assert(step.context_wf(cqes@[i as int].user_data));
                }
            }
            i = i + 1;
            assert(wakes@ =~= old(wakes)@ + before.all_dispatch_wakes(cqes@.take(i as int)));
        }
        assert(cqes@.take(i as int) =~= cqes@);
        let ghost routed = self@;
        proof {
            routed.lemma_cancel_none(Delivery::Overflow);
            assert(overflow@.take(0).to_set() =~= Set::<u64>::empty());
        }
        let mut j: usize = 0;
        while j < overflow.len()
            invariant
                0 <= j <= overflow@.len(),
                self@.wf(),
                routed.wf(),
                routed.cancel_requested(
                    overflow@.take(j as int).to_set(),
                    Delivery::Overflow,
                    self@,
                ),
                forall|k: int|
                    0 <= k < overflow@.len() ==> routed.submissions.contains_key(
                        #[trigger] overflow@[k],
                    ),
            decreases overflow.len() - j,
        {
            let ghost step = self@;
            let id: u64 = overflow[j];
            assert(routed.submissions.contains_key(overflow@[j as int]));
            assert(self@.submissions.dom().contains(id));
            self.request_cancel(id, Delivery::Overflow);
            proof {
                let done = overflow@.take(j as int);
                routed.lemma_cancel_one_more(done.to_set(), step, id, Delivery::Overflow, self@);
                lemma_take_set(overflow@, j as int);
            }
            j = j + 1;
        }
        assert(overflow@.take(j as int) =~= overflow@);
        Ok(())
    }

    /// Stops admission and requests cancellation of every registered submission.
    ///
    /// Once the driver has drained every context its loop decides to stop.
    pub fn begin_shutdown(&mut self)
        requires
            old(self)@.wf(),
        ensures
            final(self)@.wf(),
            (DriverView { accepting: false, shutdown: true, ..old(self)@ }).cancel_requested(
                old(self)@.submissions.dom(),
                Delivery::Detached,
                final(self)@,
            ),
    {
        let ghost before = self@;
        self.accepting = false;
        self.shutdown = true;
        let ghost start = self@;
        proof {
            start.lemma_flags(before);
            start.lemma_cancel_none(Delivery::Detached);
        }
        let ids = self.submissions.keys();
        assert(ids@.take(0).to_set() =~= Set::<u64>::empty());
        assert(ids@.to_set() == start.submissions.dom());
        let mut i: usize = 0;
        while i < ids.len()
            invariant
                0 <= i <= ids@.len(),
                self@.wf(),
                start.wf(),
                ids@.to_set() == start.submissions.dom(),
                start.cancel_requested(ids@.take(i as int).to_set(), Delivery::Detached, self@),
            decreases ids.len() - i,
        {
            let ghost step = self@;
            let id: u64 = ids[i];
            assert(ids@.to_set().contains(id));
            assert(self@.submissions.dom().contains(id));
            self.request_cancel(id, Delivery::Detached);
            proof {
                let done = ids@.take(i as int);
                start.lemma_cancel_one_more(done.to_set(), step, id, Delivery::Detached, self@);
                lemma_take_set(ids@, i as int);
            }
            i = i + 1;
        }
        assert(ids@.take(i as int) =~= ids@);
    }
}

/// Taking one more item adds it to the set of items.
proof fn lemma_take_set(items: Seq<u64>, i: int)
    requires
        0 <= i < items.len(),
    ensures
        items.take(i + 1).to_set() == items.take(i).to_set().insert(items[i]),
{
    let take = items.take(i);
    let next = items.take(i + 1);
    assert(next =~= take.push(items[i]));
    assert forall|x: u64| next.contains(x) <==> take.contains(x) || x == items[i] by {
        if take.contains(x) {
            let j = take.index_of(x);
            assert(next[j] == x);
        }
        if x == items[i] {
            assert(next[i] == x);
        }
    }
    assert(next.to_set() =~= take.to_set().insert(items[i]));
}

} // verus!
