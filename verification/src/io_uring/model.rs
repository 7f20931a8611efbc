//! Mathematical model of the driver: its state, its invariant, and what each
//! operation does to it.
use vstd::prelude::*;
use crate::io_uring::completion::{Cqe, Violation};
use crate::io_uring::context::{CancelCommand, ContextKind, ContextPhase, CqeContext, Delivery};
use crate::io_uring::submission::{restored, SubmissionView};

verus! {

/// Content of the driver's serialized state.
#[verifier::ext_equal]
pub struct DriverView<W> {
    /// Live contexts by the pointer stored in kernel `user_data`.
    pub contexts: Map<u64, CqeContext>,
    /// Context pointers in SQ order not yet known to be accepted.
    pub staged: Seq<u64>,
    /// Cancellation commands waiting for free SQ slots.
    pub cancel_queue: Seq<CancelCommand>,
    /// Submissions that are held by a caller or not drained.
    pub submissions: Map<u64, SubmissionView<W>>,
    /// Whether submission futures may admit more original SQEs.
    pub accepting: bool,
    /// Whether the driver should stop once every work queue is empty.
    pub shutdown: bool,
    /// Pointer of the next context.
    pub next_pointer: u64,
    /// Identifier of the next submission.
    pub next_submission: u64,
}

/// Groups of contexts that the counters of a submission keep track of.
pub enum Class {
    /// Originals without a terminal CQE.
    Live,
    /// Originals that the kernel has not accepted.
    Staged,
    /// Originals whose cancellation has not completed.
    Outstanding,
    /// Live originals without a cancellation.
    Cancellable,
}

/// Whether `context` belongs to `submission` and to `class`.
pub open spec fn in_class(context: CqeContext, submission: u64, class: Class) -> bool {
    &&& context.submission == submission
    &&& match class {
        Class::Live => context.live(),
        Class::Staged => context.live() && context.phase == ContextPhase::Staged,
        Class::Outstanding => context.outstanding(),
        Class::Cancellable => context.cancellable(),
    }
}

/// Pointers of the contexts of `submission` that belong to `class`.
pub open spec fn members(
    contexts: Map<u64, CqeContext>,
    submission: u64,
    class: Class,
) -> Set<u64> {
    Set::new(|p: u64| contexts.contains_key(p) && in_class(contexts[p], submission, class))
}

/// The `IORING_CQE_F_MORE` bit: the same SQE will complete again.
pub open spec fn has_more(flags: u32) -> bool {
    flags & 2 != 0
}

impl<W> DriverView<W> {
    /// The driver before any submission.
    pub open spec fn empty() -> Self {
        DriverView {
            contexts: Map::empty(),
            staged: Seq::empty(),
            cancel_queue: Seq::empty(),
            submissions: Map::empty(),
            accepting: true,
            shutdown: false,
            next_pointer: 1,
            next_submission: 0,
        }
    }

    /// What holds of one context.
    pub open spec fn context_wf(self, p: u64) -> bool {
        let c = self.contexts[p];
        &&& 0 < p < self.next_pointer
        &&& self.submissions.contains_key(c.submission)
        &&& c.cancel_seen ==> c.cancel_queued
        &&& match c.kind {
            ContextKind::Original => {
                &&& c.target is None
                &&& c.phase == ContextPhase::Terminal ==> c.outstanding()
            },
            ContextKind::Cancel => {
                &&& c.phase != ContextPhase::Terminal
                &&& c.target is Some
                &&& self.targets(c.target->0, c.index, c.original_user_data, c.submission)
            },
        }
    }

    /// `p` is an original awaiting its cancellation, with this routing data.
    pub open spec fn targets(
        self,
        p: u64,
        index: usize,
        original_user_data: u64,
        submission: u64,
    ) -> bool {
        &&& self.contexts.contains_key(p)
        &&& self.contexts[p].outstanding()
        &&& self.contexts[p].index == index
        &&& self.contexts[p].original_user_data == original_user_data
        &&& self.contexts[p].submission == submission
    }

    /// What holds of the contexts together.
    pub open spec fn contexts_wf(self) -> bool {
        &&& self.contexts.dom().finite()
        &&& forall|p: u64| #[trigger] self.contexts.contains_key(p) ==> self.context_wf(p)
        &&& forall|p: u64, q: u64|
            #![trigger self.contexts.contains_key(p), self.contexts.contains_key(q)]
            self.contexts.contains_key(p) && self.contexts.contains_key(q) && p != q
                && self.contexts[p].kind == ContextKind::Cancel && self.contexts[q].kind
                == ContextKind::Cancel ==> self.contexts[p].target != self.contexts[q].target
    }

    /// The staged queue lists exactly the staged contexts, each once.
    pub open spec fn staged_wf(self) -> bool {
        &&& self.staged.no_duplicates()
        &&& forall|i: int|
            0 <= i < self.staged.len() ==> {
                &&& self.contexts.contains_key(#[trigger] self.staged[i])
                &&& self.contexts[self.staged[i]].phase == ContextPhase::Staged
            }
        &&& forall|p: u64| #[trigger]
            self.contexts.contains_key(p) && self.contexts[p].phase == ContextPhase::Staged
                ==> self.staged.contains(p)
    }

    /// Each queued command has an original to cancel that nothing else cancels.
    pub open spec fn queue_wf(self) -> bool {
        &&& forall|i: int|
            0 <= i < self.cancel_queue.len() ==> {
                let command = #[trigger] self.cancel_queue[i];
                self.targets(
                    command.target,
                    command.index,
                    command.original_user_data,
                    command.submission,
                )
            }
        &&& forall|i: int, j: int|
            0 <= i < j < self.cancel_queue.len() ==> (#[trigger] self.cancel_queue[i]).target != (
            #[trigger] self.cancel_queue[j]).target
        &&& forall|i: int, p: u64|
            #![trigger self.cancel_queue[i], self.contexts.contains_key(p)]
            0 <= i < self.cancel_queue.len() && self.contexts.contains_key(p)
                && self.contexts[p].kind == ContextKind::Cancel ==> self.contexts[p].target != Some(
                self.cancel_queue[i].target,
            )
    }

    /// The context at `q` cancels the original at `p`.
    pub open spec fn context_cancels(self, q: u64, p: u64) -> bool {
        self.contexts.contains_key(q) && self.contexts[q].kind == ContextKind::Cancel
            && self.contexts[q].target == Some(p)
    }

    /// The queued command at `i` cancels the original at `p`.
    pub open spec fn command_cancels(self, i: int, p: u64) -> bool {
        0 <= i < self.cancel_queue.len() && self.cancel_queue[i].target == p
    }

    /// A cancellation of the original at `p` is queued or under way.
    pub open spec fn has_canceller(self, p: u64) -> bool {
        (exists|q: u64| #[trigger] self.context_cancels(q, p)) || (exists|i: int| #[trigger]
            self.command_cancels(i, p))
    }

    /// Every original that awaits a cancellation has one.
    pub open spec fn cancellers_wf(self) -> bool {
        forall|p: u64| #[trigger]
            self.contexts.contains_key(p) && self.contexts[p].outstanding() ==> self.has_canceller(
                p,
            )
    }

    /// The counters of a submission equal the numbers of its contexts.
    pub open spec fn submission_wf(self, id: u64) -> bool {
        let s = self.submissions[id];
        &&& id < self.next_submission
        &&& s.wf()
        &&& s.originals - s.original_terminal == members(self.contexts, id, Class::Live).len()
        &&& s.originals - s.accepted == members(self.contexts, id, Class::Staged).len()
        &&& s.cancels - s.cancel_terminal == members(self.contexts, id, Class::Outstanding).len()
        &&& s.cancels + members(self.contexts, id, Class::Cancellable).len() <= s.originals
    }

    /// Invariant of the driver.
    pub open spec fn wf(self) -> bool {
        &&& self.next_pointer > 0
        &&& self.contexts_wf()
        &&& self.staged_wf()
        &&& self.queue_wf()
        &&& self.cancellers_wf()
        &&& self.submissions.dom().finite()
        &&& forall|id: u64| #[trigger]
            self.submissions.contains_key(id) ==> self.submission_wf(id)
    }

    /// Submissions that a caller holds or that still have work.
    pub open spec fn pruned(self) -> Self {
        DriverView {
            submissions: Map::new(
                |id: u64| self.submissions.contains_key(id) && !self.forgotten(id),
                |id: u64| self.submissions[id],
            ),
            ..self
        }
    }

    /// A submission nobody can observe any more.
    pub open spec fn forgotten(self, id: u64) -> bool {
        !self.submissions[id].held && self.submissions[id].drained()
    }

    /// The driver with a new submission registered.
    pub open spec fn registered(self, limit: usize) -> Self {
        DriverView {
            submissions: self.pruned().submissions.insert(
                self.next_submission,
                SubmissionView::fresh(limit),
            ),
            next_submission: (self.next_submission + 1) as u64,
            ..self
        }
    }

    /// The driver with the state of one submission replaced.
    pub open spec fn with_submission(self, id: u64, s: SubmissionView<W>) -> Self {
        DriverView { submissions: self.submissions.insert(id, s), ..self }
    }

    /// An original SQE receives a context and a place in the queue.
    pub open spec fn original_staged(self, id: u64, index: usize, user_data: u64) -> Self {
        let s = self.submissions[id];
        DriverView {
            contexts: self.contexts.insert(
                self.next_pointer,
                CqeContext::original(id, index, user_data),
            ),
            staged: self.staged.push(self.next_pointer),
            submissions: self.submissions.insert(
                id,
                SubmissionView { originals: s.originals + 1, ..s },
            ),
            next_pointer: (self.next_pointer + 1) as u64,
            ..self
        }
    }

    /// The first queued command becomes a staged cancellation SQE.
    pub open spec fn cancel_staged(self) -> Self {
        DriverView {
            contexts: self.contexts.insert(self.next_pointer, self.cancel_queue[0].context()),
            staged: self.staged.push(self.next_pointer),
            cancel_queue: self.cancel_queue.drop_first(),
            next_pointer: (self.next_pointer + 1) as u64,
            ..self
        }
    }

    /// The first `count` queued commands become staged cancellation SQEs.
    pub open spec fn cancels_staged(self, count: nat) -> Self
        decreases count,
    {
        if count == 0 {
            self
        } else {
            self.cancels_staged((count - 1) as nat).cancel_staged()
        }
    }

    /// The kernel accepts the first staged SQE.
    pub open spec fn first_accepted(self) -> Self {
        let p = self.staged[0];
        let c = self.contexts[p];
        let accepted = DriverView {
            contexts: self.contexts.insert(
                p,
                CqeContext { phase: ContextPhase::Submitted, ..c },
            ),
            staged: self.staged.drop_first(),
            ..self
        };
        if c.kind == ContextKind::Original {
            accepted.with_submission(
                c.submission,
                self.submissions[c.submission].accepted_one(),
            )
        } else {
            accepted
        }
    }

    /// Wakers that are due once the first staged SQE is accepted.
    pub open spec fn first_accepted_wakes(self) -> Seq<W> {
        let c = self.contexts[self.staged[0]];
        crate::waker::taken(
            c.kind == ContextKind::Original,
            self.submissions[c.submission].admission_waker,
        )
    }

    /// The kernel accepts the first `count` staged SQEs.
    pub open spec fn prefix_accepted(self, count: nat) -> Self
        decreases count,
    {
        if count == 0 {
            self
        } else {
            self.prefix_accepted((count - 1) as nat).first_accepted()
        }
    }

    /// Wakers that are due once the first `count` staged SQEs are accepted.
    pub open spec fn prefix_accepted_wakes(self, count: nat) -> Seq<W>
        decreases count,
    {
        if count == 0 {
            Seq::empty()
        } else {
            self.prefix_accepted_wakes((count - 1) as nat) + self.prefix_accepted(
                (count - 1) as nat,
            ).first_accepted_wakes()
        }
    }

    /// A cancellation is queued for the original at `p`.
    pub open spec fn cancel_queued(self, p: u64) -> Self {
        let c = self.contexts[p];
        let s = self.submissions[c.submission];
        DriverView {
            contexts: self.contexts.insert(p, CqeContext { cancel_queued: true, ..c }),
            cancel_queue: self.cancel_queue.push(CancelCommand::cancelling(p, c)),
            submissions: self.submissions.insert(
                c.submission,
                SubmissionView { cancels: s.cancels + 1, ..s },
            ),
            ..self
        }
    }

    /// Why `cqe` cannot be routed.
    pub open spec fn dispatch_violation(self, cqe: Cqe) -> Option<Violation> {
        if cqe.user_data == 0 {
            Some(Violation::NullContext)
        } else if !self.contexts.contains_key(cqe.user_data) {
            Some(Violation::UnknownContext)
        } else if self.contexts[cqe.user_data].phase != ContextPhase::Submitted {
            Some(Violation::UnsubmittedContext)
        } else if self.contexts[cqe.user_data].kind == ContextKind::Cancel && has_more(cqe.flags) {
            Some(Violation::MultishotCancellation)
        } else {
            None
        }
    }

    /// State after `cqe` is routed through its context.
    pub open spec fn dispatched(self, cqe: Cqe) -> Self {
        let p = cqe.user_data;
        let c = self.contexts[p];
        let s = self.submissions[c.submission];
        let more = has_more(cqe.flags);
        let completion = restored(c.index, cqe, c.original_user_data);
        match c.kind {
            ContextKind::Original => DriverView {
                contexts: if more {
                    self.contexts
                } else if c.outstanding() {
                    self.contexts.insert(p, CqeContext { phase: ContextPhase::Terminal, ..c })
                } else {
                    self.contexts.remove(p)
                },
                submissions: self.submissions.insert(
                    c.submission,
                    s.original_completed(completion, more),
                ),
                ..self
            },
            ContextKind::Cancel => {
                let target = c.target->0;
                let original = self.contexts[target];
                DriverView {
                    contexts: if original.phase == ContextPhase::Terminal {
                        self.contexts.remove(p).remove(target)
                    } else {
                        self.contexts.remove(p).insert(
                            target,
                            CqeContext { cancel_seen: true, ..original },
                        )
                    },
                    submissions: self.submissions.insert(
                        c.submission,
                        s.cancel_completed(completion),
                    ),
                    ..self
                }
            },
        }
    }

    /// Wakers that are due once `cqe` is routed.
    pub open spec fn dispatch_wakes(self, cqe: Cqe) -> Seq<W> {
        let c = self.contexts[cqe.user_data];
        let s = self.submissions[c.submission];
        match c.kind {
            ContextKind::Original => s.original_wakes(has_more(cqe.flags)),
            ContextKind::Cancel => s.cancel_wakes(),
        }
    }

    /// The submission whose original delivery overflows with `cqe`.
    pub open spec fn dispatch_overflow(self, cqe: Cqe) -> Option<u64> {
        let c = self.contexts[cqe.user_data];
        if c.kind == ContextKind::Original && self.submissions[c.submission].overflows() {
            Some(c.submission)
        } else {
            None
        }
    }

    /// Originals that a cancellation of the submissions in `ids` reaches.
    pub open spec fn cancel_targets(self, ids: Set<u64>) -> Set<u64> {
        Set::new(
            |p: u64|
                self.contexts.contains_key(p) && self.contexts[p].cancellable() && ids.contains(
                    self.contexts[p].submission,
                ),
        )
    }

    /// `next` is this driver after cancellation of `ids` was requested.
    ///
    /// The order in which the new commands are queued is left open.
    pub open spec fn cancel_requested(
        self,
        ids: Set<u64>,
        delivery: Delivery,
        next: Self,
    ) -> bool {
        let targets = self.cancel_targets(ids);
        let queued = self.cancel_queue.len();
        &&& next.contexts.dom() == self.contexts.dom()
        &&& forall|p: u64| #[trigger]
            next.contexts.contains_key(p) ==> next.contexts[p] == (if targets.contains(p) {
                CqeContext { cancel_queued: true, ..self.contexts[p] }
            } else {
                self.contexts[p]
            })
        &&& next.cancel_queue.len() == queued + targets.len()
        &&& next.cancel_queue.take(queued as int) == self.cancel_queue
        &&& forall|i: int|
            queued <= i < next.cancel_queue.len() ==> {
                let command = #[trigger] next.cancel_queue[i];
                &&& targets.contains(command.target)
                &&& command == CancelCommand::cancelling(
                    command.target,
                    self.contexts[command.target],
                )
            }
        &&& next.submissions.dom() == self.submissions.dom()
        &&& forall|id: u64| #[trigger]
            next.submissions.contains_key(id) ==> next.submissions[id] == (if ids.contains(id) {
                SubmissionView {
                    cancels: self.submissions[id].cancels + members(
                        self.contexts,
                        id,
                        Class::Cancellable,
                    ).len(),
                    ..self.submissions[id].closed(delivery)
                }
            } else {
                self.submissions[id]
            })
        &&& next.staged == self.staged
        &&& next.accepting == self.accepting
        &&& next.shutdown == self.shutdown
        &&& next.next_pointer == self.next_pointer
        &&& next.next_submission == self.next_submission
    }

    /// State after every CQE of `cqes` is routed in order.
    pub open spec fn all_dispatched(self, cqes: Seq<Cqe>) -> Self
        decreases cqes.len(),
    {
        if cqes.len() == 0 {
            self
        } else {
            self.all_dispatched(cqes.drop_last()).dispatched(cqes.last())
        }
    }

    /// Why the first CQE that cannot be routed cannot.
    pub open spec fn first_violation(self, cqes: Seq<Cqe>) -> Option<Violation>
        decreases cqes.len(),
    {
        if cqes.len() == 0 {
            None
        } else if self.first_violation(cqes.drop_last()) is Some {
            self.first_violation(cqes.drop_last())
        } else {
            self.all_dispatched(cqes.drop_last()).dispatch_violation(cqes.last())
        }
    }

    /// Wakers that are due once every CQE of `cqes` is routed.
    pub open spec fn all_dispatch_wakes(self, cqes: Seq<Cqe>) -> Seq<W>
        decreases cqes.len(),
    {
        if cqes.len() == 0 {
            Seq::empty()
        } else {
            self.all_dispatch_wakes(cqes.drop_last()) + self.all_dispatched(
                cqes.drop_last(),
            ).dispatch_wakes(cqes.last())
        }
    }

    /// Submissions whose delivery overflows while `cqes` are routed.
    pub open spec fn all_overflows(self, cqes: Seq<Cqe>) -> Set<u64>
        decreases cqes.len(),
    {
        if cqes.len() == 0 {
            Set::empty()
        } else {
            let before = self.all_overflows(cqes.drop_last());
            match self.all_dispatched(cqes.drop_last()).dispatch_overflow(cqes.last()) {
                Some(id) => before.insert(id),
                None => before,
            }
        }
    }
}

/// Every group of contexts is finite.
pub proof fn lemma_members_finite(contexts: Map<u64, CqeContext>)
    requires
        contexts.dom().finite(),
    ensures
        forall|id: u64, class: Class| (#[trigger] members(contexts, id, class)).finite(),
{
    assert forall|id: u64, class: Class| (#[trigger] members(contexts, id, class)).finite() by {
        let all = members(contexts, id, class);
        assert(all.subset_of(contexts.dom()));
        vstd::set_lib::lemma_set_subset_finite(contexts.dom(), all);
    }
}

/// The group that results from storing `c` under `p`.
pub open spec fn members_inserted(before: Set<u64>, p: u64, member: bool) -> Set<u64> {
    if member {
        before.insert(p)
    } else {
        before.remove(p)
    }
}

/// How the groups of contexts change when one context is stored.
pub proof fn lemma_members_insert(contexts: Map<u64, CqeContext>, p: u64, c: CqeContext)
    requires
        contexts.dom().finite(),
    ensures
        contexts.insert(p, c).dom().finite(),
        forall|id: u64, class: Class| (#[trigger] members(contexts, id, class)).finite(),
        forall|id: u64, class: Class| #[trigger]
            members(contexts.insert(p, c), id, class) == members_inserted(
                members(contexts, id, class),
                p,
                in_class(c, id, class),
            ),
{
    lemma_members_finite(contexts);
    assert forall|id: u64, class: Class| #[trigger]
        members(contexts.insert(p, c), id, class) == members_inserted(
            members(contexts, id, class),
            p,
            in_class(c, id, class),
        ) by {
        assert(members(contexts.insert(p, c), id, class) =~= members_inserted(
            members(contexts, id, class),
            p,
            in_class(c, id, class),
        ));
    }
}

/// How the groups of contexts change when one context is dropped.
pub proof fn lemma_members_remove(contexts: Map<u64, CqeContext>, p: u64)
    requires
        contexts.dom().finite(),
    ensures
        contexts.remove(p).dom().finite(),
        forall|id: u64, class: Class| (#[trigger] members(contexts, id, class)).finite(),
        forall|id: u64, class: Class| #[trigger]
            members(contexts.remove(p), id, class) == members(contexts, id, class).remove(p),
{
    lemma_members_finite(contexts);
    assert forall|id: u64, class: Class| #[trigger]
        members(contexts.remove(p), id, class) == members(contexts, id, class).remove(p) by {
        assert(members(contexts.remove(p), id, class) =~= members(contexts, id, class).remove(p));
    }
}

impl<W> DriverView<W> {
    /// Contexts and commands that stay keep cancelling.
    proof fn lemma_canceller_kept(self, next: Self, p: u64)
        requires
            self.has_canceller(p),
            forall|q: u64| #[trigger]
                self.context_cancels(q, p) ==> next.context_cancels(q, p),
            forall|i: int| #[trigger]
                self.command_cancels(i, p) ==> next.has_canceller(p),
        ensures
            next.has_canceller(p),
    {
        if exists|q: u64| #[trigger] self.context_cancels(q, p) {
            let q = choose|q: u64| #[trigger] self.context_cancels(q, p);
            assert(next.context_cancels(q, p));
        } else {
            let i = choose|i: int| #[trigger] self.command_cancels(i, p);
        }
    }

    /// Staging a cancellation keeps the invariant.
    pub proof fn lemma_cancel_staged(self)
        requires
            self.wf(),
            self.cancel_queue.len() > 0,
            self.next_pointer < u64::MAX,
        ensures
            self.cancel_staged().wf(),
    {
        let next = self.cancel_staged();
        let p = self.next_pointer;
        let command = self.cancel_queue[0];
        lemma_members_insert(self.contexts, p, command.context());
        assert(!self.contexts.contains_key(p));
        assert forall|q: u64| #[trigger] next.contexts.contains_key(q) implies next.context_wf(
            q,
        ) by {
            if q != p {
                assert(self.contexts.contains_key(q));
                assert(self.context_wf(q));
            }
        }
        assert forall|i: int| 0 <= i < next.cancel_queue.len() implies next.cancel_queue[i]
            == self.cancel_queue[i + 1] by {}
        assert forall|q: u64| #[trigger]
            next.contexts.contains_key(q) && next.contexts[q].phase
                == ContextPhase::Staged implies next.staged.contains(q) by {
            if q == p {
                assert(next.staged[self.staged.len() as int] == p);
            } else {
                assert(self.contexts.contains_key(q));
                let i = self.staged.index_of(q);
                assert(next.staged[i] == q);
            }
        }
        assert forall|q: u64| #[trigger]
            next.contexts.contains_key(q) && next.contexts[q].outstanding() implies next.has_canceller(
            q,
        ) by {
            assert(self.contexts.contains_key(q));
            assert forall|i: int| #[trigger] self.command_cancels(i, q) implies next.has_canceller(
                q,
            ) by {
                if i == 0 {
                    assert(next.context_cancels(p, q));
                } else {
                    assert(next.command_cancels(i - 1, q));
                }
            }
            self.lemma_canceller_kept(next, q);
        }
        assert forall|id: u64| #[trigger]
            next.submissions.contains_key(id) implies next.submission_wf(id) by {
            assert(self.submission_wf(id));
        }
    }

    /// Staging an original keeps the invariant.
    pub proof fn lemma_original_staged(self, id: u64, index: usize, user_data: u64)
        requires
            self.wf(),
            self.submissions.contains_key(id),
            self.submissions[id].originals < usize::MAX,
            self.next_pointer < u64::MAX,
        ensures
            self.original_staged(id, index, user_data).wf(),
    {
        let next = self.original_staged(id, index, user_data);
        let p = self.next_pointer;
        let c = CqeContext::original(id, index, user_data);
        lemma_members_insert(self.contexts, p, c);
        assert(!self.contexts.contains_key(p));
        assert forall|q: u64| #[trigger] next.contexts.contains_key(q) implies next.context_wf(
            q,
        ) by {
            if q != p {
                assert(self.contexts.contains_key(q));
                assert(self.context_wf(q));
            }
        }
        assert forall|q: u64| #[trigger]
            next.contexts.contains_key(q) && next.contexts[q].phase
                == ContextPhase::Staged implies next.staged.contains(q) by {
            if q == p {
                assert(next.staged[self.staged.len() as int] == p);
            } else {
                assert(self.contexts.contains_key(q));
                let i = self.staged.index_of(q);
                assert(next.staged[i] == q);
            }
        }
        assert forall|q: u64| #[trigger]
            next.contexts.contains_key(q) && next.contexts[q].outstanding() implies next.has_canceller(
            q,
        ) by {
            assert(self.contexts.contains_key(q));
            assert forall|i: int| #[trigger] self.command_cancels(i, q) implies next.has_canceller(
                q,
            ) by {
                assert(next.command_cancels(i, q));
            }
            self.lemma_canceller_kept(next, q);
        }
        assert forall|other: u64| #[trigger]
            next.submissions.contains_key(other) implies next.submission_wf(other) by {
            assert(self.submissions.contains_key(other));
            assert(self.submission_wf(other));
        }
    }

    /// Accepting the first staged SQE keeps the invariant.
    pub proof fn lemma_first_accepted(self)
        requires
            self.wf(),
            self.staged.len() > 0,
        ensures
            self.first_accepted().wf(),
            self.contexts[self.staged[0]].kind == ContextKind::Original
                ==> self.submissions[self.contexts[self.staged[0]].submission].accepted
                < self.submissions[self.contexts[self.staged[0]].submission].originals,
    {
        let next = self.first_accepted();
        let p = self.staged[0];
        let c = self.contexts[p];
        let accepted = CqeContext { phase: ContextPhase::Submitted, ..c };
        lemma_members_insert(self.contexts, p, accepted);
        assert(self.contexts.contains_key(p));
        assert(self.context_wf(p));
        assert forall|q: u64| #[trigger] next.contexts.contains_key(q) implies next.context_wf(
            q,
        ) by {
            assert(self.contexts.contains_key(q));
            assert(self.context_wf(q));
        }
        assert forall|i: int| 0 <= i < next.staged.len() implies next.staged[i] == self.staged[i
            + 1] by {}
        assert forall|q: u64| #[trigger]
            next.contexts.contains_key(q) && next.contexts[q].phase
                == ContextPhase::Staged implies next.staged.contains(q) by {
            assert(self.contexts.contains_key(q));
            let i = self.staged.index_of(q);
            assert(next.staged[i - 1] == q);
        }
        if c.kind == ContextKind::Original {
            assert(self.submission_wf(c.submission));
            assert(members(self.contexts, c.submission, Class::Staged).contains(p));
            assert(members(self.contexts, c.submission, Class::Staged).len() > 0);
        }
        assert forall|q: u64| #[trigger]
            next.contexts.contains_key(q) && next.contexts[q].outstanding() implies next.has_canceller(
            q,
        ) by {
            assert(self.contexts.contains_key(q));
            assert forall|i: int| #[trigger] self.command_cancels(i, q) implies next.has_canceller(
                q,
            ) by {
                assert(next.command_cancels(i, q));
            }
            self.lemma_canceller_kept(next, q);
        }
        assert forall|other: u64| #[trigger]
            next.submissions.contains_key(other) implies next.submission_wf(other) by {
            assert(self.submissions.contains_key(other));
            assert(self.submission_wf(other));
        }
    }

    /// Queueing a cancellation keeps the invariant.
    pub proof fn lemma_cancel_queued(self, p: u64)
        requires
            self.wf(),
            self.contexts.contains_key(p),
            self.contexts[p].cancellable(),
        ensures
            self.cancel_queued(p).wf(),
            self.submissions[self.contexts[p].submission].cancels
                < self.submissions[self.contexts[p].submission].originals,
    {
        let next = self.cancel_queued(p);
        let c = self.contexts[p];
        lemma_members_insert(self.contexts, p, CqeContext { cancel_queued: true, ..c });
        assert(self.context_wf(p));
        assert(self.submission_wf(c.submission));
        assert(members(self.contexts, c.submission, Class::Cancellable).contains(p));
        assert(members(self.contexts, c.submission, Class::Cancellable).len() > 0);
        assert forall|q: u64| #[trigger] next.contexts.contains_key(q) implies next.context_wf(
            q,
        ) by {
            assert(self.contexts.contains_key(q));
            assert(self.context_wf(q));
        }
        assert forall|q: u64| #[trigger]
            next.contexts.contains_key(q) && next.contexts[q].phase
                == ContextPhase::Staged implies next.staged.contains(q) by {
            assert(self.contexts.contains_key(q));
        }
        assert forall|q: u64| #[trigger]
            next.contexts.contains_key(q) && next.contexts[q].outstanding() implies next.has_canceller(
            q,
        ) by {
            assert(self.contexts.contains_key(q));
            if q == p {
                assert(next.command_cancels(self.cancel_queue.len() as int, p));
            } else {
                assert forall|i: int| #[trigger] self.command_cancels(
                    i,
                    q,
                ) implies next.has_canceller(q) by {
                    assert(next.command_cancels(i, q));
                }
                self.lemma_canceller_kept(next, q);
            }
        }
        assert forall|other: u64| #[trigger]
            next.submissions.contains_key(other) implies next.submission_wf(other) by {
            assert(self.submissions.contains_key(other));
            assert(self.submission_wf(other));
        }
    }

    /// Replacing a submission's queues and wakers keeps the invariant.
    pub proof fn lemma_with_submission(self, id: u64, s: SubmissionView<W>)
        requires
            self.wf(),
            self.submissions.contains_key(id),
            s.wf(),
            s.originals == self.submissions[id].originals,
            s.accepted == self.submissions[id].accepted,
            s.original_terminal == self.submissions[id].original_terminal,
            s.cancels == self.submissions[id].cancels,
            s.cancel_terminal == self.submissions[id].cancel_terminal,
        ensures
            self.with_submission(id, s).wf(),
    {
        let next = self.with_submission(id, s);
        assert(self.submission_wf(id));
        assert forall|q: u64| #[trigger] next.contexts.contains_key(q) implies next.context_wf(
            q,
        ) by {
            assert(self.context_wf(q));
        }
        assert forall|q: u64| #[trigger]
            next.contexts.contains_key(q) && next.contexts[q].outstanding() implies next.has_canceller(
            q,
        ) by {
            assert(self.contexts.contains_key(q));
            assert forall|i: int| #[trigger] self.command_cancels(i, q) implies next.has_canceller(
                q,
            ) by {
                assert(next.command_cancels(i, q));
            }
            assert forall|k: u64| #[trigger] self.context_cancels(k, q) implies next.context_cancels(
                k,
                q,
            ) by {}
            self.lemma_canceller_kept(next, q);
        }
        assert forall|other: u64| #[trigger]
            next.submissions.contains_key(other) implies next.submission_wf(other) by {
            assert(self.submissions.contains_key(other));
            assert(self.submission_wf(other));
        }
    }

    /// Routing a CQE keeps the invariant.
    pub proof fn lemma_dispatched(self, cqe: Cqe)
        requires
            self.wf(),
            self.dispatch_violation(cqe) is None,
        ensures
            self.dispatched(cqe).wf(),
            ({
                let c = self.contexts[cqe.user_data];
                let s = self.submissions[c.submission];
                &&& self.submissions.contains_key(c.submission)
                &&& s.wf()
                &&& c.kind == ContextKind::Original && !has_more(cqe.flags)
                    ==> s.original_terminal < s.accepted
                &&& c.kind == ContextKind::Cancel ==> s.cancel_terminal < s.cancels && c.target
                    != Some(cqe.user_data)
            }),
    {
        let next = self.dispatched(cqe);
        let p = cqe.user_data;
        let c = self.contexts[p];
        assert(self.context_wf(p));
        assert(self.submission_wf(c.submission));
        match c.kind {
            ContextKind::Original => {
                self.lemma_original_dispatched(cqe);
            },
            ContextKind::Cancel => {
                self.lemma_cancel_dispatched(cqe);
            },
        }
    }

    proof fn lemma_original_dispatched(self, cqe: Cqe)
        requires
            self.wf(),
            self.dispatch_violation(cqe) is None,
            self.contexts[cqe.user_data].kind == ContextKind::Original,
        ensures
            self.dispatched(cqe).wf(),
            !has_more(cqe.flags) ==> ({
                let s = self.submissions[self.contexts[cqe.user_data].submission];
                s.original_terminal < s.accepted
            }),
    {
        let next = self.dispatched(cqe);
        let p = cqe.user_data;
        let c = self.contexts[p];
        let terminal = CqeContext { phase: ContextPhase::Terminal, ..c };
        assert(self.context_wf(p));
        assert(self.submission_wf(c.submission));
        lemma_members_insert(self.contexts, p, terminal);
        lemma_members_remove(self.contexts, p);
        let live = members(self.contexts, c.submission, Class::Live);
        let staged = members(self.contexts, c.submission, Class::Staged);
        assert(live.contains(p) && !staged.contains(p));
        assert(staged.subset_of(live.remove(p)));
        vstd::set_lib::lemma_len_subset(staged, live.remove(p));
        assert forall|q: u64| #[trigger] next.contexts.contains_key(q) implies next.context_wf(
            q,
        ) by {
            assert(self.contexts.contains_key(q));
            assert(self.context_wf(q));
            if next.contexts[q].kind == ContextKind::Cancel {
                let t = next.contexts[q].target->0;
                assert(self.contexts.contains_key(t));
            }
        }
        assert forall|i: int| 0 <= i < next.staged.len() implies {
            &&& next.contexts.contains_key(#[trigger] next.staged[i])
            &&& next.contexts[next.staged[i]].phase == ContextPhase::Staged
        } by {
            assert(self.contexts.contains_key(self.staged[i]));
        }
        assert forall|q: u64| #[trigger]
            next.contexts.contains_key(q) && next.contexts[q].phase
                == ContextPhase::Staged implies next.staged.contains(q) by {
            assert(self.contexts.contains_key(q));
        }
        assert forall|q: u64| #[trigger]
            next.contexts.contains_key(q) && next.contexts[q].outstanding() implies next.has_canceller(
            q,
        ) by {
            assert(self.contexts.contains_key(q));
            assert forall|i: int| #[trigger] self.command_cancels(i, q) implies next.has_canceller(
                q,
            ) by {
                assert(next.command_cancels(i, q));
            }
            assert forall|k: u64| #[trigger] self.context_cancels(k, q) implies next.context_cancels(
                k,
                q,
            ) by {}
            self.lemma_canceller_kept(next, q);
        }
        assert forall|other: u64| #[trigger]
            next.submissions.contains_key(other) implies next.submission_wf(other) by {
            assert(self.submissions.contains_key(other));
            assert(self.submission_wf(other));
        }
    }

    proof fn lemma_cancel_dispatched(self, cqe: Cqe)
        requires
            self.wf(),
            self.dispatch_violation(cqe) is None,
            self.contexts[cqe.user_data].kind == ContextKind::Cancel,
        ensures
            self.dispatched(cqe).wf(),
            ({
                let s = self.submissions[self.contexts[cqe.user_data].submission];
                s.cancel_terminal < s.cancels
            }),
            self.contexts[cqe.user_data].target != Some(cqe.user_data),
    {
        let next = self.dispatched(cqe);
        let p = cqe.user_data;
        let c = self.contexts[p];
        let t = c.target->0;
        let o = self.contexts[t];
        let seen = CqeContext { cancel_seen: true, ..o };
        assert(self.context_wf(p));
        assert(self.contexts.contains_key(t));
        assert(self.context_wf(t));
        assert(self.submission_wf(c.submission));
        let without = self.contexts.remove(p);
        lemma_members_remove(self.contexts, p);
        lemma_members_insert(without, t, seen);
        lemma_members_remove(without, t);
        assert(members(self.contexts, c.submission, Class::Outstanding).contains(t));
        assert(!members(self.contexts, c.submission, Class::Outstanding).contains(p));
        assert forall|q: u64| #[trigger] next.contexts.contains_key(q) implies next.context_wf(
            q,
        ) by {
            assert(self.contexts.contains_key(q));
            assert(self.context_wf(q));
            if next.contexts[q].kind == ContextKind::Cancel {
                let u = next.contexts[q].target->0;
                assert(self.contexts.contains_key(u));
                assert(u != t);
                assert(u != p);
            }
        }
        assert forall|i: int| 0 <= i < next.staged.len() implies {
            &&& next.contexts.contains_key(#[trigger] next.staged[i])
            &&& next.contexts[next.staged[i]].phase == ContextPhase::Staged
        } by {
            assert(self.contexts.contains_key(self.staged[i]));
        }
        assert forall|q: u64| #[trigger]
            next.contexts.contains_key(q) && next.contexts[q].phase
                == ContextPhase::Staged implies next.staged.contains(q) by {
            assert(self.contexts.contains_key(q));
        }
        assert forall|i: int| 0 <= i < next.cancel_queue.len() implies {
            let command = #[trigger] next.cancel_queue[i];
            next.targets(
                command.target,
                command.index,
                command.original_user_data,
                command.submission,
            )
        } by {
            let command = self.cancel_queue[i];
            assert(self.contexts.contains_key(command.target));
            assert(self.contexts[p].target != Some(command.target));
        }
        assert forall|q: u64| #[trigger]
            next.contexts.contains_key(q) && next.contexts[q].outstanding() implies next.has_canceller(
            q,
        ) by {
            assert(self.contexts.contains_key(q));
            assert forall|i: int| #[trigger] self.command_cancels(i, q) implies next.has_canceller(
                q,
            ) by {
                assert(next.command_cancels(i, q));
            }
            assert forall|k: u64| #[trigger] self.context_cancels(k, q) implies next.context_cancels(
                k,
                q,
            ) by {}
            self.lemma_canceller_kept(next, q);
        }
        assert forall|other: u64| #[trigger]
            next.submissions.contains_key(other) implies next.submission_wf(other) by {
            assert(self.submissions.contains_key(other));
            assert(self.submission_wf(other));
        }
    }
}

impl<W> DriverView<W> {
    /// Once a submission is drained, no context and no queued command belongs
    /// to it: the kernel holds none of its pointers and its resources may be
    /// released.
    pub proof fn lemma_drained_is_retired(self, id: u64)
        requires
            self.wf(),
            self.submissions.contains_key(id),
            self.submissions[id].drained(),
        ensures
            forall|p: u64| #[trigger]
                self.contexts.contains_key(p) ==> self.contexts[p].submission != id,
            forall|i: int|
                0 <= i < self.cancel_queue.len() ==> (#[trigger] self.cancel_queue[i]).submission
                    != id,
    {
        assert(self.submission_wf(id));
        lemma_members_finite(self.contexts);
        let live = members(self.contexts, id, Class::Live);
        let outstanding = members(self.contexts, id, Class::Outstanding);
        live.lemma_len0_is_empty();
        outstanding.lemma_len0_is_empty();
        assert forall|p: u64| #[trigger] self.contexts.contains_key(p) implies self.contexts[p].submission
            != id by {
            assert(self.context_wf(p));
            let c = self.contexts[p];
            if c.submission == id {
                match c.kind {
                    ContextKind::Original => {
                        assert(!live.contains(p));
                        assert(!outstanding.contains(p));
                    },
                    ContextKind::Cancel => {
                        assert(!outstanding.contains(c.target->0));
                    },
                }
            }
        }
        assert forall|i: int| 0 <= i < self.cancel_queue.len() implies (
        #[trigger] self.cancel_queue[i]).submission != id by {
            assert(!outstanding.contains(self.cancel_queue[i].target));
        }
    }

    /// Forgetting a drained submission keeps the invariant.
    pub proof fn lemma_submission_removed(self, id: u64)
        requires
            self.wf(),
            self.submissions.contains_key(id),
            self.submissions[id].drained(),
        ensures
            (DriverView { submissions: self.submissions.remove(id), ..self }).wf(),
    {
        let next = DriverView { submissions: self.submissions.remove(id), ..self };
        self.lemma_drained_is_retired(id);
        assert forall|q: u64| #[trigger] next.contexts.contains_key(q) implies next.context_wf(
            q,
        ) by {
            assert(self.context_wf(q));
        }
        assert forall|q: u64| #[trigger]
            next.contexts.contains_key(q) && next.contexts[q].outstanding() implies next.has_canceller(
            q,
        ) by {
            assert(self.contexts.contains_key(q));
            assert forall|i: int| #[trigger] self.command_cancels(i, q) implies next.has_canceller(
                q,
            ) by {
                assert(next.command_cancels(i, q));
            }
            assert forall|k: u64| #[trigger] self.context_cancels(k, q) implies next.context_cancels(
                k,
                q,
            ) by {}
            self.lemma_canceller_kept(next, q);
        }
        assert forall|other: u64| #[trigger]
            next.submissions.contains_key(other) implies next.submission_wf(other) by {
            assert(self.submissions.contains_key(other));
            assert(self.submission_wf(other));
        }
    }

    /// Registering a submission keeps the invariant.
    pub proof fn lemma_registered(self, limit: usize)
        requires
            self.wf(),
            self.next_submission < u64::MAX,
        ensures
            ({
                let next = DriverView {
                    submissions: self.submissions.insert(
                        self.next_submission,
                        SubmissionView::fresh(limit),
                    ),
                    next_submission: (self.next_submission + 1) as u64,
                    ..self
                };
                next.wf()
            }),
    {
        let id = self.next_submission;
        let next = DriverView {
            submissions: self.submissions.insert(id, SubmissionView::fresh(limit)),
            next_submission: (self.next_submission + 1) as u64,
            ..self
        };
        lemma_members_finite(self.contexts);
        assert forall|q: u64| #[trigger] next.contexts.contains_key(q) implies next.context_wf(
            q,
        ) by {
            assert(self.context_wf(q));
        }
        assert forall|q: u64| #[trigger]
            next.contexts.contains_key(q) && next.contexts[q].outstanding() implies next.has_canceller(
            q,
        ) by {
            assert(self.contexts.contains_key(q));
            assert forall|i: int| #[trigger] self.command_cancels(i, q) implies next.has_canceller(
                q,
            ) by {
                assert(next.command_cancels(i, q));
            }
            assert forall|k: u64| #[trigger] self.context_cancels(k, q) implies next.context_cancels(
                k,
                q,
            ) by {}
            self.lemma_canceller_kept(next, q);
        }
        assert forall|other: u64| #[trigger]
            next.submissions.contains_key(other) implies next.submission_wf(other) by {
            if other != id {
                assert(self.submissions.contains_key(other));
                assert(self.submission_wf(other));
            } else {
                assert(!self.submissions.contains_key(id)) by {
                    if self.submissions.contains_key(id) {
                        assert(self.submission_wf(id));
                    }
                }
                assert forall|class: Class| members(self.contexts, id, class)
                    =~= Set::<u64>::empty() by {
                    assert forall|p: u64| !members(self.contexts, id, class).contains(p) by {
                        if self.contexts.contains_key(p) {
                            assert(self.context_wf(p));
                        }
                    }
                }
                assert(members(next.contexts, id, Class::Live) =~= Set::<u64>::empty());
                assert(members(next.contexts, id, Class::Staged) =~= Set::<u64>::empty());
                assert(members(next.contexts, id, Class::Outstanding) =~= Set::<u64>::empty());
                assert(members(next.contexts, id, Class::Cancellable) =~= Set::<u64>::empty());
            }
        }
    }
}

impl<W> DriverView<W> {
    /// The originals that a cancellation reaches are finitely many.
    pub proof fn lemma_cancel_targets(self, ids: Set<u64>)
        requires
            self.contexts.dom().finite(),
        ensures
            self.cancel_targets(ids).finite(),
            forall|id: u64| #[trigger]
                self.cancel_targets(set![id]) == members(self.contexts, id, Class::Cancellable),
    {
        assert(self.cancel_targets(ids).subset_of(self.contexts.dom()));
        vstd::set_lib::lemma_set_subset_finite(self.contexts.dom(), self.cancel_targets(ids));
        assert forall|id: u64| #[trigger]
            self.cancel_targets(set![id]) == members(self.contexts, id, Class::Cancellable) by {
            assert(self.cancel_targets(set![id]) =~= members(
                self.contexts,
                id,
                Class::Cancellable,
            ));
        }
    }

    /// Cancelling nothing changes nothing.
    pub proof fn lemma_cancel_none(self, delivery: Delivery)
        requires
            self.contexts.dom().finite(),
        ensures
            self.cancel_requested(Set::empty(), delivery, self),
    {
        assert(self.cancel_targets(Set::empty()) =~= Set::<u64>::empty());
        assert(self.cancel_queue.take(self.cancel_queue.len() as int) =~= self.cancel_queue);
    }

    /// Cancelling one more submission after others cancels them all.
    pub proof fn lemma_cancel_one_more(
        self,
        ids: Set<u64>,
        middle: Self,
        id: u64,
        delivery: Delivery,
        next: Self,
    )
        requires
            self.contexts.dom().finite(),
            self.submissions.contains_key(id),
            self.cancel_requested(ids, delivery, middle),
            middle.cancel_requested(set![id], delivery, next),
        ensures
            self.cancel_requested(ids.insert(id), delivery, next),
    {
        let all = self.cancel_targets(ids.insert(id));
        let first = self.cancel_targets(ids);
        let second = middle.cancel_targets(set![id]);
        self.lemma_cancel_targets(ids);
        self.lemma_cancel_targets(set![id]);
        middle.lemma_cancel_targets(set![id]);
        assert forall|p: u64| second.contains(p) == (all.contains(p) && !first.contains(p)) by {
            if self.contexts.contains_key(p) {
                assert(middle.contexts.contains_key(p));
            }
        }
        assert(all =~= first.union(second));
        assert(first.disjoint(second));
        vstd::set_lib::lemma_set_disjoint_lens(first, second);
        assert forall|p: u64| #[trigger] next.contexts.contains_key(p) implies next.contexts[p]
            == (if all.contains(p) {
            CqeContext { cancel_queued: true, ..self.contexts[p] }
        } else {
            self.contexts[p]
        }) by {
            assert(middle.contexts.contains_key(p));
        }
        let queued = self.cancel_queue.len() as int;
        let between = middle.cancel_queue.len() as int;
        assert(next.cancel_queue.take(queued) =~= self.cancel_queue) by {
            assert forall|i: int| 0 <= i < queued implies next.cancel_queue[i]
                == self.cancel_queue[i] by {
                assert(next.cancel_queue.take(between)[i] == middle.cancel_queue[i]);
                assert(middle.cancel_queue.take(queued)[i] == self.cancel_queue[i]);
            }
        }
        assert forall|i: int| queued <= i < next.cancel_queue.len() implies {
            let command = #[trigger] next.cancel_queue[i];
            &&& all.contains(command.target)
            &&& command == CancelCommand::cancelling(command.target, self.contexts[command.target])
        } by {
            if i < between {
                assert(next.cancel_queue.take(between)[i] == middle.cancel_queue[i]);
            } else {
                let command = next.cancel_queue[i];
                assert(second.contains(command.target));
                assert(middle.contexts.contains_key(command.target));
            }
        }
        assert forall|other: u64| #[trigger]
            next.submissions.contains_key(other) implies next.submissions[other] == (if ids.insert(
            id,
        ).contains(other) {
            SubmissionView {
                cancels: self.submissions[other].cancels + members(
                    self.contexts,
                    other,
                    Class::Cancellable,
                ).len(),
                ..self.submissions[other].closed(delivery)
            }
        } else {
            self.submissions[other]
        }) by {
            assert(middle.submissions.contains_key(other));
            if other == id {
                assert(second == members(middle.contexts, id, Class::Cancellable));
                if ids.contains(id) {
                    assert(second =~= Set::<u64>::empty());
                } else {
                    assert(second =~= members(self.contexts, id, Class::Cancellable)) by {
                        assert forall|p: u64| second.contains(p) == members(
                            self.contexts,
                            id,
                            Class::Cancellable,
                        ).contains(p) by {
                            if self.contexts.contains_key(p) {
                                assert(middle.contexts.contains_key(p));
                            }
                        }
                    }
                }
            }
        }
    }
}

impl<W> DriverView<W> {
    /// A violation among the first CQEs is the first violation of all.
    pub proof fn lemma_first_violation(self, cqes: Seq<Cqe>, count: int)
        requires
            0 <= count <= cqes.len(),
            self.first_violation(cqes.take(count)) is Some,
        ensures
            self.first_violation(cqes) == self.first_violation(cqes.take(count)),
        decreases cqes.len() - count,
    {
        if count < cqes.len() {
            assert(cqes.take(count + 1).drop_last() =~= cqes.take(count));
            self.lemma_first_violation(cqes, count + 1);
        } else {
            assert(cqes.take(count) =~= cqes);
        }
    }

    /// The admission and shutdown flags do not affect the invariant.
    pub proof fn lemma_flags(self, before: Self)
        requires
            before.wf(),
            self == (DriverView {
                accepting: self.accepting,
                shutdown: self.shutdown,
                ..before
            }),
        ensures
            self.wf(),
    {
        assert forall|p: u64| #[trigger] self.contexts.contains_key(p) implies self.context_wf(
            p,
        ) by {
            assert(before.context_wf(p));
        }
        assert forall|q: u64| #[trigger]
            self.contexts.contains_key(q) && self.contexts[q].outstanding() implies self.has_canceller(
            q,
        ) by {
            assert(before.contexts.contains_key(q));
            assert forall|i: int| #[trigger] before.command_cancels(i, q) implies self.has_canceller(
                q,
            ) by {
                assert(self.command_cancels(i, q));
            }
            before.lemma_canceller_kept(self, q);
        }
        assert forall|id: u64| #[trigger] self.submissions.contains_key(
            id,
        ) implies self.submission_wf(id) by {
            assert(before.submission_wf(id));
        }
    }
}

} // verus!
