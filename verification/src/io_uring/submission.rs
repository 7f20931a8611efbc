//! Delivery queues, counters and waiters of one submitted iterator.
use std::collections::VecDeque;
use vstd::prelude::*;
use crate::io_uring::completion::{Completion, CompletionError, Cqe};
use crate::io_uring::context::Delivery;
use crate::waker::{replace_waker, take_waker, Poller, PollState};

verus! {

/// State shared by the caller's handle and the live contexts of a submission.
pub struct SubmissionState<W> {
    /// Maximum retained items in each delivery queue.
    pub limit: usize,
    /// Whether the caller still owns a handle to this submission.
    pub held: bool,
    /// Current caller-visible delivery mode.
    pub delivery: Delivery,
    /// Original-operation CQEs awaiting stream consumption.
    pub normal: VecDeque<Completion<Cqe>>,
    /// `AsyncCancel` CQEs awaiting cancellation-stream consumption.
    pub cancellations: VecDeque<Completion<Cqe>>,
    /// Whether an original completion overflow still needs to be reported.
    pub normal_overflow: bool,
    /// Whether a cancellation completion overflow still needs to be reported.
    pub cancel_overflow: bool,
    /// Whether the admission iterator has returned `None`.
    pub iterator_finished: bool,
    /// Number of original SQEs staged in the userspace SQ.
    pub originals: usize,
    /// Number of original SQEs accepted by the kernel.
    pub accepted: usize,
    /// Number of original SQEs whose CQE cleared `IORING_CQE_F_MORE`.
    pub original_terminal: usize,
    /// Number of cancellation SQEs created for this submission.
    pub cancels: usize,
    /// Number of cancellation SQEs with a terminal CQE.
    pub cancel_terminal: usize,
    /// Task waiting for full iterator admission.
    pub admission_waker: Option<W>,
    /// Task waiting for an original CQE or end of stream.
    pub normal_waker: Option<W>,
    /// Task waiting for a cancellation CQE or end of stream.
    pub cancel_waker: Option<W>,
    /// Task waiting for all original and cancellation contexts to retire.
    pub drain_waker: Option<W>,
}

/// Mathematical content of a [`SubmissionState`].
#[verifier::ext_equal]
pub struct SubmissionView<W> {
    pub limit: usize,
    pub held: bool,
    pub delivery: Delivery,
    pub normal: Seq<Completion<Cqe>>,
    pub cancellations: Seq<Completion<Cqe>>,
    pub normal_overflow: bool,
    pub cancel_overflow: bool,
    pub iterator_finished: bool,
    pub originals: int,
    pub accepted: int,
    pub original_terminal: int,
    pub cancels: int,
    pub cancel_terminal: int,
    pub admission_waker: Option<W>,
    pub normal_waker: Option<W>,
    pub cancel_waker: Option<W>,
    pub drain_waker: Option<W>,
}

impl<W> View for SubmissionState<W> {
    type V = SubmissionView<W>;

    open spec fn view(&self) -> SubmissionView<W> {
        SubmissionView {
            limit: self.limit,
            held: self.held,
            delivery: self.delivery,
            normal: self.normal@,
            cancellations: self.cancellations@,
            normal_overflow: self.normal_overflow,
            cancel_overflow: self.cancel_overflow,
            iterator_finished: self.iterator_finished,
            originals: self.originals as int,
            accepted: self.accepted as int,
            original_terminal: self.original_terminal as int,
            cancels: self.cancels as int,
            cancel_terminal: self.cancel_terminal as int,
            admission_waker: self.admission_waker,
            normal_waker: self.normal_waker,
            cancel_waker: self.cancel_waker,
            drain_waker: self.drain_waker,
        }
    }
}

/// What the caller receives for `cqe`: its own tag in place of the pointer.
pub open spec fn restored(index: usize, cqe: Cqe, original_user_data: u64) -> Completion<Cqe> {
    Completion { index, cqe: Cqe { user_data: original_user_data, ..cqe } }
}

impl<W> SubmissionView<W> {
    /// Fresh tracking state.
    pub open spec fn fresh(limit: usize) -> Self {
        SubmissionView {
            limit,
            held: true,
            delivery: Delivery::Open,
            normal: Seq::empty(),
            cancellations: Seq::empty(),
            normal_overflow: false,
            cancel_overflow: false,
            iterator_finished: false,
            originals: 0,
            accepted: 0,
            original_terminal: 0,
            cancels: 0,
            cancel_terminal: 0,
            admission_waker: None,
            normal_waker: None,
            cancel_waker: None,
            drain_waker: None,
        }
    }

    /// Bounds on the queues and counters that hold for every submission.
    pub open spec fn wf(self) -> bool {
        &&& self.normal.len() <= self.limit
        &&& self.cancellations.len() <= self.limit
        &&& self.normal_overflow ==> self.delivery != Delivery::Open
        &&& 0 <= self.original_terminal <= self.accepted <= self.originals <= usize::MAX
        &&& 0 <= self.cancel_terminal <= self.cancels <= self.originals
    }

    /// Every original and generated cancellation is terminal.
    pub open spec fn drained(self) -> bool {
        self.original_terminal == self.originals && self.cancel_terminal == self.cancels
    }

    /// Effect of an original CQE on the delivery queue.
    pub open spec fn delivered(self, completion: Completion<Cqe>) -> Self {
        if self.delivery != Delivery::Open {
            self
        } else if self.normal.len() < self.limit {
            SubmissionView { normal: self.normal.push(completion), ..self }
        } else {
            SubmissionView { normal_overflow: true, delivery: Delivery::Overflow, ..self }
        }
    }

    /// Whether the next original CQE overflows the delivery queue.
    pub open spec fn overflows(self) -> bool {
        self.delivery == Delivery::Open && self.normal.len() >= self.limit
    }

    /// State after an original CQE; `more` announces further ones.
    pub open spec fn original_completed(self, completion: Completion<Cqe>, more: bool) -> Self {
        let terminal = self.original_terminal + if more { 0int } else { 1int };
        let next = SubmissionView { original_terminal: terminal, ..self.delivered(completion) };
        SubmissionView {
            admission_waker: crate::waker::kept(!self.iterator_finished, self.admission_waker),
            normal_waker: crate::waker::kept(self.normal_due(more), self.normal_waker),
            drain_waker: crate::waker::kept(!more && next.drained(), self.drain_waker),
            ..next
        }
    }

    /// Whether an original CQE wakes the stream's consumer.
    pub open spec fn normal_due(self, more: bool) -> bool {
        self.delivery == Delivery::Open || (!more && self.original_terminal + 1 == self.originals)
    }

    /// Wakers that are due after an original CQE.
    pub open spec fn original_wakes(self, more: bool) -> Seq<W> {
        let drained = self.original_terminal + 1 == self.originals && self.cancel_terminal
            == self.cancels;
        crate::waker::taken(!self.iterator_finished, self.admission_waker)
            + crate::waker::taken(self.normal_due(more), self.normal_waker)
            + crate::waker::taken(!more && drained, self.drain_waker)
    }

    /// State after a cancellation CQE.
    pub open spec fn cancel_completed(self, completion: Completion<Cqe>) -> Self {
        let next = SubmissionView { cancel_terminal: self.cancel_terminal + 1, ..self };
        let next = if self.delivery == Delivery::Detached {
            next
        } else if self.cancellations.len() < self.limit {
            SubmissionView { cancellations: self.cancellations.push(completion), ..next }
        } else {
            SubmissionView { cancel_overflow: true, ..next }
        };
        SubmissionView {
            cancel_waker: crate::waker::kept(self.cancel_due(), self.cancel_waker),
            drain_waker: crate::waker::kept(next.drained(), self.drain_waker),
            ..next
        }
    }

    /// Whether a cancellation CQE wakes the cancellation's consumer.
    pub open spec fn cancel_due(self) -> bool {
        self.delivery != Delivery::Detached || self.cancel_terminal + 1 == self.cancels
    }

    /// Wakers that are due after a cancellation CQE.
    pub open spec fn cancel_wakes(self) -> Seq<W> {
        let drained = self.original_terminal == self.originals && self.cancel_terminal + 1
            == self.cancels;
        crate::waker::taken(self.cancel_due(), self.cancel_waker) + crate::waker::taken(
            drained,
            self.drain_waker,
        )
    }

    /// State with every caller-visible queue discarded.
    pub open spec fn detached(self) -> Self {
        SubmissionView {
            delivery: Delivery::Detached,
            normal: Seq::empty(),
            cancellations: Seq::empty(),
            normal_waker: None,
            cancel_waker: None,
            ..self
        }
    }

    /// State after delivery is closed for the reason `delivery`.
    pub open spec fn closed(self, delivery: Delivery) -> Self {
        if delivery == Delivery::Detached {
            self.detached()
        } else if self.delivery == Delivery::Open {
            SubmissionView { delivery, ..self }
        } else {
            self
        }
    }

    /// State after the kernel accepted one original.
    pub open spec fn accepted_one(self) -> Self {
        SubmissionView { accepted: self.accepted + 1, admission_waker: None, ..self }
    }

    /// State after the admission iterator ended.
    pub open spec fn finished(self) -> Self {
        SubmissionView { iterator_finished: true, admission_waker: None, ..self }
    }

    /// Result of polling for the next original completion.
    pub open spec fn next(self) -> PollState<Option<Result<Completion<Cqe>, CompletionError>>> {
        if self.normal.len() > 0 {
            PollState::Ready(Some(Ok(self.normal[0])))
        } else if self.normal_overflow {
            PollState::Ready(Some(Err(CompletionError::BufferOverflow)))
        } else if self.delivery != Delivery::Open || (self.iterator_finished
            && self.original_terminal == self.originals) {
            PollState::Ready(None)
        } else {
            PollState::Pending
        }
    }

    /// State after polling for the next original completion.
    pub open spec fn after_next(self, poller: Poller<W>) -> Self {
        if self.normal.len() > 0 {
            SubmissionView { normal: self.normal.drop_first(), ..self }
        } else if self.next() is Pending {
            SubmissionView {
                normal_waker: crate::waker::registered(self.normal_waker, poller),
                ..self
            }
        } else {
            SubmissionView { normal_overflow: false, ..self }
        }
    }

    /// Result of polling for the next cancellation completion.
    pub open spec fn next_cancellation(self) -> PollState<
        Option<Result<Completion<Cqe>, CompletionError>>,
    > {
        if self.cancellations.len() > 0 {
            PollState::Ready(Some(Ok(self.cancellations[0])))
        } else if self.cancel_overflow {
            PollState::Ready(Some(Err(CompletionError::BufferOverflow)))
        } else if self.cancel_terminal == self.cancels {
            PollState::Ready(None)
        } else {
            PollState::Pending
        }
    }

    /// State after polling for the next cancellation completion.
    pub open spec fn after_next_cancellation(self, poller: Poller<W>) -> Self {
        if self.cancellations.len() > 0 {
            SubmissionView { cancellations: self.cancellations.drop_first(), ..self }
        } else if self.next_cancellation() is Pending {
            SubmissionView {
                cancel_waker: crate::waker::registered(self.cancel_waker, poller),
                ..self
            }
        } else {
            SubmissionView { cancel_overflow: false, ..self }
        }
    }

    /// State after polling for retirement.
    pub open spec fn after_wait_drained(self, poller: Poller<W>) -> Self {
        if self.drained() {
            self
        } else {
            SubmissionView {
                drain_waker: crate::waker::registered(self.drain_waker, poller),
                ..self
            }
        }
    }
}

impl<W> SubmissionState<W> {
    /// Creates zeroed tracking state with the given per-queue delivery limit.
    pub fn new(limit: usize) -> (state: Self)
        ensures
            state@ == SubmissionView::<W>::fresh(limit),
            state@.wf(),
    {
        let state = SubmissionState {
            limit,
            held: true,
            delivery: Delivery::Open,
            normal: VecDeque::new(),
            cancellations: VecDeque::new(),
            normal_overflow: false,
            cancel_overflow: false,
            iterator_finished: false,
            originals: 0,
            accepted: 0,
            original_terminal: 0,
            cancels: 0,
            cancel_terminal: 0,
            admission_waker: None,
            normal_waker: None,
            cancel_waker: None,
            drain_waker: None,
        };
        assert(state@ =~= SubmissionView::<W>::fresh(limit));
        state
    }

    /// Reports whether every original and generated cancellation is terminal.
    pub fn drained(&self) -> (drained: bool)
        ensures
            drained == self@.drained(),
    {
        self.original_terminal == self.originals && self.cancel_terminal == self.cancels
    }

    /// Moves the registered drain waker to `wakes` once both terminal counts match.
    fn wake_drain(&mut self, wakes: &mut Vec<W>)
        ensures
            final(self)@ == (SubmissionView {
                drain_waker: crate::waker::kept(old(self)@.drained(), old(self).drain_waker),
                ..old(self)@
            }),
            final(wakes)@ == old(wakes)@ + crate::waker::taken(
                old(self)@.drained(),
                old(self).drain_waker,
            ),
    {
        let drained = self.drained();
        take_waker(drained, &mut self.drain_waker, wakes);
    }

    /// Delivers one original CQE and updates retirement.
    ///
    /// Returns whether original delivery overflowed just now.
    pub fn complete_original(
        &mut self,
        completion: Completion<Cqe>,
        more: bool,
        wakes: &mut Vec<W>,
    ) -> (overflow: bool)
        requires
            old(self)@.wf(),
            !more ==> old(self).original_terminal < old(self).accepted,
        ensures
            final(self)@ == old(self)@.original_completed(completion, more),
            final(wakes)@ == old(wakes)@ + old(self)@.original_wakes(more),
            overflow == old(self)@.overflows(),
    {
        let mut overflow = false;
        let unfinished = !self.iterator_finished;
        take_waker(unfinished, &mut self.admission_waker, wakes);
        if self.delivery == Delivery::Open {
            if self.normal.len() < self.limit {
                self.normal.push_back(completion);
            } else {
                self.normal_overflow = true;
                self.delivery = Delivery::Overflow;
                overflow = true;
            }
            take_waker(true, &mut self.normal_waker, wakes);
        }
        if !more {
            self.original_terminal = self.original_terminal + 1;
            let last = self.original_terminal == self.originals;
            take_waker(last, &mut self.normal_waker, wakes);
            self.wake_drain(wakes);
        }
        assert(wakes@ =~= old(wakes)@ + old(self)@.original_wakes(more));
        assert(self@ =~= old(self)@.original_completed(completion, more));
        overflow
    }

    /// Delivers one cancellation CQE and updates retirement.
    pub fn complete_cancel(&mut self, completion: Completion<Cqe>, wakes: &mut Vec<W>)
        requires
            old(self)@.wf(),
            old(self).cancel_terminal < old(self).cancels,
        ensures
            final(self)@ == old(self)@.cancel_completed(completion),
            final(wakes)@ == old(wakes)@ + old(self)@.cancel_wakes(),
    {
        if self.delivery != Delivery::Detached {
            if self.cancellations.len() < self.limit {
                self.cancellations.push_back(completion);
            } else {
                self.cancel_overflow = true;
            }
            take_waker(true, &mut self.cancel_waker, wakes);
        }
        self.cancel_terminal = self.cancel_terminal + 1;
        let last = self.cancel_terminal == self.cancels;
        take_waker(last, &mut self.cancel_waker, wakes);
        self.wake_drain(wakes);
        assert(wakes@ =~= old(wakes)@ + old(self)@.cancel_wakes());
        assert(self@ =~= old(self)@.cancel_completed(completion));
    }

    /// Marks the submission detached and discards caller-visible CQE delivery.
    ///
    /// Terminal counters and the drain waker are deliberately preserved so
    /// retirement stays observable.
    pub fn detach(&mut self)
        ensures
            final(self)@ == old(self)@.detached(),
    {
        self.delivery = Delivery::Detached;
        self.normal.clear();
        self.cancellations.clear();
        self.normal_waker = None;
        self.cancel_waker = None;
        assert(self@ =~= old(self)@.detached());
    }

    /// Closes original-CQE delivery for the reason `delivery`.
    ///
    /// The first reason wins, except that detaching always takes effect.
    pub fn close(&mut self, delivery: Delivery)
        ensures
            final(self)@ == old(self)@.closed(delivery),
    {
        if delivery == Delivery::Detached {
            self.detach();
        } else if self.delivery == Delivery::Open {
            self.delivery = delivery;
        }
    }

    /// Counts one original as accepted by the kernel.
    pub fn accept_one(&mut self, wakes: &mut Vec<W>)
        requires
            old(self).accepted < usize::MAX,
        ensures
            final(self)@ == old(self)@.accepted_one(),
            final(wakes)@ == old(wakes)@ + crate::waker::taken(true, old(self).admission_waker),
    {
        self.accepted = self.accepted + 1;
        take_waker(true, &mut self.admission_waker, wakes);
    }

    /// Records that the admission iterator ended.
    pub fn finish_iterator(&mut self, wakes: &mut Vec<W>)
        ensures
            final(self)@ == old(self)@.finished(),
            final(wakes)@ == old(wakes)@ + crate::waker::taken(true, old(self).admission_waker),
    {
        self.iterator_finished = true;
        take_waker(true, &mut self.admission_waker, wakes);
    }

    /// Pops a buffered CQE, reports pending overflow, or registers the waiter.
    pub fn poll_next(&mut self, poller: Poller<W>) -> (polled: PollState<
        Option<Result<Completion<Cqe>, CompletionError>>,
    >)
        ensures
            polled == old(self)@.next(),
            final(self)@ == old(self)@.after_next(poller),
    {
        if let Some(completion) = self.normal.pop_front() {
            assert(self@ =~= old(self)@.after_next(poller));
            return PollState::Ready(Some(Ok(completion)));
        }
        assert(self@ =~= old(self)@);
        if self.normal_overflow {
            self.normal_overflow = false;
            return PollState::Ready(Some(Err(CompletionError::BufferOverflow)));
        }
        if self.delivery != Delivery::Open || (self.iterator_finished && self.original_terminal
            == self.originals) {
            return PollState::Ready(None);
        }
        replace_waker(&mut self.normal_waker, poller);
        PollState::Pending
    }

    /// Pops a buffered CQE, reports overflow, or registers the cancellation waiter.
    pub fn poll_cancellation(&mut self, poller: Poller<W>) -> (polled: PollState<
        Option<Result<Completion<Cqe>, CompletionError>>,
    >)
        ensures
            polled == old(self)@.next_cancellation(),
            final(self)@ == old(self)@.after_next_cancellation(poller),
    {
        if let Some(completion) = self.cancellations.pop_front() {
            assert(self@ =~= old(self)@.after_next_cancellation(poller));
            return PollState::Ready(Some(Ok(completion)));
        }
        assert(self@ =~= old(self)@);
        if self.cancel_overflow {
            self.cancel_overflow = false;
            return PollState::Ready(Some(Err(CompletionError::BufferOverflow)));
        }
        if self.cancel_terminal == self.cancels {
            return PollState::Ready(None);
        }
        replace_waker(&mut self.cancel_waker, poller);
        PollState::Pending
    }

    /// Checks terminal counts or registers the drain waiter.
    pub fn poll_drained(&mut self, poller: Poller<W>) -> (polled: PollState<()>)
        ensures
            polled == (if old(self)@.drained() {
                PollState::Ready(())
            } else {
                PollState::Pending
            }),
            final(self)@ == old(self)@.after_wait_drained(poller),
    {
        if self.drained() {
            PollState::Ready(())
        } else {
            replace_waker(&mut self.drain_waker, poller);
            PollState::Pending
        }
    }
}

} // verus!
