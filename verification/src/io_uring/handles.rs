//! Capabilities that a caller holds for one submission.
use vstd::prelude::*;
use crate::io_uring::admission::SubmitEntries;
use crate::io_uring::completion::{
    Completion, CompletionError, Cqe, SubmissionErrorKind, Violation,
};
use crate::io_uring::context::Delivery;
use crate::io_uring::driver::{lemma_submission_inserted, DriverData};
use crate::io_uring::model::DriverView;
use crate::io_uring::submission::{SubmissionState, SubmissionView};
use crate::waker::{replace_waker, PollState, Poller};

verus! {

/// Submission capability for one runtime's ring.
///
/// All handles of a runtime submit to the same ring.
#[derive(Clone, Copy, Debug, PartialEq, Eq, Structural)]
pub struct IoUringHandle {
    /// Maximum number of undelivered CQEs retained in each delivery queue.
    pub max_buffered_completions: usize,
}

/// Arrival-ordered original CQEs for one fully admitted iterator.
///
/// The stream owns the right to receive original-operation completions. If no
/// [`CompletionError`] occurs, draining it through `None` proves normal
/// terminal completion. After an error, consume it with
/// [`CompletionStream::cancel`] and await the returned retirement capability.
#[derive(Debug, PartialEq, Eq, Structural)]
pub struct CompletionStream {
    /// Submission whose completions are delivered.
    pub id: u64,
    /// Whether release still needs to cancel and detach this stream.
    pub active: bool,
}

/// Cancellation results and terminal-retirement tracking for one submission.
///
/// Cancellation is inherently racy: an operation can complete normally before
/// its cancellation request reaches it. Inspect cancellation CQE results with
/// [`Cancellation::next`], but use [`Cancellation::wait_drained`], not any
/// individual result, as the resource-lifetime boundary.
#[derive(Debug, PartialEq, Eq, Structural)]
pub struct Cancellation {
    /// Submission being cancelled.
    pub id: u64,
    /// Whether release still needs to detach caller-visible queues.
    pub active: bool,
}

/// Failed SQE admission together with the capability to drain accepted work.
#[derive(Debug, PartialEq, Eq, Structural)]
pub struct SubmissionError {
    /// Reason admission stopped.
    kind: SubmissionErrorKind,
    /// Capability that observes cancellation CQEs and terminal retirement.
    cancellation: Cancellation,
}

/// Future returned by [`CompletionStream::next`].
#[derive(Clone, Copy, Debug, PartialEq, Eq, Structural)]
pub struct NextCompletion {
    /// Submission containing the original-CQE queue.
    pub id: u64,
}

/// Future returned by [`Cancellation::next`].
#[derive(Clone, Copy, Debug, PartialEq, Eq, Structural)]
pub struct NextCancellation {
    /// Submission containing the cancellation-CQE queue.
    pub id: u64,
}

/// Future returned by [`Cancellation::wait_drained`].
#[derive(Clone, Copy, Debug, PartialEq, Eq, Structural)]
pub struct WaitDrained {
    /// Submission whose contexts have to retire.
    pub id: u64,
}

impl SubmissionError {
    /// The reason and the capability this error carries.
    pub closed spec fn parts(self) -> (SubmissionErrorKind, Cancellation) {
        (self.kind, self.cancellation)
    }

    /// Returns the reason admission stopped without consuming the error.
    pub fn kind(&self) -> (kind: SubmissionErrorKind)
        ensures
            kind == self.parts().0,
    {
        self.kind
    }

    /// Returns the handle used to inspect cancellation and await retirement.
    pub fn into_cancellation(self) -> (cancellation: Cancellation)
        ensures
            cancellation == self.parts().1,
    {
        self.cancellation
    }

    /// Describes the admission failure.
    pub fn description(&self) -> (text: &'static str)
        ensures
            text@ == (match self.parts().0 {
                SubmissionErrorKind::RuntimeClosed => "the io_uring runtime is closed"@,
                SubmissionErrorKind::CompletionBufferOverflow =>
                    "completion buffering overflowed during admission"@,
            }),
    {
        self.kind.description()
    }
}

impl IoUringHandle {
    /// Registers a submission and creates the future that admits its SQEs.
    ///
    /// `running` tells whether the runtime still accepts work; otherwise the
    /// submission is created closed and its first poll fails.
    pub fn submit_entries<W, E>(&self, data: &mut DriverData<W>, running: bool) -> (submit: Result<
        SubmitEntries<E>,
        Violation,
    >)
        requires
            old(data)@.wf(),
        ensures
            final(data)@.wf(),
            if old(data)@.next_submission == u64::MAX {
                &&& submit == Err::<SubmitEntries<E>, Violation>(Violation::SubmissionsExhausted)
                &&& final(data)@ == old(data)@
            } else {
                let id = old(data)@.next_submission;
                let fresh = SubmissionView::<W>::fresh(self.max_buffered_completions);
                &&& submit matches Ok(future)
                &&& future == (SubmitEntries::<E> {
                    id,
                    pending: None,
                    next_index: 0,
                    closed: !running,
                    done: false,
                })
                &&& future.linked(final(data)@)
                &&& final(data)@ == old(data)@.registered(
                    self.max_buffered_completions,
                ).with_submission(
                    id,
                    if running {
                        fresh
                    } else {
                        fresh.closed(Delivery::Cancelling)
                    },
                )
            },
    {
        let id: u64 = match data.register_submission(self.max_buffered_completions) {
            Ok(id) => id,
            Err(violation) => {
                return Err(violation);
            },
        };
        let ghost registered = data@;
        assert(registered.submissions.contains_key(id));
        assert(data.submissions@.contains_key(id));
        if !running {
            let ghost table = data.submissions@;
            let mut state: SubmissionState<W> = data.submissions.remove(id).unwrap();
            assert(registered.submission_wf(id));
            state.close(Delivery::Cancelling);
            proof {
                lemma_submission_inserted(table, id, state);
                registered.lemma_with_submission(id, state@);
            }
            data.submissions.insert(id, state);
            assert(data@ =~= registered.with_submission(id, state@));
        } else {
            assert(registered =~= registered.with_submission(id, registered.submissions[id]));
        }
        Ok(SubmitEntries { id, pending: None, next_index: 0, closed: !running, done: false })
    }
}

impl<E> SubmitEntries<E> {
    /// Why admission of a submission in this state fails.
    pub open spec fn failure<W>(self, s: SubmissionView<W>) -> Option<SubmissionErrorKind> {
        if s.delivery == Delivery::Overflow {
            Some(SubmissionErrorKind::CompletionBufferOverflow)
        } else if self.closed || s.delivery == Delivery::Cancelling || s.delivery
            == Delivery::Detached {
            Some(SubmissionErrorKind::RuntimeClosed)
        } else {
            None
        }
    }

    /// Resolves admission or registers the admission waiter.
    ///
    /// Called after [`SubmitEntries::admit_entries`] and the ring submission,
    /// unless the future was created closed. It must not be polled again after
    /// it returned `Ready`. The caller notifies the driver when it is pending
    /// or failed.
    pub fn poll<W>(&mut self, data: &mut DriverData<W>, poller: Poller<W>) -> (polled: PollState<
        Result<CompletionStream, SubmissionError>,
    >)
        requires
            old(data)@.wf(),
            !old(self).done,
            old(self).linked(old(data)@),
        ensures
            final(data)@.wf(),
            final(self).id == old(self).id,
            final(self).closed == old(self).closed,
            final(self).next_index == old(self).next_index,
            ({
                let s = old(data)@.submissions[old(self).id];
                match old(self).failure(s) {
                    Some(kind) => {
                        &&& polled matches PollState::Ready(Err(error))
                        &&& error.parts() == (
                            kind,
                            (Cancellation { id: old(self).id, active: true }),
                        )
                        &&& final(self).done && final(self).pending is None
                        &&& old(data)@.cancel_requested(
                            set![old(self).id],
                            Delivery::Cancelling,
                            final(data)@,
                        )
                    },
                    None => if s.iterator_finished && s.accepted == s.originals {
                        &&& polled == PollState::<Result<CompletionStream, SubmissionError>>::Ready(
                            Ok(CompletionStream { id: old(self).id, active: true }),
                        )
                        &&& final(self).done && final(self).pending is None
                        &&& final(data)@ == old(data)@
                    } else {
                        &&& polled is Pending
                        &&& *final(self) == *old(self)
                        &&& final(self).linked(final(data)@)
                        &&& final(data)@ == old(data)@.with_submission(
                            old(self).id,
                            SubmissionView {
                                admission_waker: crate::waker::registered(
                                    s.admission_waker,
                                    poller,
                                ),
                                ..s
                            },
                        )
                    },
                }
            }),
    {
        let ghost before = data@;
        let ghost table = data.submissions@;
        assert(data.submissions@.contains_key(self.id));
        let mut state: SubmissionState<W> = data.submissions.remove(self.id).unwrap();
        assert(before.submission_wf(self.id));
        let failure: Option<SubmissionErrorKind> = if state.delivery == Delivery::Overflow {
            Some(SubmissionErrorKind::CompletionBufferOverflow)
        } else if self.closed || state.delivery == Delivery::Cancelling || state.delivery
            == Delivery::Detached {
            Some(SubmissionErrorKind::RuntimeClosed)
        } else {
            None
        };
        let admitted = state.iterator_finished && state.accepted == state.originals;
        if failure.is_none() && !admitted {
            replace_waker(&mut state.admission_waker, poller);
        }
        proof {
            lemma_submission_inserted(table, self.id, state);
            before.lemma_with_submission(self.id, state@);
        }
        data.submissions.insert(self.id, state);
        assert(data@ =~= before.with_submission(self.id, state@));
        if let Some(kind) = failure {
            assert(data@ =~= before);
            self.done = true;
            self.pending = None;
            data.request_cancel(self.id, Delivery::Cancelling);
            return PollState::Ready(
                Err(
                    SubmissionError {
                        kind,
                        cancellation: Cancellation { id: self.id, active: true },
                    },
                ),
            );
        }
        if admitted {
            assert(data@ =~= before);
            self.done = true;
            self.pending = None;
            return PollState::Ready(Ok(CompletionStream { id: self.id, active: true }));
        }
        PollState::Pending
    }

    /// Cancels and detaches already staged work when admission is abandoned.
    ///
    /// A future that returned its result has handed the submission on.
    pub fn release<W>(&mut self, data: &mut DriverData<W>)
        requires
            old(data)@.wf(),
            !old(self).done ==> old(data)@.submissions.contains_key(old(self).id),
        ensures
            final(data)@.wf(),
            *final(self) == (SubmitEntries { done: true, ..*old(self) }),
            if old(self).done {
                final(data)@ == old(data)@
            } else {
                abandoned(old(data)@, old(self).id, final(data)@)
            },
    {
        if !self.done {
            self.done = true;
            abandon(data, self.id);
        }
    }
}

/// `next` is `driver` after the owner of `id` cancelled it and went away.
pub open spec fn abandoned<W>(driver: DriverView<W>, id: u64, next: DriverView<W>) -> bool {
    let s = driver.submissions[id];
    driver.with_submission(id, SubmissionView { held: false, ..s }).cancel_requested(
        set![id],
        Delivery::Detached,
        next,
    )
}

/// Gives up ownership of a submission and cancels its work.
fn abandon<W>(data: &mut DriverData<W>, id: u64)
    requires
        old(data)@.wf(),
        old(data)@.submissions.contains_key(id),
    ensures
        final(data)@.wf(),
        abandoned(old(data)@, id, final(data)@),
{
    let ghost before = data@;
    let ghost table = data.submissions@;
    assert(data.submissions@.contains_key(id));
    let mut state: SubmissionState<W> = data.submissions.remove(id).unwrap();
    assert(before.submission_wf(id));
    state.held = false;
    proof {
        lemma_submission_inserted(table, id, state);
        before.lemma_with_submission(id, state@);
    }
    data.submissions.insert(id, state);
    assert(data@ =~= before.with_submission(id, state@));
    data.request_cancel(id, Delivery::Detached);
}

impl CompletionStream {
    /// Returns a future for the next original-operation completion.
    pub fn next(&self) -> (next: NextCompletion)
        ensures
            next.id == self.id,
    {
        NextCompletion { id: self.id }
    }

    /// Closes original-CQE delivery and requests cancellation of live work.
    ///
    /// One cancellation is queued for each non-terminal original context,
    /// including operations staged but not yet known to be accepted.
    pub fn cancel<W>(self, data: &mut DriverData<W>) -> (cancellation: Cancellation)
        requires
            old(data)@.wf(),
            old(data)@.submissions.contains_key(self.id),
        ensures
            cancellation == (Cancellation { id: self.id, active: true }),
            final(data)@.wf(),
            old(data)@.cancel_requested(set![self.id], Delivery::Cancelling, final(data)@),
    {
        data.request_cancel(self.id, Delivery::Cancelling);
        Cancellation { id: self.id, active: true }
    }

    /// Requests cancellation and detaches delivery when the stream is abandoned.
    pub fn release<W>(&mut self, data: &mut DriverData<W>)
        requires
            old(data)@.wf(),
            old(self).active ==> old(data)@.submissions.contains_key(old(self).id),
        ensures
            final(data)@.wf(),
            *final(self) == (CompletionStream { active: false, ..*old(self) }),
            if old(self).active {
                abandoned(old(data)@, old(self).id, final(data)@)
            } else {
                final(data)@ == old(data)@
            },
    {
        if self.active {
            self.active = false;
            abandon(data, self.id);
        }
    }
}

impl Cancellation {
    /// Returns a future for the next `AsyncCancel` CQE.
    pub fn next(&self) -> (next: NextCancellation)
        ensures
            next.id == self.id,
    {
        NextCancellation { id: self.id }
    }

    /// Returns a future that waits for every associated context to be terminal.
    pub fn wait_drained(&self) -> (wait: WaitDrained)
        ensures
            wait.id == self.id,
    {
        WaitDrained { id: self.id }
    }

    /// Detaches caller-visible completion queues without waiting for the kernel.
    pub fn release<W>(&mut self, data: &mut DriverData<W>)
        requires
            old(data)@.wf(),
            old(self).active ==> old(data)@.submissions.contains_key(old(self).id),
        ensures
            final(data)@.wf(),
            *final(self) == (Cancellation { active: false, ..*old(self) }),
            final(data)@ == (if old(self).active {
                let s = old(data)@.submissions[old(self).id];
                old(data)@.with_submission(
                    old(self).id,
                    SubmissionView { held: false, ..s.detached() },
                )
            } else {
                old(data)@
            }),
    {
        if self.active {
            self.active = false;
            let ghost before = data@;
            let ghost table = data.submissions@;
            assert(data.submissions@.contains_key(self.id));
            let mut state: SubmissionState<W> = data.submissions.remove(self.id).unwrap();
            assert(before.submission_wf(self.id));
            state.detach();
            state.held = false;
            proof {
                lemma_submission_inserted(table, self.id, state);
                before.lemma_with_submission(self.id, state@);
            }
            data.submissions.insert(self.id, state);
            assert(data@ =~= before.with_submission(self.id, state@));
        }
    }
}

impl NextCompletion {
    /// Pops a buffered CQE, reports pending overflow, or registers the waiter.
    pub fn poll<W>(&self, data: &mut DriverData<W>, poller: Poller<W>) -> (polled: PollState<
        Option<Result<Completion<Cqe>, CompletionError>>,
    >)
        requires
            old(data)@.wf(),
            old(data)@.submissions.contains_key(self.id),
        ensures
            final(data)@.wf(),
            polled == old(data)@.submissions[self.id].next(),
            final(data)@ == old(data)@.with_submission(
                self.id,
                old(data)@.submissions[self.id].after_next(poller),
            ),
    {
        let ghost before = data@;
        let ghost table = data.submissions@;
        assert(data.submissions@.contains_key(self.id));
        let mut state: SubmissionState<W> = data.submissions.remove(self.id).unwrap();
        assert(before.submission_wf(self.id));
        let polled = state.poll_next(poller);
        proof {
            lemma_submission_inserted(table, self.id, state);
            before.lemma_with_submission(self.id, state@);
        }
        data.submissions.insert(self.id, state);
        assert(data@ =~= before.with_submission(self.id, state@));
        polled
    }
}

impl NextCancellation {
    /// Pops a buffered CQE, reports overflow, or registers the cancellation waiter.
    pub fn poll<W>(&self, data: &mut DriverData<W>, poller: Poller<W>) -> (polled: PollState<
        Option<Result<Completion<Cqe>, CompletionError>>,
    >)
        requires
            old(data)@.wf(),
            old(data)@.submissions.contains_key(self.id),
        ensures
            final(data)@.wf(),
            polled == old(data)@.submissions[self.id].next_cancellation(),
            final(data)@ == old(data)@.with_submission(
                self.id,
                old(data)@.submissions[self.id].after_next_cancellation(poller),
            ),
    {
        let ghost before = data@;
        let ghost table = data.submissions@;
        assert(data.submissions@.contains_key(self.id));
        let mut state: SubmissionState<W> = data.submissions.remove(self.id).unwrap();
        assert(before.submission_wf(self.id));
        let polled = state.poll_cancellation(poller);
        proof {
            lemma_submission_inserted(table, self.id, state);
            before.lemma_with_submission(self.id, state@);
        }
        data.submissions.insert(self.id, state);
        assert(data@ =~= before.with_submission(self.id, state@));
        polled
    }
}

impl WaitDrained {
    /// Checks terminal counts or registers the drain waiter.
    pub fn poll<W>(&self, data: &mut DriverData<W>, poller: Poller<W>) -> (polled: PollState<()>)
        requires
            old(data)@.wf(),
            old(data)@.submissions.contains_key(self.id),
        ensures
            final(data)@.wf(),
            polled == (if old(data)@.submissions[self.id].drained() {
                PollState::Ready(())
            } else {
                PollState::Pending
            }),
            final(data)@ == old(data)@.with_submission(
                self.id,
                old(data)@.submissions[self.id].after_wait_drained(poller),
            ),
    {
        let ghost before = data@;
        let ghost table = data.submissions@;
        assert(data.submissions@.contains_key(self.id));
        let mut state: SubmissionState<W> = data.submissions.remove(self.id).unwrap();
        assert(before.submission_wf(self.id));
        let polled = state.poll_drained(poller);
        proof {
            lemma_submission_inserted(table, self.id, state);
            before.lemma_with_submission(self.id, state@);
        }
        data.submissions.insert(self.id, state);
        assert(data@ =~= before.with_submission(self.id, state@));
        polled
    }
}

} // verus!
