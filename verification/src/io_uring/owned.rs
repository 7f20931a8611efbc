//! Owned operations inside the driver.
//!
//! The driver retains the resources of an operation until the kernel can no
//! longer use them. An operation is admitted as a submission of one SQE, runs,
//! and retires; every pass moves it forward as far as possible.
use vstd::prelude::*;
use crate::io::{unsupported_opcode_error, IoError, IoErrorKind};
use crate::io_uring::admission::SubmitEntries;
use crate::io_uring::context::Delivery;
use crate::io_uring::driver::DriverData;
use crate::io_uring::handles::{Cancellation, CompletionStream};
use crate::io_uring::model::DriverView;
use crate::io_uring::submission::SubmissionView;
use crate::waker::{registered, PollState, Poller};

verus! {

/// How an owned operation ends.
#[derive(Clone, Copy, Debug, PartialEq, Eq, Structural)]
pub enum OwnedOutcome {
    /// The kernel completed it with this result.
    Completed(i32),
    /// The runtime closed first.
    Closed,
    /// The caller dropped its future first.
    Cancelled,
}

/// Progress of an owned operation.
pub enum Owned<E> {
    /// The SQE waits for a free slot or for the kernel to accept it.
    Admitting(SubmitEntries<E>),
    /// The kernel works on the operation.
    Running(CompletionStream),
    /// The outcome is known, and the contexts retire.
    Retiring(Cancellation, OwnedOutcome),
}

/// What follows for an owned operation.
pub enum OwnedStep<E> {
    /// Move it forward again at once.
    Continue(Owned<E>),
    /// Keep it until the next pass.
    Wait(Owned<E>),
    /// Release its resources with this outcome.
    Finish(OwnedOutcome),
}

/// What becomes of an operation that is offered to the driver.
#[derive(Clone, Copy, Debug, PartialEq, Eq)]
pub enum OwnedAdmission {
    /// Hand it back: the driver is closed.
    Return,
    /// Fail it: the kernel lacks its opcode.
    Fail(IoError),
    /// Submit its SQE.
    Accept,
}

impl<W> DriverData<W> {
    /// Decides what becomes of an operation that is offered to the driver.
    ///
    /// `supported` tells whether the kernel supports its opcode.
    pub fn offer_owned(&self, supported: bool) -> (admission: OwnedAdmission)
        ensures
            admission == (if !self@.accepting {
                OwnedAdmission::Return
            } else if !supported {
                OwnedAdmission::Fail(
                    IoError::Simple {
                        kind: IoErrorKind::Unsupported,
                        message: "kernel io_uring does not support this operation",
                    },
                )
            } else {
                OwnedAdmission::Accept
            }),
    {
        if !self.accepting {
            return OwnedAdmission::Return;
        }
        if !supported {
            return OwnedAdmission::Fail(unsupported_opcode_error());
        }
        OwnedAdmission::Accept
    }
}

impl<E> Owned<E> {
    /// The submission of the operation.
    pub open spec fn id(self) -> u64 {
        match self {
            Owned::Admitting(submit) => submit.id,
            Owned::Running(stream) => stream.id,
            Owned::Retiring(cancellation, _) => cancellation.id,
        }
    }

    /// The driver knows the submission, which this operation holds.
    pub open spec fn linked<W>(self, driver: DriverView<W>) -> bool {
        &&& driver.submissions.contains_key(self.id())
        &&& driver.submissions[self.id()].held
        &&& match self {
            Owned::Admitting(submit) => !submit.done && submit.linked(driver),
            Owned::Running(stream) => stream.active,
            Owned::Retiring(cancellation, _) => cancellation.active,
        }
    }

    /// The operation waits for its contexts to retire.
    pub open spec fn retiring(id: u64, outcome: OwnedOutcome) -> OwnedStep<E> {
        OwnedStep::Continue(Owned::Retiring(Cancellation { id, active: true }, outcome))
    }

    /// `step` and `next` are what follows from moving the operation forward.
    pub open spec fn advanced<W>(
        self,
        driver: DriverView<W>,
        cancelled: bool,
        poller: Poller<W>,
        step: OwnedStep<E>,
        next: DriverView<W>,
    ) -> bool {
        let id = self.id();
        let s = driver.submissions[id];
        match self {
            Owned::Admitting(submit) => match submit.failure(s) {
                Some(_) => {
                    &&& step == Self::retiring(id, OwnedOutcome::Closed)
                    &&& driver.cancel_requested(set![id], Delivery::Cancelling, next)
                },
                None => if s.iterator_finished && s.accepted == s.originals {
                    &&& step == OwnedStep::Continue(
                        Owned::<E>::Running(CompletionStream { id, active: true }),
                    )
                    &&& next == driver
                } else {
                    &&& step == OwnedStep::Wait(self)
                    &&& next == driver.with_submission(
                        id,
                        SubmissionView {
                            admission_waker: registered(s.admission_waker, poller),
                            ..s
                        },
                    )
                },
            },
            Owned::Running(_) => {
                let polled = driver.with_submission(id, s.after_next(poller));
                let ending: Option<OwnedOutcome> = match s.next() {
                    PollState::Ready(Some(Ok(completion))) => Some(
                        OwnedOutcome::Completed(completion.cqe.result),
                    ),
                    PollState::Ready(_) => Some(OwnedOutcome::Closed),
                    PollState::Pending => if cancelled {
                        Some(OwnedOutcome::Cancelled)
                    } else {
                        None
                    },
                };
                match ending {
                    Some(outcome) => {
                        &&& step == Self::retiring(id, outcome)
                        &&& polled.cancel_requested(set![id], Delivery::Cancelling, next)
                    },
                    None => step == OwnedStep::Wait(self) && next == polled,
                }
            },
            Owned::Retiring(_, outcome) => if s.drained() {
                &&& step == OwnedStep::<E>::Finish(outcome)
                &&& next == driver.with_submission(
                    id,
                    SubmissionView { held: false, ..s.detached() },
                )
            } else {
                &&& step == OwnedStep::Wait(self)
                &&& next == driver.with_submission(id, s.after_wait_drained(poller))
            },
        }
    }

    /// Moves the operation one step forward.
    ///
    /// An operation that is being admitted has offered its SQE to the ring
    /// before. `cancelled` tells whether its future was dropped.
    pub fn advance<W>(self, data: &mut DriverData<W>, cancelled: bool, poller: Poller<W>) -> (step:
        OwnedStep<E>)
        requires
            old(data)@.wf(),
            self.linked(old(data)@),
        ensures
            final(data)@.wf(),
            self.advanced(old(data)@, cancelled, poller, step, final(data)@),
            step matches OwnedStep::Continue(next) ==> next.id() == self.id() && next.linked(
                final(data)@,
            ),
            step matches OwnedStep::Wait(next) ==> next == self && next.linked(final(data)@),
            step is Finish ==> old(data)@.submissions[self.id()].drained(),
    {
        match self {
            Owned::Admitting(mut submit) => match submit.poll(data, poller) {
                PollState::Ready(Ok(stream)) => OwnedStep::Continue(Owned::Running(stream)),
                PollState::Ready(Err(error)) => {
                    let cancellation = error.into_cancellation();
                    assert(data@.submissions.contains_key(self.id())) by {
                        assert(data@.submissions.dom().contains(self.id()));
                    }
                    OwnedStep::Continue(Owned::Retiring(cancellation, OwnedOutcome::Closed))
                },
                PollState::Pending => OwnedStep::Wait(Owned::Admitting(submit)),
            },
            Owned::Running(stream) => {
                let outcome = match stream.next().poll(data, poller) {
                    PollState::Ready(Some(Ok(completion))) => OwnedOutcome::Completed(
                        completion.cqe.result,
                    ),
                    PollState::Ready(_) => OwnedOutcome::Closed,
                    PollState::Pending => {
                        if !cancelled {
                            return OwnedStep::Wait(Owned::Running(stream));
                        }
                        OwnedOutcome::Cancelled
                    },
                };
                let cancellation = stream.cancel(data);
                assert(data@.submissions.contains_key(self.id())) by {
                    assert(data@.submissions.dom().contains(self.id()));
                }
                OwnedStep::Continue(Owned::Retiring(cancellation, outcome))
            },
            Owned::Retiring(mut cancellation, outcome) => {
                match cancellation.wait_drained().poll(data, poller) {
                    PollState::Ready(_) => {
                        assert(data@ =~= old(data)@);
                        cancellation.release(data);
                        OwnedStep::Finish(outcome)
                    },
                    PollState::Pending => OwnedStep::Wait(Owned::Retiring(cancellation, outcome)),
                }
            },
        }
    }
}

/// The resources of an owned operation are released only when the kernel can no
/// longer use them: no context and no queued cancellation belongs to it.
pub proof fn lemma_finished_operation_is_retired<W, E>(
    operation: Owned<E>,
    driver: DriverView<W>,
    cancelled: bool,
    poller: Poller<W>,
    step: OwnedStep<E>,
    next: DriverView<W>,
)
    requires
        driver.wf(),
        operation.linked(driver),
        operation.advanced(driver, cancelled, poller, step, next),
        step is Finish,
    ensures
        forall|p: u64| #[trigger]
            next.contexts.contains_key(p) ==> next.contexts[p].submission != operation.id(),
        forall|i: int|
            0 <= i < next.cancel_queue.len() ==> (#[trigger] next.cancel_queue[i]).submission
                != operation.id(),
{
    driver.lemma_drained_is_retired(operation.id());
}

/// An operation only moves forward, from admission over running to retiring, and
/// finishes at once when its contexts have retired.
pub proof fn lemma_operation_moves_forward<W, E>(
    operation: Owned<E>,
    driver: DriverView<W>,
    cancelled: bool,
    poller: Poller<W>,
    step: OwnedStep<E>,
    next: DriverView<W>,
)
    requires
        operation.advanced(driver, cancelled, poller, step, next),
    ensures
        operation is Retiring && driver.submissions[operation.id()].drained() ==> step
            == OwnedStep::<E>::Finish(operation->Retiring_1),
        step matches OwnedStep::Continue(later) ==> {
            &&& operation is Admitting || operation is Running
            &&& later is Running || later is Retiring
            &&& operation is Running ==> later is Retiring
        },
{
}

} // verus!
