//! Spawned tasks, joining, cancellation, current-task access, and yielding.
use vstd::prelude::*;
use crate::affinity::Affinity;
use crate::error::{JoinError, NativeError};
use crate::topology::{CpuId, NumaNodeId};
use crate::waker::{replace_waker, PollState, Poller};

verus! {

/// Reason a future stopped being runnable.
///
/// The reason is recorded before user-owned values are dropped. A waker fired by
/// a destructor therefore observes a terminal task and cannot resubmit its
/// descriptor.
#[derive(Clone, Copy, Debug, PartialEq, Eq, Structural)]
pub enum TerminalKind {
    /// The future returned its output.
    Ready,
    /// A cooperative abort request won the race with completion.
    Cancelled,
    /// Polling or destroying the future panicked.
    Panicked,
    /// A nOS-V operation required to continue execution failed.
    RuntimeError,
}

/// Lifecycle of the native descriptor.
#[derive(Clone, Copy, Debug, PartialEq, Eq, Structural)]
pub enum NativePhase {
    /// Ownership exists, but the native descriptor is not ready for submission.
    Building,
    /// The descriptor may be scheduled or currently executing its callback.
    Live,
    /// Polling ended and the completed callback may retire the descriptor.
    Terminal(TerminalKind),
    /// Descriptor destruction is in progress.
    Destroying,
    /// The descriptor has been destroyed and can never be submitted again.
    Destroyed,
}

/// State that must be examined atomically when scheduling or retiring a task.
///
/// `R` is the native descriptor.
#[derive(Clone, Copy, Debug, PartialEq, Eq)]
pub struct NativeGate<R> {
    /// Live native descriptor, removed immediately before destruction.
    pub task: Option<R>,
    /// Current native ownership and execution phase.
    pub phase: NativePhase,
    /// Whether this poll epoch already has a native submission in flight.
    pub wake_submitted: bool,
    /// Whether the run callback is presently polling user code.
    pub polling: bool,
    /// Whether cooperative cancellation has been requested.
    pub cancel_requested: bool,
}

/// A callback entered or left a poll in a state that rules this out.
#[derive(Clone, Copy, Debug, PartialEq, Eq, Structural)]
pub struct GateViolation;

/// Outcome of an abort request.
#[derive(Clone, Copy, Debug, PartialEq, Eq)]
pub struct AbortRequest<R> {
    /// Whether this call changed the task from not cancelled to cancelled.
    pub installed: bool,
    /// Descriptor to submit so that an idle task observes the request.
    pub submit: Option<R>,
}

impl<R> NativeGate<R> {
    /// A descriptor exists exactly while the task is live or terminal, and only
    /// a live task is polled.
    pub open spec fn wf(self) -> bool {
        &&& self.task is Some <==> (self.phase is Live || self.phase is Terminal)
        &&& self.polling ==> self.phase is Live
    }

    /// Whether a wake submits the descriptor.
    pub open spec fn wakes(self, reachable: bool) -> bool {
        reachable && self.phase is Live && !self.wake_submitted
    }

    /// Gate after a wake.
    pub open spec fn after_schedule(self, reachable: bool) -> Self {
        NativeGate { wake_submitted: self.wake_submitted || self.wakes(reachable), ..self }
    }

    /// Whether an abort request takes effect.
    pub open spec fn abortable(self, reachable: bool) -> bool {
        reachable && self.phase is Live && !self.cancel_requested
    }

    /// Gate after an abort request.
    pub open spec fn after_abort(self, reachable: bool) -> Self {
        if self.abortable(reachable) {
            NativeGate { cancel_requested: true, wake_submitted: true, ..self }
        } else {
            self
        }
    }

    /// Whether a callback may begin to poll.
    pub open spec fn can_start(self) -> bool {
        self.phase is Live && !self.polling
    }

    /// Gate after a callback began to poll.
    pub open spec fn after_start(self) -> Self {
        if self.cancel_requested {
            NativeGate {
                wake_submitted: false,
                polling: false,
                phase: NativePhase::Terminal(TerminalKind::Cancelled),
                ..self
            }
        } else {
            NativeGate { wake_submitted: false, polling: true, ..self }
        }
    }

    /// Whether a callback may finish polling.
    pub open spec fn can_finish(self) -> bool {
        self.phase is Live && self.polling
    }

    /// Gate after a poll that did not complete the future.
    pub open spec fn after_pending(self) -> Self {
        if self.cancel_requested {
            NativeGate {
                polling: false,
                phase: NativePhase::Terminal(TerminalKind::Cancelled),
                ..self
            }
        } else {
            NativeGate { polling: false, ..self }
        }
    }

    /// Gate after a poll that ended the future.
    pub open spec fn after_terminal(self, kind: TerminalKind) -> Self {
        NativeGate {
            polling: false,
            phase: NativePhase::Terminal(
                if self.cancel_requested {
                    TerminalKind::Cancelled
                } else {
                    kind
                },
            ),
            ..self
        }
    }

    /// Gate after a more accurate terminal reason was found.
    pub open spec fn after_replacement(self, kind: TerminalKind) -> Self {
        if self.phase is Terminal {
            NativeGate { phase: NativePhase::Terminal(kind), ..self }
        } else {
            self
        }
    }

    /// Gate after native suspension failed.
    pub open spec fn after_failed_suspend(self) -> Self {
        if self.phase is Live {
            NativeGate { phase: NativePhase::Terminal(TerminalKind::RuntimeError), ..self }
        } else {
            self
        }
    }

    /// Creates the native state of a task without a descriptor.
    pub fn new() -> (gate: Self)
        ensures
            gate.wf(),
            gate == (NativeGate::<R> {
                task: None,
                phase: NativePhase::Building,
                wake_submitted: false,
                polling: false,
                cancel_requested: false,
            }),
    {
        NativeGate {
            task: None,
            phase: NativePhase::Building,
            wake_submitted: false,
            polling: false,
            cancel_requested: false,
        }
    }

    /// Installs the created descriptor; the initial submission is in flight.
    pub fn install(&mut self, raw: R)
        requires
            old(self).wf(),
            old(self).phase is Building,
        ensures
            final(self).wf(),
            *final(self) == (NativeGate {
                task: Some(raw),
                phase: NativePhase::Live,
                wake_submitted: true,
                ..*old(self)
            }),
    {
        self.task = Some(raw);
        self.phase = NativePhase::Live;
        self.wake_submitted = true;
    }

    /// Takes back the descriptor whose initial submission failed.
    pub fn rollback(&mut self) -> (raw: Option<R>)
        requires
            old(self).wf(),
        ensures
            final(self).wf(),
            raw == old(self).task,
            *final(self) == (NativeGate {
                task: None,
                phase: NativePhase::Destroyed,
                polling: false,
                ..*old(self)
            }),
    {
        let raw = self.task.take();
        self.phase = NativePhase::Destroyed;
        self.polling = false;
        raw
    }

    /// Opens a poll epoch and consumes the submission that entered the callback.
    ///
    /// `false` means cancellation was already pending: the task is terminal and
    /// its future must be destroyed without polling it.
    pub fn start_poll(&mut self) -> (poll: Result<bool, GateViolation>)
        requires
            old(self).wf(),
        ensures
            final(self).wf(),
            if old(self).can_start() {
                &&& poll == Ok::<bool, GateViolation>(!old(self).cancel_requested)
                &&& *final(self) == old(self).after_start()
            } else {
                &&& poll == Err::<bool, GateViolation>(GateViolation)
                &&& *final(self) == *old(self)
            },
    {
        if self.phase != NativePhase::Live || self.polling {
            return Err(GateViolation);
        }
        self.wake_submitted = false;
        if self.cancel_requested {
            self.phase = NativePhase::Terminal(TerminalKind::Cancelled);
            Ok(false)
        } else {
            self.polling = true;
            Ok(true)
        }
    }

    /// Closes a poll epoch that returned without an output.
    ///
    /// `true` means the callback suspends. If an abort raced the poll, the task
    /// is terminal instead.
    pub fn finish_pending(&mut self) -> (suspend: Result<bool, GateViolation>)
        requires
            old(self).wf(),
        ensures
            final(self).wf(),
            if old(self).can_finish() {
                &&& suspend == Ok::<bool, GateViolation>(!old(self).cancel_requested)
                &&& *final(self) == old(self).after_pending()
            } else {
                &&& suspend == Err::<bool, GateViolation>(GateViolation)
                &&& *final(self) == *old(self)
            },
    {
        if self.phase != NativePhase::Live || !self.polling {
            return Err(GateViolation);
        }
        self.polling = false;
        if self.cancel_requested {
            self.phase = NativePhase::Terminal(TerminalKind::Cancelled);
            Ok(false)
        } else {
            Ok(true)
        }
    }

    /// Closes a poll epoch with a terminal outcome.
    ///
    /// A cancellation request installed while user code was polling takes
    /// precedence over `kind`. The result tells whether `kind` won.
    pub fn finish_terminal(&mut self, kind: TerminalKind) -> (won: Result<bool, GateViolation>)
        requires
            old(self).wf(),
        ensures
            final(self).wf(),
            if old(self).can_finish() {
                &&& won == Ok::<bool, GateViolation>(!old(self).cancel_requested)
                &&& *final(self) == old(self).after_terminal(kind)
            } else {
                &&& won == Err::<bool, GateViolation>(GateViolation)
                &&& *final(self) == *old(self)
            },
    {
        if self.phase != NativePhase::Live || !self.polling {
            return Err(GateViolation);
        }
        self.polling = false;
        let cancelled = self.cancel_requested;
        self.phase = NativePhase::Terminal(
            if cancelled {
                TerminalKind::Cancelled
            } else {
                kind
            },
        );
        Ok(!cancelled)
    }

    /// Replaces a terminal reason without reviving the task.
    pub fn replace_terminal(&mut self, kind: TerminalKind)
        requires
            old(self).wf(),
        ensures
            final(self).wf(),
            *final(self) == old(self).after_replacement(kind),
    {
        if matches!(self.phase, NativePhase::Terminal(_)) {
            self.phase = NativePhase::Terminal(kind);
        }
    }

    /// Converts a still-live pending task into a terminal native-runtime failure.
    ///
    /// An already-terminal phase is retained so cleanup cannot overwrite an
    /// earlier decision.
    pub fn suspend_failed(&mut self)
        requires
            old(self).wf(),
            !old(self).polling,
        ensures
            final(self).wf(),
            *final(self) == old(self).after_failed_suspend(),
    {
        if self.phase == NativePhase::Live {
            self.phase = NativePhase::Terminal(TerminalKind::RuntimeError);
        }
    }

    /// Releases a terminal descriptor for destruction.
    ///
    /// From here on every wake observes a non-live phase and becomes a no-op.
    /// [`NativeGate::destroyed`] follows once the descriptor is gone.
    pub fn retire(&mut self) -> (raw: Result<R, NativeError>)
        requires
            old(self).wf(),
        ensures
            final(self).wf(),
            if old(self).phase is Terminal {
                &&& raw == Ok::<R, NativeError>(old(self).task->0)
                &&& *final(self) == (NativeGate {
                    task: None,
                    phase: NativePhase::Destroying,
                    ..*old(self)
                })
            } else {
                &&& raw == Err::<R, NativeError>(NativeError::InvalidOperation)
                &&& *final(self) == *old(self)
            },
    {
        if !matches!(self.phase, NativePhase::Terminal(_)) {
            return Err(NativeError::InvalidOperation);
        }
        self.phase = NativePhase::Destroying;
        Ok(self.task.take().unwrap())
    }

    /// Records that the released descriptor was destroyed.
    pub fn destroyed(&mut self)
        requires
            old(self).wf(),
            old(self).phase is Destroying,
        ensures
            final(self).wf(),
            *final(self) == (NativeGate { phase: NativePhase::Destroyed, ..*old(self) }),
    {
        self.phase = NativePhase::Destroyed;
    }

    /// Reports whether the native descriptor has been destroyed.
    pub fn is_destroyed(&self) -> (destroyed: bool)
        ensures
            destroyed == (self.phase is Destroyed),
    {
        self.phase == NativePhase::Destroyed
    }
}

impl<R: Copy> NativeGate<R> {
    /// Coalesces a wake into one native submission for this poll epoch.
    ///
    /// `reachable` tells whether the runtime still exists and the process is the
    /// one that created it. Returns the descriptor to submit.
    pub fn schedule(&mut self, reachable: bool) -> (submit: Option<R>)
        requires
            old(self).wf(),
        ensures
            final(self).wf(),
            submit == (if old(self).wakes(reachable) {
                old(self).task
            } else {
                None
            }),
            *final(self) == old(self).after_schedule(reachable),
    {
        if !reachable || self.phase != NativePhase::Live || self.wake_submitted {
            return None;
        }
        self.wake_submitted = true;
        self.task
    }

    /// Requests cooperative cancellation and schedules an idle task to observe it.
    pub fn request_abort(&mut self, reachable: bool) -> (request: AbortRequest<R>)
        requires
            old(self).wf(),
        ensures
            final(self).wf(),
            *final(self) == old(self).after_abort(reachable),
            request.installed == old(self).abortable(reachable),
            request.submit == (if old(self).abortable(reachable) && !old(self).wake_submitted {
                old(self).task
            } else {
                None
            }),
    {
        if !reachable || self.phase != NativePhase::Live || self.cancel_requested {
            return AbortRequest { installed: false, submit: None };
        }
        self.cancel_requested = true;
        if self.wake_submitted {
            return AbortRequest { installed: true, submit: None };
        }
        self.wake_submitted = true;
        AbortRequest { installed: true, submit: self.task }
    }
}

/// In one poll epoch at most one wake submits the descriptor.
pub proof fn lemma_wakes_are_coalesced<R>(gate: NativeGate<R>, reachable: bool, again: bool)
    requires
        gate.wf(),
    ensures
        gate.wakes(reachable) ==> !gate.after_schedule(reachable).wakes(again),
        !gate.after_abort(true).wakes(again) || !gate.abortable(true),
        gate.can_start() && !gate.cancel_requested ==> gate.after_start().wakes(true),
{
}

/// A task that is not live is never submitted, aborted or polled again.
pub proof fn lemma_stale_wakes_do_nothing<R>(gate: NativeGate<R>, reachable: bool)
    requires
        gate.wf(),
        !(gate.phase is Live),
    ensures
        !gate.wakes(reachable),
        gate.after_schedule(reachable) == gate,
        !gate.abortable(reachable),
        gate.after_abort(reachable) == gate,
        !gate.can_start(),
        !gate.can_finish(),
        !(gate.after_replacement(TerminalKind::Panicked).phase is Live),
        gate.after_failed_suspend() == gate,
{
}

/// Once cancellation is requested, every way to leave the poll ends in
/// cancellation.
pub proof fn lemma_cancellation_takes_precedence<R>(gate: NativeGate<R>, kind: TerminalKind)
    requires
        gate.wf(),
        gate.cancel_requested,
    ensures
        gate.can_start() ==> gate.after_start().phase == NativePhase::Terminal(
            TerminalKind::Cancelled,
        ),
        gate.can_finish() ==> gate.after_pending().phase == NativePhase::Terminal(
            TerminalKind::Cancelled,
        ),
        gate.can_finish() ==> gate.after_terminal(kind).phase == NativePhase::Terminal(
            TerminalKind::Cancelled,
        ),
{
}

/// An abort request that takes effect is observed, because a submission is in
/// flight, and no later request takes effect.
pub proof fn lemma_abort_is_observed<R>(gate: NativeGate<R>, reachable: bool)
    requires
        gate.wf(),
        gate.abortable(true),
    ensures
        gate.after_abort(true).cancel_requested,
        gate.after_abort(true).wake_submitted,
        !gate.after_abort(true).abortable(reachable),
{
}

/// Mutable contents of a join cell.
///
/// `T` is the output, `P` the panic payload, `W` the waker.
pub struct JoinInner<T, P, W> {
    /// Outcome produced by polling but withheld until native completion.
    pub result: Option<Result<T, JoinError<P>>>,
    /// Whether descriptor retirement is finished and `result` is published.
    pub native_completed: bool,
    /// Most recent waker supplied by the join task.
    pub waiter: Option<W>,
    /// Whether the sole join result has already been returned.
    pub consumed: bool,
}

/// A task's result was stored twice.
#[derive(Clone, Copy, Debug, PartialEq, Eq, Structural)]
pub struct StoredTwice;

impl<T, P, W> JoinInner<T, P, W> {
    /// A published result stays available until it is consumed.
    pub open spec fn wf(self) -> bool {
        &&& self.native_completed && !self.consumed ==> self.result is Some
        &&& self.consumed ==> self.native_completed
    }

    /// Creates an unpublished join cell with no terminal result.
    pub fn new() -> (inner: Self)
        ensures
            inner.wf(),
            inner == (JoinInner::<T, P, W> {
                result: None,
                native_completed: false,
                waiter: None,
                consumed: false,
            }),
    {
        JoinInner { result: None, native_completed: false, waiter: None, consumed: false }
    }

    /// Stores the unique terminal result without publishing it yet.
    ///
    /// Publication is separate so successful joining guarantees that both the
    /// future and its native descriptor have already been retired.
    pub fn store(&mut self, result: Result<T, JoinError<P>>) -> (stored: Result<(), StoredTwice>)
        requires
            old(self).wf(),
        ensures
            final(self).wf(),
            if old(self).result is Some {
                stored == Err::<(), StoredTwice>(StoredTwice) && *final(self) == *old(self)
            } else {
                stored == Ok::<(), StoredTwice>(()) && *final(self) == (JoinInner {
                    result: Some(result),
                    ..*old(self)
                })
            },
    {
        if self.result.is_some() {
            return Err(StoredTwice);
        }
        self.result = Some(result);
        Ok(())
    }

    /// Replaces an outcome with a callback-containment error while still unpublished.
    ///
    /// Once native completion is visible, changing the result would race a
    /// joiner entitled to consume it, so late errors are ignored.
    pub fn replace_error_if_unpublished(&mut self, error: JoinError<P>)
        requires
            old(self).wf(),
        ensures
            final(self).wf(),
            *final(self) == (if old(self).native_completed {
                *old(self)
            } else {
                JoinInner { result: Some(Err(error)), ..*old(self) }
            }),
    {
        if !self.native_completed {
            self.result = Some(Err(error));
        }
    }

    /// Marks native cleanup complete and returns the waker to invoke.
    ///
    /// A task that stored no result failed inside the runtime.
    pub fn publish(&mut self) -> (waiter: Option<W>)
        requires
            old(self).wf(),
            !old(self).consumed,
        ensures
            final(self).wf(),
            waiter == old(self).waiter,
            *final(self) == (JoinInner::<T, P, W> {
                result: if old(self).result is Some {
                    old(self).result
                } else {
                    Some(Err(JoinError::Runtime(NativeError::InvalidOperation)))
                },
                native_completed: true,
                waiter: None,
                consumed: false,
            }),
    {
        if self.result.is_none() {
            self.result = Some(Err(JoinError::Runtime(NativeError::InvalidOperation)));
        }
        self.native_completed = true;
        self.waiter.take()
    }

    /// Returns a published result or registers the most recent join waker.
    ///
    /// Only one consumer exists; it must not poll again after completion.
    pub fn poll(&mut self, poller: Poller<W>) -> (polled: PollState<Result<T, JoinError<P>>>)
        requires
            old(self).wf(),
            !old(self).consumed,
        ensures
            final(self).wf(),
            if old(self).native_completed {
                &&& polled == PollState::Ready(old(self).result->0)
                &&& *final(self) == (JoinInner {
                    result: None,
                    consumed: true,
                    ..*old(self)
                })
            } else {
                &&& polled is Pending
                &&& *final(self) == (JoinInner {
                    waiter: crate::waker::registered(old(self).waiter, poller),
                    ..*old(self)
                })
            },
    {
        if self.native_completed {
            self.consumed = true;
            match self.result.take() {
                Some(result) => PollState::Ready(result),
                None => PollState::Ready(Err(JoinError::Runtime(NativeError::InvalidOperation))),
            }
        } else {
            replace_waker(&mut self.waiter, poller);
            PollState::Pending
        }
    }
}

/// How one poll of a future ended.
pub enum Polled<T, P> {
    /// The future is not ready.
    Pending,
    /// The future returned its output.
    Ready(T),
    /// Polling panicked with this payload.
    Panicked(P),
}

/// How a task ends once its future has been dropped.
pub enum Ending<T, P> {
    /// Cancelled before or between polls.
    Cancelled,
    /// Cancelled although the future returned this output.
    CancelledOutput(T),
    /// Cancelled although the future panicked.
    CancelledPanic(P),
    /// The future returned this output.
    Ready(T),
    /// Polling panicked with this payload.
    Panicked(P),
    /// The runtime failed.
    Runtime(NativeError),
}

/// What a run callback stores and discards at the end.
pub struct Finish<T, P> {
    /// Result for the join cell.
    pub result: Result<T, JoinError<P>>,
    /// Output to destroy, which lost a race.
    pub discarded: Option<T>,
}

impl<T, P> Ending<T, P> {
    /// The result and the discarded output, given a panic of the future's
    /// destructor.
    pub open spec fn finish(self, drop_panic: Option<P>) -> Finish<T, P> {
        match self {
            Ending::Cancelled => Finish { result: Err(JoinError::Cancelled), discarded: None },
            Ending::CancelledOutput(output) => Finish {
                result: Err(JoinError::Cancelled),
                discarded: Some(output),
            },
            Ending::CancelledPanic(_) => Finish {
                result: Err(JoinError::Cancelled),
                discarded: None,
            },
            Ending::Ready(output) => match drop_panic {
                Some(payload) => Finish {
                    result: Err(JoinError::Panic(payload)),
                    discarded: Some(output),
                },
                None => Finish { result: Ok(output), discarded: None },
            },
            Ending::Panicked(payload) => Finish {
                result: Err(
                    JoinError::Panic(
                        match drop_panic {
                            Some(later) => later,
                            None => payload,
                        },
                    ),
                ),
                discarded: None,
            },
            Ending::Runtime(error) => Finish {
                result: Err(JoinError::Runtime(error)),
                discarded: None,
            },
        }
    }
}

/// Begins one run of a task.
///
/// `None` means that the future is polled. Otherwise the task is terminal, and
/// the future is dropped before [`finish_run`].
pub fn begin_run<R, T, P>(gate: &mut NativeGate<R>, runtime_alive: bool) -> (ending: Result<
    Option<Ending<T, P>>,
    GateViolation,
>)
    requires
        old(gate).wf(),
    ensures
        final(gate).wf(),
        if !old(gate).can_start() {
            ending is Err && *final(gate) == *old(gate)
        } else if old(gate).cancel_requested {
            &&& ending == Ok::<Option<Ending<T, P>>, GateViolation>(Some(Ending::Cancelled))
            &&& *final(gate) == old(gate).after_start()
        } else if !runtime_alive {
            &&& ending == Ok::<Option<Ending<T, P>>, GateViolation>(
                Some(Ending::Runtime(NativeError::InvalidOperation)),
            )
            &&& *final(gate) == old(gate).after_start().after_terminal(TerminalKind::RuntimeError)
        } else {
            &&& ending == Ok::<Option<Ending<T, P>>, GateViolation>(None)
            &&& *final(gate) == old(gate).after_start()
            &&& final(gate).can_finish()
        },
{
    match gate.start_poll() {
        Err(violation) => Err(violation),
        Ok(false) => Ok(Some(Ending::Cancelled)),
        Ok(true) => {
            if runtime_alive {
                return Ok(None);
            }
            match gate.finish_terminal(TerminalKind::RuntimeError) {
                Err(violation) => Err(violation),
                Ok(_) => Ok(Some(Ending::Runtime(NativeError::InvalidOperation))),
            }
        },
    }
}

/// Continues one run of a task after its future was polled.
///
/// `None` means that the callback suspends. Every terminal branch closes the
/// gate before user-owned data is dropped.
pub fn after_poll<R, T, P>(gate: &mut NativeGate<R>, polled: Polled<T, P>) -> (ending: Result<
    Option<Ending<T, P>>,
    GateViolation,
>)
    requires
        old(gate).wf(),
    ensures
        final(gate).wf(),
        if !old(gate).can_finish() {
            ending is Err && *final(gate) == *old(gate)
        } else {
            let cancelled = old(gate).cancel_requested;
            match polled {
                Polled::Pending => {
                    &&& ending == Ok::<Option<Ending<T, P>>, GateViolation>(
                        if cancelled {
                            Some(Ending::Cancelled)
                        } else {
                            None
                        },
                    )
                    &&& *final(gate) == old(gate).after_pending()
                },
                Polled::Ready(output) => {
                    &&& ending == Ok::<Option<Ending<T, P>>, GateViolation>(
                        Some(
                            if cancelled {
                                Ending::CancelledOutput(output)
                            } else {
                                Ending::Ready(output)
                            },
                        ),
                    )
                    &&& *final(gate) == old(gate).after_terminal(TerminalKind::Ready)
                },
                Polled::Panicked(payload) => {
                    &&& ending == Ok::<Option<Ending<T, P>>, GateViolation>(
                        Some(
                            if cancelled {
                                Ending::CancelledPanic(payload)
                            } else {
                                Ending::Panicked(payload)
                            },
                        ),
                    )
                    &&& *final(gate) == old(gate).after_terminal(TerminalKind::Panicked)
                },
            }
        },
{
    match polled {
        Polled::Pending => match gate.finish_pending() {
            Err(violation) => Err(violation),
            Ok(true) => Ok(None),
            Ok(false) => Ok(Some(Ending::Cancelled)),
        },
        Polled::Ready(output) => match gate.finish_terminal(TerminalKind::Ready) {
            Err(violation) => Err(violation),
            Ok(true) => Ok(Some(Ending::Ready(output))),
            Ok(false) => Ok(Some(Ending::CancelledOutput(output))),
        },
        Polled::Panicked(payload) => match gate.finish_terminal(TerminalKind::Panicked) {
            Err(violation) => Err(violation),
            Ok(true) => Ok(Some(Ending::Panicked(payload))),
            Ok(false) => Ok(Some(Ending::CancelledPanic(payload))),
        },
    }
}

/// Continues one run of a task after native suspension.
///
/// `None` means that the callback returns and waits for its next submission.
pub fn after_suspend<R, T, P>(gate: &mut NativeGate<R>, suspended: Result<(), NativeError>) -> (
    ending: Option<Ending<T, P>>)
    requires
        old(gate).wf(),
        !old(gate).polling,
    ensures
        final(gate).wf(),
        match suspended {
            Ok(_) => ending is None && *final(gate) == *old(gate),
            Err(error) => {
                &&& ending == Some(Ending::<T, P>::Runtime(error))
                &&& *final(gate) == old(gate).after_failed_suspend()
            },
        },
{
    match suspended {
        Ok(_) => None,
        Err(error) => {
            gate.suspend_failed();
            Some(Ending::Runtime(error))
        },
    }
}

/// Ends a run after the future was dropped.
///
/// `drop_panic` is the payload with which the future's destructor panicked. It
/// replaces the output of a future that was ready.
pub fn finish_run<R, T, P>(
    gate: &mut NativeGate<R>,
    ending: Ending<T, P>,
    drop_panic: Option<P>,
) -> (finish: Finish<T, P>)
    requires
        old(gate).wf(),
    ensures
        final(gate).wf(),
        finish == ending.finish(drop_panic),
        *final(gate) == (if ending is Ready && drop_panic is Some {
            old(gate).after_replacement(TerminalKind::Panicked)
        } else {
            *old(gate)
        }),
{
    match ending {
        Ending::Cancelled => Finish { result: Err(JoinError::Cancelled), discarded: None },
        Ending::CancelledOutput(output) => Finish {
            result: Err(JoinError::Cancelled),
            discarded: Some(output),
        },
        Ending::CancelledPanic(_) => Finish {
            result: Err(JoinError::Cancelled),
            discarded: None,
        },
        Ending::Ready(output) => match drop_panic {
            Some(payload) => {
                gate.replace_terminal(TerminalKind::Panicked);
                Finish { result: Err(JoinError::Panic(payload)), discarded: Some(output) }
            },
            None => Finish { result: Ok(output), discarded: None },
        },
        Ending::Panicked(payload) => Finish {
            result: Err(
                JoinError::Panic(
                    match drop_panic {
                        Some(later) => later,
                        None => payload,
                    },
                ),
            ),
            discarded: None,
        },
        Ending::Runtime(error) => Finish {
            result: Err(JoinError::Runtime(error)),
            discarded: None,
        },
    }
}

/// Ends a task whose run callback panicked outside its future.
///
/// An unpublished result becomes this panic.
pub fn force_panic<R, T, P, W>(
    gate: &mut NativeGate<R>,
    join: &mut JoinInner<T, P, W>,
    payload: P,
)
    requires
        old(gate).wf(),
        old(join).wf(),
    ensures
        final(gate).wf(),
        final(join).wf(),
        *final(gate) == old(gate).after_replacement(TerminalKind::Panicked),
        *final(join) == (if old(join).native_completed {
            *old(join)
        } else {
            JoinInner { result: Some(Err(JoinError::Panic(payload))), ..*old(join) }
        }),
{
    gate.replace_terminal(TerminalKind::Panicked);
    join.replace_error_if_unpublished(JoinError::Panic(payload));
}

/// Join completion is visible only once the descriptor is destroyed.
pub open spec fn settled<R, T, P, W>(gate: NativeGate<R>, join: JoinInner<T, P, W>) -> bool {
    join.native_completed ==> gate.phase is Destroyed
}

/// Ends a completed task after its released descriptor was destroyed.
///
/// Success publishes the join result and returns the waiter. A failed
/// destruction leaves the descriptor's ownership uncertain: nothing is
/// published, and the caller must not go on.
pub fn after_destroy<R, T, P, W>(
    gate: &mut NativeGate<R>,
    join: &mut JoinInner<T, P, W>,
    destroyed: Result<(), NativeError>,
) -> (waiter: Result<Option<W>, NativeError>)
    requires
        old(gate).wf(),
        old(gate).phase is Destroying,
        old(join).wf(),
        settled(*old(gate), *old(join)),
    ensures
        final(gate).wf(),
        final(join).wf(),
        settled(*final(gate), *final(join)),
        match destroyed {
            Ok(_) => {
                &&& waiter == Ok::<Option<W>, NativeError>(old(join).waiter)
                &&& *final(gate) == (NativeGate { phase: NativePhase::Destroyed, ..*old(gate) })
                &&& *final(join) == (JoinInner::<T, P, W> {
                    result: if old(join).result is Some {
                        old(join).result
                    } else {
                        Some(Err(JoinError::Runtime(NativeError::InvalidOperation)))
                    },
                    native_completed: true,
                    waiter: None,
                    consumed: false,
                })
            },
            Err(error) => {
                &&& waiter == Err::<Option<W>, NativeError>(error)
                &&& *final(gate) == *old(gate)
                &&& *final(join) == (JoinInner {
                    result: Some(Err(JoinError::Runtime(error))),
                    ..*old(join)
                })
            },
        },
{
    match destroyed {
        Ok(_) => {
            gate.destroyed();
            Ok(join.publish())
        },
        Err(error) => {
            join.replace_error_if_unpublished(JoinError::Runtime(error));
            Err(error)
        },
    }
}

/// A joined task has no descriptor, and no wake, abort or late callback gives it
/// one.
pub proof fn lemma_joined_task_is_retired<R, T, P, W>(
    gate: NativeGate<R>,
    join: JoinInner<T, P, W>,
    reachable: bool,
    kind: TerminalKind,
)
    requires
        gate.wf(),
        settled(gate, join),
        join.native_completed,
    ensures
        gate.task is None,
        gate.after_schedule(reachable) == gate,
        gate.after_abort(reachable) == gate,
        gate.after_replacement(kind) == gate,
        gate.after_failed_suspend() == gate,
        !gate.can_start(),
        !gate.can_finish(),
{
}

/// Stable identifier used for diagnostics and registry lookup.
#[derive(Clone, Copy, Debug, PartialEq, Eq, Hash, Structural)]
pub struct TaskId(pub u64);

/// Handle resolving only after both the future and the native descriptor retire.
///
/// Dropping a join handle detaches the task; it does not cancel it.
#[derive(Debug, PartialEq, Eq, Structural)]
pub struct JoinHandle {
    /// Task this handle belongs to.
    pub id: TaskId,
}

/// A clonable cooperative-cancellation capability.
#[derive(Clone, Copy, Debug, PartialEq, Eq, Structural)]
pub struct AbortHandle {
    /// Task this handle belongs to.
    pub id: TaskId,
}

impl JoinHandle {
    /// Requests cooperative, non-preemptive cancellation.
    pub fn abort<R: Copy>(&self, gate: &mut NativeGate<R>, reachable: bool) -> (request:
        AbortRequest<R>)
        requires
            old(gate).wf(),
        ensures
            final(gate).wf(),
            *final(gate) == old(gate).after_abort(reachable),
            request.installed == old(gate).abortable(reachable),
            request.submit == (if old(gate).abortable(reachable) && !old(gate).wake_submitted {
                old(gate).task
            } else {
                None
            }),
    {
        gate.request_abort(reachable)
    }

    /// Returns a separately clonable cancellation handle.
    pub fn abort_handle(&self) -> (handle: AbortHandle)
        ensures
            handle.id == self.id,
    {
        AbortHandle { id: self.id }
    }

    /// Reports whether native completion has been published to the join cell.
    pub fn is_finished<T, P, W>(&self, join: &JoinInner<T, P, W>) -> (finished: bool)
        ensures
            finished == join.native_completed,
    {
        join.native_completed
    }
}

impl AbortHandle {
    /// Requests cancellation, reporting whether this call won the request race.
    pub fn abort<R: Copy>(&self, gate: &mut NativeGate<R>, reachable: bool) -> (request:
        AbortRequest<R>)
        requires
            old(gate).wf(),
        ensures
            final(gate).wf(),
            *final(gate) == old(gate).after_abort(reachable),
            request.installed == old(gate).abortable(reachable),
            request.submit == (if old(gate).abortable(reachable) && !old(gate).wake_submitted {
                old(gate).task
            } else {
                None
            }),
    {
        gate.request_abort(reachable)
    }

    /// Reports whether the native descriptor has been destroyed.
    pub fn is_finished<R>(&self, gate: &NativeGate<R>) -> (finished: bool)
        ensures
            finished == (gate.phase is Destroyed),
    {
        gate.is_destroyed()
    }
}

/// Spawn-time settings collected by [`TaskBuilder`].
///
/// These values are applied before the first native submission.
#[derive(Debug, PartialEq, Eq)]
pub struct TaskConfig {
    /// Optional name used in diagnostics.
    pub name: Option<String>,
    /// Native scheduler priority to install before submission.
    pub priority: Option<i32>,
    /// Native affinity to install before submission.
    pub affinity: Option<Affinity>,
    /// Per-task value returned by the shared monitoring-cost callback.
    pub monitoring_cost: Option<u64>,
}

impl Default for TaskConfig {
    /// Native defaults.
    fn default() -> (config: Self)
        ensures
            config == (TaskConfig {
                name: None,
                priority: None,
                affinity: None,
                monitoring_cost: None,
            }),
    {
        TaskConfig { name: None, priority: None, affinity: None, monitoring_cost: None }
    }
}

/// Configuration fixed before a spawned task's first submission.
#[derive(Debug, PartialEq, Eq)]
pub struct TaskBuilder {
    /// Settings accumulated before descriptor creation.
    pub config: TaskConfig,
}

impl TaskBuilder {
    /// Starts a builder with native defaults and a monitoring cost of one.
    pub fn new() -> (builder: Self)
        ensures
            builder.config == (TaskConfig {
                name: None,
                priority: None,
                affinity: None,
                monitoring_cost: None,
            }),
    {
        TaskBuilder { config: TaskConfig::default() }
    }

    /// Adds a diagnostic name.
    pub fn rust_name(self, name: String) -> (builder: Self)
        ensures
            builder.config == (TaskConfig { name: Some(name), ..self.config }),
    {
        let mut config = self.config;
        config.name = Some(name);
        TaskBuilder { config }
    }

    /// Sets native scheduler priority before first submission.
    pub fn priority(self, priority: i32) -> (builder: Self)
        ensures
            builder.config == (TaskConfig { priority: Some(priority), ..self.config }),
    {
        let mut config = self.config;
        config.priority = Some(priority);
        TaskBuilder { config }
    }

    /// Sets native affinity before first submission.
    pub fn affinity(self, affinity: Affinity) -> (builder: Self)
        ensures
            builder.config == (TaskConfig { affinity: Some(affinity), ..self.config }),
    {
        let mut config = self.config;
        config.affinity = Some(affinity);
        TaskBuilder { config }
    }

    /// Sets the value returned by the shared monitoring-cost callback.
    pub fn monitoring_cost(self, cost: u64) -> (builder: Self)
        ensures
            builder.config == (TaskConfig { monitoring_cost: Some(cost), ..self.config }),
    {
        let mut config = self.config;
        config.monitoring_cost = Some(cost);
        TaskBuilder { config }
    }
}

/// Scoped access to queries valid only in a current nOS-V task.
#[derive(Debug, PartialEq, Eq)]
pub struct CurrentTask {
    scope: (),
}

/// The identifier in a native answer, where a negative one is no identifier.
pub open spec fn current_id(native: i32) -> Result<int, NativeError> {
    if native < 0 {
        Err(NativeError::InvalidOperation)
    } else {
        Ok(native as int)
    }
}

impl CurrentTask {
    /// Returns the system CPU currently executing the task.
    ///
    /// `native` is the answer of the native query.
    pub fn current_cpu(&self, native: i32) -> (result: Result<CpuId, NativeError>)
        ensures
            match (result, current_id(native)) {
                (Ok(cpu), Ok(id)) => cpu.id() == id,
                (Err(error), Err(wanted)) => error == wanted,
                _ => false,
            },
    {
        if native < 0 {
            Err(NativeError::InvalidOperation)
        } else {
            CpuId::from_native(native)
        }
    }

    /// Returns the system NUMA node currently executing the task.
    ///
    /// `native` is the answer of the native query.
    pub fn current_numa_node(&self, native: i32) -> (result: Result<NumaNodeId, NativeError>)
        ensures
            match (result, current_id(native)) {
                (Ok(node), Ok(id)) => node.id() == id,
                (Err(error), Err(wanted)) => error == wanted,
                _ => false,
            },
    {
        if native < 0 {
            Err(NativeError::InvalidOperation)
        } else {
            NumaNodeId::from_native(native)
        }
    }
}

/// Runs a query only while a nOS-V task context exists.
///
/// `in_task` tells whether the calling thread executes a native task.
pub fn with_current<T, F: FnOnce(&CurrentTask) -> Result<T, NativeError>>(
    in_task: bool,
    query: F,
) -> (result: Result<T, NativeError>)
    requires
        forall|task: &CurrentTask| call_requires(query, (task,)),
    ensures
        !in_task ==> result == Err::<T, NativeError>(NativeError::OutsideTask),
        in_task ==> exists|task: &CurrentTask| call_ensures(query, (task,), result),
{
    if !in_task {
        return Err(NativeError::OutsideTask);
    }
    let task = CurrentTask { scope: () };
    query(&task)
}

/// A future that cooperatively yields one scheduling turn.
///
/// Its first poll wakes the polling task and is pending. The second poll
/// completes.
#[derive(Debug, PartialEq, Eq, Structural)]
pub struct YieldNow {
    yielded: bool,
}

/// The outcome of polling a [`YieldNow`], and the waker that the poll wakes.
pub open spec fn yield_polled<W>(yielded: bool, waker: W) -> (PollState<()>, Option<W>) {
    if yielded {
        (PollState::Ready(()), None)
    } else {
        (PollState::Pending, Some(waker))
    }
}

/// The wakers that the polls of these pollers wake, in order.
pub open spec fn yield_wakes<W>(yielded: bool, pollers: Seq<W>) -> Seq<W>
    decreases pollers.len(),
{
    if pollers.len() == 0 {
        Seq::empty()
    } else {
        crate::waker::taken(true, yield_polled(yielded, pollers[0]).1) + yield_wakes(
            true,
            pollers.drop_first(),
        )
    }
}

/// However often a new [`YieldNow`] is polled, it wakes exactly the first poller,
/// once, while it is pending; every later poll is ready and wakes nobody. A
/// future that is never polled wakes nobody either.
pub proof fn lemma_yield_wakes_once<W>(pollers: Seq<W>)
    ensures
        yield_wakes(false, pollers) == pollers.take(
            if pollers.len() > 0 {
                1
            } else {
                0
            },
        ),
        yield_wakes(true, pollers) == Seq::<W>::empty(),
        forall|waker: W| #[trigger]
            yield_polled(false, waker) == (PollState::<()>::Pending, Some(waker)),
        forall|waker: W| #[trigger]
            yield_polled(true, waker) == (PollState::Ready(()), None::<W>),
    decreases pollers.len(),
{
    if pollers.len() > 0 {
        lemma_yield_wakes_once(pollers.drop_first());
    }
}

impl YieldNow {
    /// Whether the pending poll has happened.
    pub closed spec fn has_yielded(self) -> bool {
        self.yielded
    }

    /// Yields on the first poll, then completes.
    ///
    /// `waker` wakes the polling task. The waker that is returned beside the
    /// outcome has to be woken, once.
    pub fn poll<W>(&mut self, waker: W) -> (polled: (PollState<()>, Option<W>))
        ensures
            polled == yield_polled(old(self).has_yielded(), waker),
            final(self).has_yielded(),
    {
        if self.yielded {
            (PollState::Ready(()), None)
        } else {
            self.yielded = true;
            (PollState::Pending, Some(waker))
        }
    }
}

/// Creates a future that cooperatively yields the current task once.
pub fn yield_now() -> (future: YieldNow)
    ensures
        !future.has_yielded(),
{
    YieldNow { yielded: false }
}

} // verus!
