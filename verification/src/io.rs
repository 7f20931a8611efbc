//! Completion-native operations on owned resources.
//!
//! Operations own their buffers, paths, addresses and descriptors until the
//! kernel operation reaches a terminal completion, even when the caller drops
//! its future. Dropping a submitted future requests cancellation; it does not
//! roll back a kernel operation that already won the race.
use vstd::prelude::*;
use vstd::string::*;
use crate::text::{append_decimal, decimal};
use crate::waker::{registered, replace_waker, PollState, Poller};

verus! {

/// Classes of I/O failure that this crate reports itself.
#[derive(Clone, Copy, Debug, PartialEq, Eq, Structural)]
pub enum IoErrorKind {
    /// The I/O runtime is closed.
    BrokenPipe,
    /// An argument or option is unusable.
    InvalidInput,
    /// The kernel answered outside its contract.
    InvalidData,
    /// The stream ended before the buffer was full.
    UnexpectedEof,
    /// An operation made no progress.
    WriteZero,
    /// The kernel lacks the operation.
    Unsupported,
}

/// Failure of an I/O operation.
#[derive(Clone, Copy, Debug, PartialEq, Eq)]
pub enum IoError {
    /// The operating system reported this error number.
    Os(i32),
    /// The failure arose in this crate.
    Simple {
        /// Class of the failure.
        kind: IoErrorKind,
        /// What went wrong.
        message: &'static str,
    },
}

impl IoError {
    /// The text of [`IoError::describe`].
    pub open spec fn text(self) -> Seq<char> {
        match self {
            IoError::Os(errno) => "os error "@ + decimal(errno as int),
            IoError::Simple { kind, message } => message@,
        }
    }

    /// Describes the failure.
    pub fn describe(&self) -> (text: String)
        ensures
            text@ == self.text(),
    {
        match self {
            IoError::Os(errno) => {
                let mut text = String::from_str("os error ");
                append_decimal(&mut text, *errno);
                text
            },
            IoError::Simple { kind, message } => String::from_str(message),
        }
    }
}

/// What a CQE result stands for: a count, or a positive error number.
pub open spec fn cqe_result(cqe: i32) -> Result<int, IoError> {
    if cqe < 0 {
        Err(IoError::Os((-cqe) as i32))
    } else {
        Ok(cqe as int)
    }
}

/// Converts a CQE result into a byte count or its positive errno error.
pub fn result(cqe: i32) -> (converted: Result<usize, IoError>)
    requires
        cqe > i32::MIN,
    ensures
        match (converted, cqe_result(cqe)) {
            (Ok(count), Ok(wanted)) => count == wanted,
            (Err(error), Err(wanted)) => error == wanted,
            _ => false,
        },
{
    if cqe < 0 {
        Err(IoError::Os(-cqe))
    } else {
        Ok(cqe as usize)
    }
}

/// The error of every operation on a closed I/O runtime.
pub open spec fn closed_error() -> IoError {
    IoError::Simple { kind: IoErrorKind::BrokenPipe, message: "nOS-V I/O runtime is closed" }
}

/// Creates the uniform error of a closed I/O runtime.
pub fn runtime_closed_error() -> (error: IoError)
    ensures
        error == closed_error(),
{
    IoError::Simple { kind: IoErrorKind::BrokenPipe, message: "nOS-V I/O runtime is closed" }
}

/// Creates the uniform error of an operation that the kernel lacks.
pub fn unsupported_opcode_error() -> (error: IoError)
    ensures
        error == (IoError::Simple {
            kind: IoErrorKind::Unsupported,
            message: "kernel io_uring does not support this operation",
        }),
{
    IoError::Simple {
        kind: IoErrorKind::Unsupported,
        message: "kernel io_uring does not support this operation",
    }
}

/// Cancellation, wake and result state shared by a future and its driver record.
pub struct OwnedState<T, W> {
    /// Set by future drop before notifying the driver.
    pub cancelled: bool,
    /// Set once the result has been stored.
    pub completed: bool,
    /// Caller waiting for completion.
    pub waker: Option<W>,
    /// Terminal result until the future takes it.
    pub result: Option<T>,
}

impl<T, W> OwnedState<T, W> {
    /// The state after `value` is published.
    pub open spec fn published(self, value: T) -> Self {
        OwnedState { completed: true, waker: None, result: Some(value), ..self }
    }

    /// The state after a poll.
    pub open spec fn polled(self, poller: Poller<W>) -> Self {
        if self.completed {
            OwnedState { result: None, ..self }
        } else {
            OwnedState { waker: registered(self.waker, poller), ..self }
        }
    }

    /// What a poll yields.
    pub open spec fn outcome(self) -> PollState<T> {
        if self.completed {
            PollState::Ready(self.result->0)
        } else {
            PollState::Pending
        }
    }

    /// Allocates an idle state.
    pub fn new() -> (state: Self)
        ensures
            state == (OwnedState::<T, W> {
                cancelled: false,
                completed: false,
                waker: None,
                result: None,
            }),
    {
        OwnedState { cancelled: false, completed: false, waker: None, result: None }
    }

    /// Reports whether caller drop requested cancellation.
    pub fn is_cancelled(&self) -> (cancelled: bool)
        ensures
            cancelled == self.cancelled,
    {
        self.cancelled
    }

    /// Stores the terminal result and returns the registered waiter.
    pub fn publish(&mut self, value: T) -> (waker: Option<W>)
        ensures
            waker == old(self).waker,
            *final(self) == old(self).published(value),
    {
        self.result = Some(value);
        self.completed = true;
        self.waker.take()
    }
}

/// Progress of an [`OwnedOp`].
pub enum OpPhase<H> {
    /// The resources have not left the future.
    Local(H),
    /// The resources were offered to the driver.
    Offered,
    /// The driver owns the resources.
    Queued,
    /// The operation failed before the driver owned the resources.
    Failed,
    /// The output was taken.
    Done,
}

/// Lazy, resource-safe, single-completion operation future.
///
/// `H` holds the resources. They remain local before the first poll, which
/// transfers them to the driver; from then on progress does not depend on
/// polling this future.
pub struct OwnedOp<H> {
    phase: OpPhase<H>,
}

/// What the first poll does with the resources.
pub enum StartOp<H> {
    /// Hand them to the driver.
    Enqueue(H),
    /// Complete the operation with this error.
    Fail(H, IoError),
}

impl<H> OwnedOp<H> {
    /// Progress of the operation.
    pub closed spec fn phase(self) -> OpPhase<H> {
        self.phase
    }

    /// Creates a lazy operation without touching the driver.
    pub fn new(handler: H) -> (op: Self)
        ensures
            op.phase() == OpPhase::Local(handler),
    {
        OwnedOp { phase: OpPhase::Local(handler) }
    }

    /// Begins a poll: the first one releases the resources.
    ///
    /// `running` tells whether the runtime accepts operations.
    pub fn start(&mut self, running: bool) -> (start: Option<StartOp<H>>)
        ensures
            match old(self).phase() {
                OpPhase::Local(handler) => if running {
                    &&& start == Some(StartOp::Enqueue(handler))
                    &&& final(self).phase() is Offered
                } else {
                    &&& start == Some(StartOp::Fail(handler, closed_error()))
                    &&& final(self).phase() is Failed
                },
                phase => start is None && final(self).phase() == phase,
            },
    {
        let mut phase: OpPhase<H> = OpPhase::Offered;
        std::mem::swap(&mut self.phase, &mut phase);
        match phase {
            OpPhase::Local(handler) => if running {
                Some(StartOp::Enqueue(handler))
            } else {
                self.phase = OpPhase::Failed;
                Some(StartOp::Fail(handler, runtime_closed_error()))
            },
            other => {
                self.phase = other;
                None
            },
        }
    }

    /// Continues after the resources were offered to the driver.
    ///
    /// A driver that closed returns them; the operation then fails.
    pub fn enqueued(&mut self, result: Result<(), H>) -> (failed: Option<(H, IoError)>)
        requires
            old(self).phase() is Offered,
        ensures
            match result {
                Ok(_) => failed is None && final(self).phase() is Queued,
                Err(handler) => {
                    &&& failed == Some((handler, closed_error()))
                    &&& final(self).phase() is Failed
                },
            },
    {
        match result {
            Ok(_) => {
                self.phase = OpPhase::Queued;
                None
            },
            Err(handler) => {
                self.phase = OpPhase::Failed;
                Some((handler, runtime_closed_error()))
            },
        }
    }

    /// Takes the result or registers the waiter.
    ///
    /// The future must not be polled again after its output was taken.
    pub fn poll<T, W>(&mut self, state: &mut OwnedState<T, W>, poller: Poller<W>) -> (polled:
        PollState<T>)
        requires
            old(self).phase() is Queued || old(self).phase() is Failed,
            old(state).completed ==> old(state).result is Some,
        ensures
            polled == old(state).outcome(),
            *final(state) == old(state).polled(poller),
            final(self).phase() == (if old(state).completed {
                OpPhase::Done
            } else {
                old(self).phase()
            }),
    {
        if state.completed {
            self.phase = OpPhase::Done;
            let value = state.result.take().unwrap();
            return PollState::Ready(value);
        }
        replace_waker(&mut state.waker, poller);
        PollState::Pending
    }

    /// Requests cancellation of an abandoned operation.
    ///
    /// Returns whether the driver has to be told. The driver keeps the resources
    /// through the terminal completion.
    pub fn release<T, W>(&self, state: &mut OwnedState<T, W>) -> (cancel: bool)
        ensures
            cancel == (self.phase() is Queued),
            *final(state) == (OwnedState {
                cancelled: old(state).cancelled || cancel,
                ..*old(state)
            }),
    {
        match self.phase {
            OpPhase::Queued => {
                state.cancelled = true;
                true
            },
            _ => false,
        }
    }
}

/// A waiter that saw no result is the one that publication wakes, and its next
/// poll yields the published value.
pub proof fn lemma_waiter_is_not_lost<T, W>(
    state: OwnedState<T, W>,
    poller: Poller<W>,
    value: T,
)
    requires
        !state.completed,
    ensures
        state.outcome() is Pending,
        state.polled(poller).waker == registered(state.waker, poller),
        state.polled(poller).waker is Some,
        state.polled(poller).published(value).outcome() == PollState::Ready(value),
{
}

/// A result leaves the slot when it is delivered.
pub proof fn lemma_result_is_delivered_once<T, W>(
    state: OwnedState<T, W>,
    value: T,
    poller: Poller<W>,
)
    ensures
        state.published(value).outcome() == PollState::Ready(value),
        state.published(value).polled(poller).result is None,
{
}

/// One step of an operation that moves a whole buffer.
#[derive(Clone, Copy, Debug, PartialEq, Eq)]
pub enum TransferStep {
    /// The whole buffer has been moved.
    Finished,
    /// Issue one operation.
    Issue {
        /// Absolute file offset; sockets have none.
        file_offset: Option<u64>,
        /// Offset into the buffer.
        buffer_offset: usize,
        /// Number of bytes to move.
        len: u32,
    },
    /// The operation cannot be issued.
    Refused(IoError),
}

/// Progress of an operation that moves a whole buffer.
///
/// Short operations are repeated at increasing offsets until the buffer is
/// filled or written, or an operation fails or makes no progress.
#[derive(Clone, Copy, Debug, PartialEq, Eq)]
pub struct Transfer {
    /// Absolute file offset of the first byte; sockets have none.
    pub offset: Option<u64>,
    /// Length of the buffer.
    pub total: usize,
    /// Bytes moved so far.
    pub moved: usize,
    /// Error of an operation that moves nothing.
    pub stall: IoError,
}

/// The error of an operation whose length the kernel cannot take.
pub open spec fn oversized_error() -> IoError {
    IoError::Simple {
        kind: IoErrorKind::InvalidInput,
        message: "buffer is too large for io_uring",
    }
}

/// The error of a transfer that leaves the range of file offsets.
pub open spec fn offset_error() -> IoError {
    IoError::Simple { kind: IoErrorKind::InvalidInput, message: "file offset overflow" }
}

/// Checks the length of one operation.
///
/// `total` is the length of the buffer and `buffer_offset` where the operation
/// begins in it.
pub fn operation_len(total: usize, buffer_offset: usize) -> (len: Result<u32, IoError>)
    ensures
        ({
            let remaining = vstd::math::max(total - buffer_offset, 0);
            len == (if remaining > u32::MAX {
                Err::<u32, IoError>(oversized_error())
            } else {
                Ok(remaining as u32)
            })
        }),
{
    let remaining: usize = total.saturating_sub(buffer_offset);
    if remaining > (u32::MAX as usize) {
        return Err(
            IoError::Simple {
                kind: IoErrorKind::InvalidInput,
                message: "buffer is too large for io_uring",
            },
        );
    }
    Ok(remaining as u32)
}

impl Transfer {
    /// No more than the buffer has been moved.
    pub open spec fn wf(self) -> bool {
        self.moved <= self.total
    }

    /// Whether the file offset of some byte of the buffer does not fit.
    pub open spec fn overflows(self) -> bool {
        self.offset is Some && self.offset->0 + self.total - 1 > u64::MAX
    }

    /// The next step.
    ///
    /// A file range that overflows is refused before anything is moved.
    pub open spec fn step(self) -> TransferStep {
        if self.moved == self.total {
            TransferStep::Finished
        } else if self.overflows() {
            TransferStep::Refused(offset_error())
        } else if self.total - self.moved > u32::MAX {
            TransferStep::Refused(oversized_error())
        } else {
            TransferStep::Issue {
                file_offset: match self.offset {
                    Some(offset) => Some((offset + self.moved) as u64),
                    None => None,
                },
                buffer_offset: self.moved,
                len: (self.total - self.moved) as u32,
            }
        }
    }

    /// Begins to move a buffer of `total` bytes.
    pub fn new(offset: Option<u64>, total: usize, stall: IoError) -> (transfer: Self)
        ensures
            transfer.wf(),
            transfer == (Transfer { offset, total, moved: 0, stall }),
    {
        Transfer { offset, total, moved: 0, stall }
    }

    /// Returns the next step.
    pub fn next(&self) -> (step: TransferStep)
        requires
            self.wf(),
        ensures
            step == self.step(),
    {
        if self.moved == self.total {
            return TransferStep::Finished;
        }
        let file_offset: Option<u64> = match self.offset {
            Some(offset) => {
                if offset.checked_add((self.total - 1) as u64).is_none() {
                    return TransferStep::Refused(
                        IoError::Simple {
                            kind: IoErrorKind::InvalidInput,
                            message: "file offset overflow",
                        },
                    );
                }
                Some(offset + self.moved as u64)
            },
            None => None,
        };
        match operation_len(self.total, self.moved) {
            Ok(len) => TransferStep::Issue { file_offset, buffer_offset: self.moved, len },
            Err(error) => TransferStep::Refused(error),
        }
    }

    /// Records the outcome of the issued operation.
    ///
    /// An operation that moved nothing fails with the transfer's own error.
    pub fn advance(&mut self, result: Result<usize, IoError>) -> (outcome: Result<(), IoError>)
        requires
            old(self).wf(),
            result matches Ok(count) ==> count <= old(self).total - old(self).moved,
        ensures
            final(self).wf(),
            match result {
                Ok(count) => if count == 0 {
                    outcome == Err::<(), IoError>(old(self).stall) && *final(self) == *old(self)
                } else {
                    outcome == Ok::<(), IoError>(()) && *final(self) == (Transfer {
                        moved: (old(self).moved + count) as usize,
                        ..*old(self)
                    })
                },
                Err(error) => outcome == Err::<(), IoError>(error) && *final(self) == *old(self),
            },
    {
        match result {
            Ok(count) => {
                if count == 0 {
                    return Err(self.stall);
                }
                self.moved = self.moved + count;
                Ok(())
            },
            Err(error) => Err(error),
        }
    }
}

/// A transfer whose file range overflows issues nothing, and one that fits
/// issues only operations inside the range of file offsets.
pub proof fn lemma_transfer_stays_in_range(transfer: Transfer)
    requires
        transfer.wf(),
        transfer.total > 0,
    ensures
        transfer.overflows() ==> !(transfer.step() is Issue),
        transfer.overflows() && transfer.moved == 0 ==> transfer.step() == TransferStep::Refused(
            offset_error(),
        ),
        transfer.step() is Issue && transfer.offset is Some ==> transfer.step()->file_offset->0
            + transfer.step()->len - 1 <= u64::MAX,
{
}

/// Consecutive operations of a transfer cover the buffer and the file range
/// without gap or overlap, and none of them is refused once one was issued.
pub proof fn lemma_transfer_is_contiguous(transfer: Transfer, count: usize)
    requires
        transfer.wf(),
        transfer.step() is Issue,
        0 < count <= transfer.step()->len,
    ensures
        ({
            let next = Transfer { moved: (transfer.moved + count) as usize, ..transfer };
            &&& next.wf()
            &&& !(next.step() is Refused)
            &&& next.step() is Issue ==> {
                &&& next.step()->buffer_offset == transfer.step()->buffer_offset + count
                &&& transfer.offset is Some ==> next.step()->file_offset->0
                    == transfer.step()->file_offset->0 + count
            }
            &&& next.step() is Finished <==> count == transfer.step()->len
            &&& next.total - next.moved < transfer.total - transfer.moved
        }),
{
}

/// A completed operation that filled part of a buffer.
#[derive(Clone, Copy, Debug, PartialEq, Eq, Structural)]
pub struct Filled {
    /// Bytes the operation filled.
    pub count: usize,
    /// Initialized prefix of the buffer afterwards.
    pub initialized: usize,
}

/// What the completion of an operation that fills a buffer stands for.
pub open spec fn filled(
    cqe: i32,
    remaining: usize,
    buffer_offset: usize,
    initialized: usize,
    oversized: &'static str,
) -> Result<Filled, IoError> {
    match cqe_result(cqe) {
        Ok(count) => if count <= remaining {
            Ok(
                Filled {
                    count: count as usize,
                    initialized: vstd::math::max(
                        initialized as int,
                        buffer_offset + count,
                    ) as usize,
                },
            )
        } else {
            Err(IoError::Simple { kind: IoErrorKind::InvalidData, message: oversized })
        },
        Err(error) => Err(error),
    }
}

/// What the completion of an operation that empties a buffer stands for.
pub open spec fn drained(cqe: i32, remaining: usize, oversized: &'static str) -> Result<
    usize,
    IoError,
> {
    match cqe_result(cqe) {
        Ok(count) => if count <= remaining {
            Ok(count as usize)
        } else {
            Err(IoError::Simple { kind: IoErrorKind::InvalidData, message: oversized })
        },
        Err(error) => Err(error),
    }
}

/// Converts the completion of an operation that fills a buffer.
///
/// `remaining` is the length that was issued at `buffer_offset` of a buffer
/// whose first `initialized` bytes were initialized. A count beyond what was
/// issued breaks the kernel's contract and is reported with `oversized`.
pub fn complete_fill(
    cqe: i32,
    remaining: usize,
    buffer_offset: usize,
    initialized: usize,
    oversized: &'static str,
) -> (outcome: Result<Filled, IoError>)
    requires
        cqe > i32::MIN,
        buffer_offset + remaining <= usize::MAX,
    ensures
        outcome == filled(cqe, remaining, buffer_offset, initialized, oversized),
{
    match result(cqe) {
        Ok(count) => {
            if count > remaining {
                return Err(
                    IoError::Simple { kind: IoErrorKind::InvalidData, message: oversized },
                );
            }
            let end: usize = buffer_offset + count;
            Ok(
                Filled {
                    count,
                    initialized: if initialized > end {
                        initialized
                    } else {
                        end
                    },
                },
            )
        },
        Err(error) => Err(error),
    }
}

/// Converts the completion of an operation that empties a buffer.
pub fn complete_drain(cqe: i32, remaining: usize, oversized: &'static str) -> (count: Result<
    usize,
    IoError,
>)
    requires
        cqe > i32::MIN,
    ensures
        count == drained(cqe, remaining, oversized),
{
    match result(cqe) {
        Ok(count) => if count <= remaining {
            Ok(count)
        } else {
            Err(IoError::Simple { kind: IoErrorKind::InvalidData, message: oversized })
        },
        Err(error) => Err(error),
    }
}

/// Converts the completion of an operation that moves no bytes.
pub fn complete_unit(cqe: i32) -> (outcome: Result<(), IoError>)
    requires
        cqe > i32::MIN,
    ensures
        outcome == (match cqe_result(cqe) {
            Ok(_) => Ok::<(), IoError>(()),
            Err(error) => Err(error),
        }),
{
    match result(cqe) {
        Ok(_) => Ok(()),
        Err(error) => Err(error),
    }
}

} // verus!
