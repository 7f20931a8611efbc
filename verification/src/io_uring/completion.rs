//! Entries exchanged with the ring and the errors reported in their place.
use vstd::prelude::*;

verus! {

/// Submission queue entry: the caller's tag and the operation it tags.
#[derive(Clone, Copy, Debug, PartialEq, Eq)]
pub struct Sqe<E> {
    /// Value the kernel copies into every completion of this entry.
    pub user_data: u64,
    /// The operation, in whatever form the ring takes it.
    pub operation: E,
}

/// Completion queue entry.
#[derive(Clone, Copy, Debug, PartialEq, Eq)]
pub struct Cqe {
    /// Tag of the submission queue entry that produced this completion.
    pub user_data: u64,
    /// Operation-specific result, or a negated `errno` value.
    pub result: i32,
    /// Completion flag bits.
    pub flags: u32,
    /// The two extra words of a 32-byte completion.
    pub big_cqe: Option<(u64, u64)>,
}

/// One typed CQE and the index of the SQE that produced it.
///
/// Completions arrive in CQ order, so `index` values need not be monotonic. A
/// multishot operation produces multiple values with the same `index`.
#[derive(Clone, Copy, Debug, PartialEq, Eq)]
pub struct Completion<C> {
    /// Zero-based position of the originating SQE in the submitted iterator.
    pub index: usize,
    /// CQE with the originating SQE's caller-provided `user_data` restored.
    pub cqe: C,
}

/// Error reported in place of a buffered completion.
///
/// Kernel completions are still consumed and terminal state is still tracked;
/// only delivery of individual CQEs to the caller has overflowed.
#[derive(Clone, Copy, Debug, PartialEq, Eq, Structural)]
#[non_exhaustive]
pub enum CompletionError {
    /// A per-submission completion queue filled before it was read.
    ///
    /// Original-completion overflow also closes normal delivery and requests
    /// cancellation. After cancellation-completion overflow, waiting for the
    /// submission to drain remains possible.
    BufferOverflow,
}

impl CompletionError {
    /// Describes the completion-delivery failure.
    pub fn description(&self) -> (text: &'static str)
        ensures
            text@ == "io_uring completion buffer overflowed; cancellation was requested"@,
    {
        "io_uring completion buffer overflowed; cancellation was requested"
    }
}

/// Reason an SQE iterator could not be fully admitted.
#[derive(Clone, Copy, Debug, PartialEq, Eq, Structural)]
#[non_exhaustive]
pub enum SubmissionErrorKind {
    /// The runtime is closing, closed, unavailable, or inherited through `fork`.
    ///
    /// Some SQEs may already have reached the kernel before admission stopped.
    RuntimeClosed,
    /// Original-CQE buffering overflowed before the iterator was fully admitted.
    CompletionBufferOverflow,
}

impl SubmissionErrorKind {
    /// Describes the admission failure reason.
    pub fn description(&self) -> (text: &'static str)
        ensures
            text@ == (match *self {
                SubmissionErrorKind::RuntimeClosed => "the io_uring runtime is closed"@,
                SubmissionErrorKind::CompletionBufferOverflow =>
                    "completion buffering overflowed during admission"@,
            }),
    {
        match self {
            SubmissionErrorKind::RuntimeClosed => "the io_uring runtime is closed",
            SubmissionErrorKind::CompletionBufferOverflow =>
                "completion buffering overflowed during admission",
        }
    }
}

/// Broken protocol between the driver and the kernel.
///
/// None of these can be reported to a caller: pointers the kernel still holds
/// would be abandoned. The process has to stop.
#[derive(Clone, Copy, Debug, PartialEq, Eq, Structural)]
pub enum Violation {
    /// A completion carried a null context pointer.
    NullContext,
    /// A completion named no live context.
    UnknownContext,
    /// A completion arrived for a context the kernel had not accepted.
    UnsubmittedContext,
    /// A cancellation request announced further completions.
    MultishotCancellation,
    /// The kernel accepted more entries than were staged.
    UnstagedAccepted,
    /// Submission failed for a reason that a later attempt cannot resolve.
    SubmitFailed,
    /// Every context pointer has been used.
    PointersExhausted,
    /// Every submission identifier has been used.
    SubmissionsExhausted,
    /// The SQE index cannot be counted any further.
    IndexExhausted,
}

} // verus!
