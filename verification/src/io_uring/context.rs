//! Contexts that route completions back to their submissions.
use vstd::prelude::*;

verus! {

/// Controls which completion queues remain visible for one submission.
#[derive(Clone, Copy, Debug, PartialEq, Eq, Structural)]
pub enum Delivery {
    /// Original CQEs are delivered normally.
    Open,
    /// Explicit cancellation has closed original-CQE delivery.
    Cancelling,
    /// Original-CQE buffering overflowed and cancellation was requested.
    Overflow,
    /// The caller dropped its capability, so no CQEs are retained.
    Detached,
}

/// Identifies the operation that a CQE context represents.
#[derive(Clone, Copy, Debug, PartialEq, Eq, Structural)]
pub enum ContextKind {
    /// A caller-provided operation.
    Original,
    /// An `IORING_OP_ASYNC_CANCEL` operation generated by the driver.
    Cancel,
}

/// Tracks whether an SQE context is local, kernel-owned, or terminal.
#[derive(Clone, Copy, Debug, PartialEq, Eq, Structural)]
pub enum ContextPhase {
    /// The SQE is in the userspace SQ but is not known to be submitted.
    Staged,
    /// The kernel accepted the SQE and may produce CQEs for it.
    Submitted,
    /// The context received its terminal CQE.
    Terminal,
}

/// State found again through the SQE and CQE `user_data` fields.
#[derive(Clone, Copy, Debug, PartialEq, Eq)]
pub struct CqeContext {
    /// Whether this context represents original or driver-generated work.
    pub kind: ContextKind,
    /// Current submission and completion phase.
    pub phase: ContextPhase,
    /// Iterator index of the associated original SQE.
    pub index: usize,
    /// Caller `user_data` temporarily replaced by this context's pointer.
    pub original_user_data: u64,
    /// Submission whose queues and counters this context updates.
    pub submission: u64,
    /// Original context pointer targeted by a cancellation SQE.
    pub target: Option<u64>,
    /// Whether cancellation has been requested for an original context.
    pub cancel_queued: bool,
    /// Whether the cancellation context targeting this original has retired.
    pub cancel_seen: bool,
}

impl CqeContext {
    /// An original that has not received its last completion.
    pub open spec fn live(self) -> bool {
        self.kind == ContextKind::Original && self.phase != ContextPhase::Terminal
    }

    /// An original whose cancellation has not completed yet.
    pub open spec fn outstanding(self) -> bool {
        self.kind == ContextKind::Original && self.cancel_queued && !self.cancel_seen
    }

    /// An original for which `request_cancel` queues a cancellation.
    pub open spec fn cancellable(self) -> bool {
        self.live() && !self.cancel_queued
    }

    /// The context of a newly staged original SQE.
    pub open spec fn original(submission: u64, index: usize, original_user_data: u64) -> Self {
        CqeContext {
            kind: ContextKind::Original,
            phase: ContextPhase::Staged,
            index,
            original_user_data,
            submission,
            target: None,
            cancel_queued: false,
            cancel_seen: false,
        }
    }
}

/// Pending request to create and stage an `AsyncCancel` SQE.
#[derive(Clone, Copy, Debug, PartialEq, Eq)]
pub struct CancelCommand {
    /// Pointer of the original context to cancel.
    pub target: u64,
    /// Iterator index copied from the original context.
    pub index: usize,
    /// Caller `user_data` copied from the original SQE.
    pub original_user_data: u64,
    /// Submission to which the cancellation result belongs.
    pub submission: u64,
}

impl CancelCommand {
    /// The command that cancels the original `context` stored at `target`.
    pub open spec fn cancelling(target: u64, context: CqeContext) -> Self {
        CancelCommand {
            target,
            index: context.index,
            original_user_data: context.original_user_data,
            submission: context.submission,
        }
    }

    /// The context of the cancellation SQE staged for this command.
    pub open spec fn context(self) -> CqeContext {
        CqeContext {
            kind: ContextKind::Cancel,
            phase: ContextPhase::Staged,
            index: self.index,
            original_user_data: self.original_user_data,
            submission: self.submission,
            target: Some(self.target),
            cancel_queued: false,
            cancel_seen: false,
        }
    }
}

} // verus!
