//! Runtime-wide, futures-based access to raw `io_uring` operations.
pub mod admission;
pub mod completion;
pub mod config;
pub mod context;
pub mod driver;
pub mod handles;
pub mod laws;
pub mod model;
pub mod owned;
pub mod run;
pub mod submission;

pub use admission::SubmitEntries;
pub use completion::{Completion, CompletionError, SubmissionErrorKind};
pub use config::{InvalidIoUringConfig, IoUringConfig};
pub use handles::{
    Cancellation, CompletionStream, IoUringHandle, NextCancellation, NextCompletion,
    SubmissionError, WaitDrained,
};
