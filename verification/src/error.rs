//! Errors reported by the safe runtime.
use vstd::prelude::*;
use vstd::string::*;
use crate::io::IoError;
use crate::io_uring::config::InvalidIoUringConfig;
use crate::text::{append_decimal, decimal};

verus! {

/// A stable Rust representation of a nOS-V status code.
///
/// Known values receive descriptive variants; unrecognized values are preserved
/// by [`NativeError::Unknown`] so newer native libraries do not lose diagnostic
/// information.
#[derive(Clone, Copy, Debug, PartialEq, Eq, Structural)]
#[non_exhaustive]
pub enum NativeError {
    /// A callback was invalid.
    InvalidCallback,
    /// Task metadata was invalid.
    InvalidMetadataSize,
    /// The operation is invalid in the current state.
    InvalidOperation,
    /// An argument was invalid.
    InvalidParameter,
    /// nOS-V is not initialized on this thread.
    NotInitialized,
    /// Native allocation failed.
    OutOfMemory,
    /// A nOS-V task context is required.
    OutsideTask,
    /// A native resource is busy.
    Busy,
    /// A timed native operation expired.
    Timeout,
    /// A code unknown to this crate version.
    Unknown(i32),
}

/// The integers by which the native library names its status codes.
///
/// They belong to the installed native library, so the crate takes them from
/// its bindings at run time.
#[derive(Clone, Copy, Debug, PartialEq, Eq, Structural)]
pub struct StatusCodes {
    /// Status of a successful call.
    pub success: i32,
    /// Status of [`NativeError::InvalidCallback`].
    pub invalid_callback: i32,
    /// Status of [`NativeError::InvalidMetadataSize`].
    pub invalid_metadata_size: i32,
    /// Status of [`NativeError::InvalidOperation`].
    pub invalid_operation: i32,
    /// Status of [`NativeError::InvalidParameter`].
    pub invalid_parameter: i32,
    /// Status of [`NativeError::NotInitialized`].
    pub not_initialized: i32,
    /// Status of [`NativeError::OutOfMemory`].
    pub out_of_memory: i32,
    /// Status of [`NativeError::OutsideTask`].
    pub outside_task: i32,
    /// Status of [`NativeError::Busy`].
    pub busy: i32,
    /// Status of [`NativeError::Timeout`].
    pub timeout: i32,
}

impl StatusCodes {
    /// The codes in the order in which they are recognized.
    pub open spec fn listed(self) -> Seq<i32> {
        seq![
            self.success,
            self.invalid_callback,
            self.invalid_metadata_size,
            self.invalid_operation,
            self.invalid_parameter,
            self.not_initialized,
            self.out_of_memory,
            self.outside_task,
            self.busy,
            self.timeout,
        ]
    }

    /// No two conditions share a code.
    pub open spec fn distinct(self) -> bool {
        self.listed().no_duplicates()
    }
}

/// What a status code means: success, the first listed error, or an unknown one.
pub open spec fn decoded(codes: StatusCodes, code: i32) -> Result<(), NativeError> {
    if code == codes.success {
        Ok(())
    } else if code == codes.invalid_callback {
        Err(NativeError::InvalidCallback)
    } else if code == codes.invalid_metadata_size {
        Err(NativeError::InvalidMetadataSize)
    } else if code == codes.invalid_operation {
        Err(NativeError::InvalidOperation)
    } else if code == codes.invalid_parameter {
        Err(NativeError::InvalidParameter)
    } else if code == codes.not_initialized {
        Err(NativeError::NotInitialized)
    } else if code == codes.out_of_memory {
        Err(NativeError::OutOfMemory)
    } else if code == codes.outside_task {
        Err(NativeError::OutsideTask)
    } else if code == codes.busy {
        Err(NativeError::Busy)
    } else if code == codes.timeout {
        Err(NativeError::Timeout)
    } else {
        Err(NativeError::Unknown(code))
    }
}

impl NativeError {
    /// The code of this error.
    pub open spec fn encoded(self, codes: StatusCodes) -> i32 {
        match self {
            NativeError::InvalidCallback => codes.invalid_callback,
            NativeError::InvalidMetadataSize => codes.invalid_metadata_size,
            NativeError::InvalidOperation => codes.invalid_operation,
            NativeError::InvalidParameter => codes.invalid_parameter,
            NativeError::NotInitialized => codes.not_initialized,
            NativeError::OutOfMemory => codes.out_of_memory,
            NativeError::OutsideTask => codes.outside_task,
            NativeError::Busy => codes.busy,
            NativeError::Timeout => codes.timeout,
            NativeError::Unknown(code) => code,
        }
    }

    /// What went wrong, in words.
    pub open spec fn summary_text(self) -> Seq<char> {
        match self {
            NativeError::InvalidCallback => "invalid callback"@,
            NativeError::InvalidMetadataSize => "invalid metadata size"@,
            NativeError::InvalidOperation => "invalid native operation"@,
            NativeError::InvalidParameter => "invalid parameter"@,
            NativeError::NotInitialized => "nOS-V is not initialized"@,
            NativeError::OutOfMemory => "native allocation failed"@,
            NativeError::OutsideTask => "operation requires a nOS-v task"@,
            NativeError::Busy => "native resource is busy"@,
            NativeError::Timeout => "native operation timed out"@,
            NativeError::Unknown(_) => "unknown native error"@,
        }
    }

    /// The text of [`NativeError::describe`].
    pub open spec fn text(self, codes: StatusCodes) -> Seq<char> {
        self.summary_text() + " (code "@ + decimal(self.encoded(codes) as int) + ")"@
    }

    /// Converts a native return code into Rust's success-or-error convention.
    ///
    /// Every value other than success is mapped to a known variant or preserved
    /// verbatim.
    pub fn from_code(codes: &StatusCodes, code: i32) -> (result: Result<(), Self>)
        ensures
            result == decoded(*codes, code),
    {
        if code == codes.success {
            return Ok(());
        }
        Err(
            if code == codes.invalid_callback {
                NativeError::InvalidCallback
            } else if code == codes.invalid_metadata_size {
                NativeError::InvalidMetadataSize
            } else if code == codes.invalid_operation {
                NativeError::InvalidOperation
            } else if code == codes.invalid_parameter {
                NativeError::InvalidParameter
            } else if code == codes.not_initialized {
                NativeError::NotInitialized
            } else if code == codes.out_of_memory {
                NativeError::OutOfMemory
            } else if code == codes.outside_task {
                NativeError::OutsideTask
            } else if code == codes.busy {
                NativeError::Busy
            } else if code == codes.timeout {
                NativeError::Timeout
            } else {
                NativeError::Unknown(code)
            },
        )
    }

    /// Returns the exact integer status represented by this value.
    pub fn code(self, codes: &StatusCodes) -> (code: i32)
        ensures
            code == self.encoded(*codes),
    {
        match self {
            NativeError::InvalidCallback => codes.invalid_callback,
            NativeError::InvalidMetadataSize => codes.invalid_metadata_size,
            NativeError::InvalidOperation => codes.invalid_operation,
            NativeError::InvalidParameter => codes.invalid_parameter,
            NativeError::NotInitialized => codes.not_initialized,
            NativeError::OutOfMemory => codes.out_of_memory,
            NativeError::OutsideTask => codes.outside_task,
            NativeError::Busy => codes.busy,
            NativeError::Timeout => codes.timeout,
            NativeError::Unknown(code) => code,
        }
    }

    /// Says what went wrong, without the code.
    pub fn summary(&self) -> (text: &'static str)
        ensures
            text@ == self.summary_text(),
    {
        match self {
            NativeError::InvalidCallback => "invalid callback",
            NativeError::InvalidMetadataSize => "invalid metadata size",
            NativeError::InvalidOperation => "invalid native operation",
            NativeError::InvalidParameter => "invalid parameter",
            NativeError::NotInitialized => "nOS-V is not initialized",
            NativeError::OutOfMemory => "native allocation failed",
            NativeError::OutsideTask => "operation requires a nOS-v task",
            NativeError::Busy => "native resource is busy",
            NativeError::Timeout => "native operation timed out",
            NativeError::Unknown(_) => "unknown native error",
        }
    }

    /// Formats the error without calling back into nOS-V.
    ///
    /// Errors stay safe to display after the runtime has shut down or in a
    /// forked child.
    pub fn describe(&self, codes: &StatusCodes) -> (text: String)
        ensures
            text@ == self.text(*codes),
    {
        let mut text = String::from_str(self.summary());
        text.append(" (code ");
        append_decimal(&mut text, self.code(codes));
        text.append(")");
        text
    }
}

/// Every status code but success survives the conversion to an error and back.
pub proof fn lemma_code_round_trip(codes: StatusCodes, code: i32)
    requires
        code != codes.success,
    ensures
        decoded(codes, code) matches Err(error) && error.encoded(codes) == code,
{
}

/// Every known error is recovered from its code.
pub proof fn lemma_error_round_trip(codes: StatusCodes, error: NativeError)
    requires
        codes.distinct(),
        error !is Unknown,
    ensures
        decoded(codes, error.encoded(codes)) == Err::<(), NativeError>(error),
{
    let listed = codes.listed();
    assert forall|i: int, j: int| 0 <= i < j < 10 implies listed[i] != listed[j] by {}
    assert(listed[0] == codes.success);
    assert(listed[1] == codes.invalid_callback);
    assert(listed[2] == codes.invalid_metadata_size);
    assert(listed[3] == codes.invalid_operation);
    assert(listed[4] == codes.invalid_parameter);
    assert(listed[5] == codes.not_initialized);
    assert(listed[6] == codes.out_of_memory);
    assert(listed[7] == codes.outside_task);
    assert(listed[8] == codes.busy);
    assert(listed[9] == codes.timeout);
}

/// Puts `prefix` in front of a native error's text.
fn native_text(prefix: &str, error: &NativeError, codes: &StatusCodes) -> (text: String)
    ensures
        text@ == prefix@ + error.text(*codes),
{
    let mut text = String::from_str(prefix);
    text.append(error.describe(codes).as_str());
    text
}

/// Failure while constructing and publishing a runtime generation.
///
/// Initialization is rolled back before this error is returned, so no partially
/// usable runtime escapes.
#[derive(Clone, Copy, Debug, PartialEq, Eq)]
#[non_exhaustive]
pub enum InitError {
    /// Runtime construction was attempted from inside a nOS-V task.
    AlreadyInTask,
    /// nOS-V rejected initialization.
    Native(NativeError),
    /// The ring configuration is unusable.
    InvalidIoUringConfig(InvalidIoUringConfig),
    /// The kernel ring could not be created or lacks a required capability.
    IoUring(IoError),
}

impl InitError {
    /// The text of [`InitError::describe`].
    pub open spec fn text(self, codes: StatusCodes) -> Seq<char> {
        match self {
            InitError::AlreadyInTask => "cannot create a runtime inside a nOS-v task"@,
            InitError::Native(error) => "runtime initialization failed: "@ + error.text(codes),
            InitError::InvalidIoUringConfig(error) => "runtime initialization failed: "@
                + error.text(),
            InitError::IoUring(error) => "runtime initialization failed: "@ + error.text(),
        }
    }

    /// Formats the error without calling back into nOS-V.
    pub fn describe(&self, codes: &StatusCodes) -> (text: String)
        ensures
            text@ == self.text(*codes),
    {
        match self {
            InitError::AlreadyInTask => String::from_str(
                "cannot create a runtime inside a nOS-v task",
            ),
            InitError::Native(error) => native_text(
                "runtime initialization failed: ",
                error,
                codes,
            ),
            InitError::InvalidIoUringConfig(error) => {
                let mut text = String::from_str("runtime initialization failed: ");
                text.append(error.description());
                text
            },
            InitError::IoUring(error) => {
                let mut text = String::from_str("runtime initialization failed: ");
                text.append(error.describe().as_str());
                text
            },
        }
    }

    /// Returns the underlying native error when this variant wraps one.
    pub fn source(&self) -> (source: Option<NativeError>)
        ensures
            source == (match *self {
                InitError::Native(error) => Some(error),
                _ => None,
            }),
    {
        match self {
            InitError::Native(error) => Some(*error),
            _ => None,
        }
    }
}

impl From<NativeError> for InitError {
    /// Wraps a translated native failure.
    fn from(value: NativeError) -> (error: Self) {
        InitError::Native(value)
    }
}

impl vstd::std_specs::convert::FromSpecImpl<NativeError> for InitError {
    open spec fn obeys_from_spec() -> bool {
        true
    }

    open spec fn from_spec(value: NativeError) -> Self {
        InitError::Native(value)
    }
}

/// The runtime is no longer accepting operations.
///
/// This zero-sized error intentionally reveals no raw lifecycle state. It is used
/// by capability-style queries where "closed, fork-inherited, or unavailable" is
/// the only safe distinction callers need.
#[derive(Clone, Copy, Debug, PartialEq, Eq, Structural)]
pub struct RuntimeClosed;

impl RuntimeClosed {
    /// Describes the error.
    pub fn description(&self) -> (text: &'static str)
        ensures
            text@ == "the nOS-V runtime is closed"@,
    {
        "the nOS-V runtime is closed"
    }
}

/// Failure to create and initially submit a spawned future.
///
/// On return, the future and any native descriptor allocated for it have been
/// reclaimed; a failed spawn never leaves a detached task behind.
#[derive(Clone, Copy, Debug, PartialEq, Eq, Structural)]
#[non_exhaustive]
pub enum SpawnError {
    /// The runtime is closing or closed.
    RuntimeClosed,
    /// The handle was inherited across `fork`.
    ForkedProcess,
    /// Native construction or submission failed.
    Native(NativeError),
}

impl SpawnError {
    /// The text of [`SpawnError::describe`].
    pub open spec fn text(self, codes: StatusCodes) -> Seq<char> {
        match self {
            SpawnError::RuntimeClosed => "the nOS-V runtime is closed"@,
            SpawnError::ForkedProcess => "runtime handle was inherited across fork"@,
            SpawnError::Native(error) => "could not spawn task: "@ + error.text(codes),
        }
    }

    /// Formats the error without calling back into nOS-V.
    pub fn describe(&self, codes: &StatusCodes) -> (text: String)
        ensures
            text@ == self.text(*codes),
    {
        match self {
            SpawnError::RuntimeClosed => String::from_str(RuntimeClosed.description()),
            SpawnError::ForkedProcess => String::from_str(
                "runtime handle was inherited across fork",
            ),
            SpawnError::Native(error) => native_text("could not spawn task: ", error, codes),
        }
    }

    /// Returns the underlying native error when this variant wraps one.
    pub fn source(&self) -> (source: Option<NativeError>)
        ensures
            source == (match *self {
                SpawnError::Native(error) => Some(error),
                _ => None,
            }),
    {
        match self {
            SpawnError::Native(error) => Some(*error),
            _ => None,
        }
    }
}

impl From<NativeError> for SpawnError {
    /// Wraps a translated native failure.
    fn from(value: NativeError) -> (error: Self) {
        SpawnError::Native(value)
    }
}

impl vstd::std_specs::convert::FromSpecImpl<NativeError> for SpawnError {
    open spec fn obeys_from_spec() -> bool {
        true
    }

    open spec fn from_spec(value: NativeError) -> Self {
        SpawnError::Native(value)
    }
}

impl From<RuntimeClosed> for SpawnError {
    /// Reports a closed runtime as a failed spawn.
    fn from(value: RuntimeClosed) -> (error: Self) {
        SpawnError::RuntimeClosed
    }
}

impl vstd::std_specs::convert::FromSpecImpl<RuntimeClosed> for SpawnError {
    open spec fn obeys_from_spec() -> bool {
        true
    }

    open spec fn from_spec(value: RuntimeClosed) -> Self {
        SpawnError::RuntimeClosed
    }
}

/// Failure while establishing or operating an attached-thread `block_on`.
#[derive(Clone, Copy, Debug, PartialEq, Eq, Structural)]
#[non_exhaustive]
pub enum BlockOnError {
    /// Only the creating thread may attach.
    WrongThread,
    /// `block_on` calls may not be nested.
    Nested,
    /// The caller is already a nOS-V task.
    AlreadyInTask,
    /// The runtime was inherited across `fork`.
    ForkedProcess,
    /// The runtime is closing or closed.
    RuntimeClosed,
    /// A native operation failed.
    Native(NativeError),
}

impl BlockOnError {
    /// The text of [`BlockOnError::describe`].
    pub open spec fn text(self, codes: StatusCodes) -> Seq<char> {
        match self {
            BlockOnError::WrongThread => "block_on must run on the runtime owner thread"@,
            BlockOnError::Nested => "nested block_on is not supported"@,
            BlockOnError::AlreadyInTask => "block_on cannot run inside a nOS-v task"@,
            BlockOnError::ForkedProcess => "runtime was inherited across fork"@,
            BlockOnError::RuntimeClosed => "the nOS-V runtime is closed"@,
            BlockOnError::Native(error) => "block_on native operation failed: "@ + error.text(
                codes,
            ),
        }
    }

    /// Formats the error without calling back into nOS-V.
    pub fn describe(&self, codes: &StatusCodes) -> (text: String)
        ensures
            text@ == self.text(*codes),
    {
        match self {
            BlockOnError::WrongThread => String::from_str(
                "block_on must run on the runtime owner thread",
            ),
            BlockOnError::Nested => String::from_str("nested block_on is not supported"),
            BlockOnError::AlreadyInTask => String::from_str(
                "block_on cannot run inside a nOS-v task",
            ),
            BlockOnError::ForkedProcess => String::from_str("runtime was inherited across fork"),
            BlockOnError::RuntimeClosed => String::from_str(RuntimeClosed.description()),
            BlockOnError::Native(error) => native_text(
                "block_on native operation failed: ",
                error,
                codes,
            ),
        }
    }
}

impl From<RuntimeClosed> for BlockOnError {
    /// Reports a closed runtime as a failed `block_on`.
    fn from(value: RuntimeClosed) -> (error: Self) {
        BlockOnError::RuntimeClosed
    }
}

impl vstd::std_specs::convert::FromSpecImpl<RuntimeClosed> for BlockOnError {
    open spec fn obeys_from_spec() -> bool {
        true
    }

    open spec fn from_spec(value: RuntimeClosed) -> Self {
        BlockOnError::RuntimeClosed
    }
}

/// Failure while draining and shutting a runtime down.
///
/// Shutdown is deliberately strict: nOS-V may only be finalized on the owner
/// thread and never through an inherited post-fork descriptor graph.
#[derive(Clone, Copy, Debug, PartialEq, Eq, Structural)]
#[non_exhaustive]
pub enum ShutdownError {
    /// Shutdown must run on the creating thread.
    WrongThread,
    /// The runtime was inherited across `fork`.
    ForkedProcess,
    /// Native teardown failed.
    Native(NativeError),
}

impl ShutdownError {
    /// The text of [`ShutdownError::describe`].
    pub open spec fn text(self, codes: StatusCodes) -> Seq<char> {
        match self {
            ShutdownError::WrongThread => "runtime shutdown must run on its owner thread"@,
            ShutdownError::ForkedProcess => "runtime was inherited across fork"@,
            ShutdownError::Native(error) => "runtime shutdown failed: "@ + error.text(codes),
        }
    }

    /// Formats the error without calling back into nOS-V.
    pub fn describe(&self, codes: &StatusCodes) -> (text: String)
        ensures
            text@ == self.text(*codes),
    {
        match self {
            ShutdownError::WrongThread => String::from_str(
                "runtime shutdown must run on its owner thread",
            ),
            ShutdownError::ForkedProcess => String::from_str("runtime was inherited across fork"),
            ShutdownError::Native(error) => native_text("runtime shutdown failed: ", error, codes),
        }
    }
}

/// The unsuccessful terminal result of a spawned task.
///
/// A join handle publishes this error only after the future has been dropped
/// and the corresponding native descriptor has been destroyed. `P` is the type
/// of captured panic payloads.
#[derive(Debug)]
#[non_exhaustive]
pub enum JoinError<P> {
    /// Cancellation won its race with completion.
    Cancelled,
    /// The future panicked while being polled or dropped.
    Panic(P),
    /// An internal native operation failed.
    Runtime(NativeError),
}

impl<P> JoinError<P> {
    /// Reports whether cooperative cancellation won the terminal race.
    pub fn is_cancelled(&self) -> (cancelled: bool)
        ensures
            cancelled == (*self is Cancelled),
    {
        matches!(self, JoinError::Cancelled)
    }

    /// Reports whether polling or destroying the task produced a panic.
    pub fn is_panic(&self) -> (panicked: bool)
        ensures
            panicked == (*self is Panic),
    {
        matches!(self, JoinError::Panic(_))
    }

    /// Extracts the captured panic payload, consuming this error.
    ///
    /// Cancellation and native-runtime failures return `None`.
    pub fn into_panic(self) -> (payload: Option<P>)
        ensures
            payload == (match self {
                JoinError::Panic(payload) => Some(payload),
                _ => None,
            }),
    {
        match self {
            JoinError::Panic(payload) => Some(payload),
            _ => None,
        }
    }

    /// The text of [`JoinError::describe`].
    pub open spec fn text(self, codes: StatusCodes) -> Seq<char> {
        match self {
            JoinError::Cancelled => "task was cancelled"@,
            JoinError::Panic(_) => "task panicked"@,
            JoinError::Runtime(error) => "task failed in the native runtime: "@ + error.text(
                codes,
            ),
        }
    }

    /// Formats the error without calling back into nOS-V.
    pub fn describe(&self, codes: &StatusCodes) -> (text: String)
        ensures
            text@ == self.text(*codes),
    {
        match self {
            JoinError::Cancelled => String::from_str("task was cancelled"),
            JoinError::Panic(_) => String::from_str("task panicked"),
            JoinError::Runtime(error) => native_text(
                "task failed in the native runtime: ",
                error,
                codes,
            ),
        }
    }
}

} // verus!
