//! Status codes, errors and the policy of the ring.
use vstd::prelude::*;
use crate::errno::is_retryable;
use crate::error::{
    BlockOnError, InitError, JoinError, NativeError, RuntimeClosed, ShutdownError, SpawnError,
    StatusCodes,
};
use crate::io::{IoError, IoErrorKind};
use crate::io_uring::completion::{CompletionError, SubmissionErrorKind};
use crate::io_uring::config::{InvalidIoUringConfig, IoUringConfig};
use crate::io_uring::run::PreparedRing;
use vstd::arithmetic::power2::{lemma2_to64, lemma_pow2_unfold, pow2};

verus! {

/// The code of success is no error, and the error of any other code has that code.
pub proof fn lemma_every_code_is_kept(
    codes: StatusCodes,
    code: i32,
    result: Result<(), NativeError>,
    back: i32,
)
    requires
        call_ensures(NativeError::from_code, (&codes, code), result),
        result is Err ==> call_ensures(NativeError::code, (result->Err_0, &codes), back),
    ensures
        result is Ok <==> code == codes.success,
        result is Err ==> back == code,
        result matches Err(NativeError::Unknown(unknown)) ==> unknown == code
            && !codes.listed().contains(code),
{
    if result is Err && result->Err_0 is Unknown {
        assert(!codes.listed().contains(code));
    }
}

/// With distinct codes each code means its own error, and each error but an unknown
/// one comes back from its code.
pub proof fn lemma_every_error_is_kept(
    codes: StatusCodes,
    error: NativeError,
    code: i32,
    result: Result<(), NativeError>,
)
    requires
        codes.distinct(),
        call_ensures(NativeError::code, (error, &codes), code),
        call_ensures(NativeError::from_code, (&codes, code), result),
    ensures
        error !is Unknown ==> result == Err::<(), NativeError>(error),
        error is InvalidCallback ==> code == codes.invalid_callback,
        error is InvalidMetadataSize ==> code == codes.invalid_metadata_size,
        error is InvalidOperation ==> code == codes.invalid_operation,
        error is InvalidParameter ==> code == codes.invalid_parameter,
        error is NotInitialized ==> code == codes.not_initialized,
        error is OutOfMemory ==> code == codes.out_of_memory,
        error is OutsideTask ==> code == codes.outside_task,
        error is Busy ==> code == codes.busy,
        error is Timeout ==> code == codes.timeout,
        error matches NativeError::Unknown(unknown) ==> code == unknown,
{
    if error !is Unknown {
        crate::error::lemma_error_round_trip(codes, error);
    }
}

/// A native failure is reported as the source of an error exactly where there is
/// one, and its text ends the text of the error.
pub proof fn lemma_native_failures_are_reported(
    codes: StatusCodes,
    native: NativeError,
    native_text: String,
    init: (InitError, String, Option<NativeError>),
    spawn: (SpawnError, String, Option<NativeError>),
    block_on: (BlockOnError, String),
    shutdown: (ShutdownError, String),
)
    requires
        call_ensures(NativeError::describe, (&native, &codes), native_text),
        call_ensures(InitError::describe, (&init.0, &codes), init.1),
        call_ensures(InitError::source, (&init.0,), init.2),
        call_ensures(SpawnError::describe, (&spawn.0, &codes), spawn.1),
        call_ensures(SpawnError::source, (&spawn.0,), spawn.2),
        call_ensures(BlockOnError::describe, (&block_on.0, &codes), block_on.1),
        call_ensures(ShutdownError::describe, (&shutdown.0, &codes), shutdown.1),
    ensures
        init.2 is Some <==> init.0 is Native,
        init.0 matches InitError::Native(error) ==> init.2 == Some(error),
        init.0 == InitError::Native(native) ==> init.1@ == "runtime initialization failed: "@
            + native_text@,
        spawn.2 is Some <==> spawn.0 is Native,
        spawn.0 matches SpawnError::Native(error) ==> spawn.2 == Some(error),
        spawn.0 == SpawnError::Native(native) ==> spawn.1@ == "could not spawn task: "@
            + native_text@,
        spawn.0 is RuntimeClosed ==> spawn.1@ == "the nOS-V runtime is closed"@,
        block_on.0 == BlockOnError::Native(native) ==> block_on.1@
            == "block_on native operation failed: "@ + native_text@,
        block_on.0 is RuntimeClosed ==> block_on.1@ == "the nOS-V runtime is closed"@,
        shutdown.0 == ShutdownError::Native(native) ==> shutdown.1@
            == "runtime shutdown failed: "@ + native_text@,
{
}

/// A join error is a cancellation, a panic or a native failure, and only a panic
/// has a payload.
pub proof fn lemma_join_errors_are_told_apart<P>(
    error: JoinError<P>,
    cancelled: bool,
    panicked: bool,
    payload: Option<P>,
    codes: StatusCodes,
    text: String,
    native_text: String,
)
    requires
        call_ensures(JoinError::<P>::is_cancelled, (&error,), cancelled),
        call_ensures(JoinError::<P>::is_panic, (&error,), panicked),
        call_ensures(JoinError::<P>::into_panic, (error,), payload),
        call_ensures(JoinError::<P>::describe, (&error, &codes), text),
        error matches JoinError::Runtime(native) ==> call_ensures(
            NativeError::describe,
            (&native, &codes),
            native_text,
        ),
    ensures
        cancelled <==> error is Cancelled,
        panicked <==> error is Panic,
        payload is Some <==> panicked,
        error matches JoinError::Panic(kept) ==> payload == Some(kept),
        error is Cancelled ==> text@ == "task was cancelled"@,
        error is Panic ==> text@ == "task panicked"@,
        error is Runtime ==> text@ == "task failed in the native runtime: "@ + native_text@,
{
}

/// A closed runtime is a closed runtime for whoever spawns or blocks, and a native
/// failure stays that failure.
pub proof fn lemma_conversions_keep_the_cause(
    native: NativeError,
    closed: RuntimeClosed,
    init: InitError,
    spawn: SpawnError,
    closed_spawn: SpawnError,
    closed_block: BlockOnError,
)
    requires
        call_ensures(<InitError as From<NativeError>>::from, (native,), init),
        call_ensures(<SpawnError as From<NativeError>>::from, (native,), spawn),
        call_ensures(<SpawnError as From<RuntimeClosed>>::from, (closed,), closed_spawn),
        call_ensures(<BlockOnError as From<RuntimeClosed>>::from, (closed,), closed_block),
    ensures
        init == InitError::Native(native),
        spawn == SpawnError::Native(native),
        closed_spawn is RuntimeClosed,
        closed_block is RuntimeClosed,
{
}

/// A call is tried again exactly when it was interrupted, would block, or found its
/// resource busy.
pub proof fn lemma_transient_failures_are_retried(errno: Option<i32>, transient: bool)
    requires
        call_ensures(is_retryable, (errno,), transient),
    ensures
        transient <==> errno is Some && (errno->0 == 4 || errno->0 == 11 || errno->0 == 16),
{
}

/// A policy is valid exactly if nothing in it is zero and the number of entries can
/// be halved down to one; the first thing that is wrong is reported, and a valid
/// policy is kept as it is.
pub proof fn lemma_policy_is_valid_or_explained(
    config: IoUringConfig,
    result: Result<IoUringConfig, InvalidIoUringConfig>,
    double: IoUringConfig,
    doubled: Result<IoUringConfig, InvalidIoUringConfig>,
)
    requires
        call_ensures(IoUringConfig::validate, (config,), result),
        double == (IoUringConfig { entries: double.entries, ..config }),
        double.entries == 2 * config.entries,
        call_ensures(IoUringConfig::validate, (double,), doubled),
    ensures
        ({
            let rest = config.reap_size > 0 && (config.poll_interval.secs > 0
                || config.poll_interval.subsec_nanos > 0) && config.max_buffered_completions > 0;
            &&& result is Ok ==> rest && config.entries > 0 && result->Ok_0 == config
            &&& config.entries == 1 && rest ==> result is Ok
            &&& config.entries > 1 && config.entries % 2 == 1 ==> result is Err
            &&& doubled is Ok <==> result is Ok
        }),
        ({
            let power = result is Ok || (result->Err_0 !is ZeroEntries && result->Err_0
                !is EntriesNotPowerOfTwo);
            &&& config.entries == 0 <==> result is Err && result->Err_0 is ZeroEntries
            &&& config.entries > 1 && config.entries % 2 == 1 ==> result->Err_0
                is EntriesNotPowerOfTwo
            &&& power && config.reap_size == 0 ==> result is Err && result->Err_0 is ZeroReapSize
            &&& power && config.reap_size > 0 && config.poll_interval.secs == 0
                && config.poll_interval.subsec_nanos == 0 ==> result is Err && result->Err_0
                is ZeroPollInterval
            &&& result is Err && result->Err_0 is ZeroCompletionBuffer
                ==> config.max_buffered_completions == 0
            &&& result is Err && result->Err_0 is ZeroPollInterval ==> config.poll_interval.secs
                == 0 && config.poll_interval.subsec_nanos == 0
            &&& result is Err && result->Err_0 is ZeroReapSize ==> config.reap_size == 0
        }),
{
    lemma2_to64();
    let n = config.entries as int;
    if n == 1 {
        assert(n == pow2(0));
    }
    if n > 1 && n % 2 == 1 && crate::io_uring::config::is_power_of_two(n) {
        let k = choose|k: nat| n == #[trigger] pow2(k);
        lemma_pow2_unfold(k);
    }
    if crate::io_uring::config::is_power_of_two(n) {
        let k = choose|k: nat| n == #[trigger] pow2(k);
        lemma_pow2_unfold(k + 1);
        assert(2 * n == pow2(k + 1));
    }
    if n > 0 && crate::io_uring::config::is_power_of_two(2 * n) {
        let k = choose|k: nat| 2 * n == #[trigger] pow2(k);
        lemma_pow2_unfold(k);
        assert(n == pow2((k - 1) as nat));
    }
}

/// The standard policy is valid, polls every fifty microseconds, and buffers more
/// than one pass can reap.
pub proof fn lemma_standard_policy_is_valid(
    config: IoUringConfig,
    result: Result<IoUringConfig, InvalidIoUringConfig>,
)
    requires
        call_ensures(<IoUringConfig as Default>::default, (), config),
        call_ensures(IoUringConfig::validate, (config,), result),
    ensures
        result == Ok::<IoUringConfig, InvalidIoUringConfig>(config),
        config.entries == 256 && config.reap_size == 256,
        config.poll_interval.secs == 0 && config.poll_interval.subsec_nanos == 50_000,
        config.max_buffered_completions == 65_536,
{
}

/// A ring is prepared exactly with a valid policy, which it keeps, and works exactly
/// on a kernel that drops no completion and can cancel.
pub proof fn lemma_ring_needs_its_policy_and_features(
    config: IoUringConfig,
    result: Result<IoUringConfig, InvalidIoUringConfig>,
    prepared: Result<PreparedRing, InitError>,
    kept: IoUringConfig,
    nodrop: Result<bool, IoError>,
    created: Result<(), InitError>,
    cancel: Result<bool, IoError>,
    probed: Result<(), InitError>,
)
    requires
        call_ensures(IoUringConfig::validate, (config,), result),
        call_ensures(PreparedRing::new, (config,), prepared),
        prepared is Ok ==> call_ensures(PreparedRing::config, (&prepared->Ok_0,), kept),
        prepared is Ok ==> call_ensures(PreparedRing::created, (&prepared->Ok_0, nodrop), created),
        prepared is Ok ==> call_ensures(PreparedRing::probed, (&prepared->Ok_0, cancel), probed),
    ensures
        prepared is Ok <==> result is Ok,
        prepared is Err ==> prepared->Err_0 == InitError::InvalidIoUringConfig(result->Err_0),
        prepared is Ok ==> {
            &&& kept == config
            &&& created is Ok <==> nodrop == Ok::<bool, IoError>(true)
            &&& probed is Ok <==> cancel == Ok::<bool, IoError>(true)
            &&& nodrop matches Err(error) ==> created == Err::<(), InitError>(
                InitError::IoUring(error),
            )
            &&& cancel matches Err(error) ==> probed == Err::<(), InitError>(
                InitError::IoUring(error),
            )
            &&& nodrop == Ok::<bool, IoError>(false) ==> created->Err_0 is IoUring
                && created->Err_0->IoUring_0 is Simple && created->Err_0->IoUring_0->kind
                == IoErrorKind::Unsupported
            &&& cancel == Ok::<bool, IoError>(false) ==> probed->Err_0 is IoUring
                && probed->Err_0->IoUring_0 is Simple && probed->Err_0->IoUring_0->kind
                == IoErrorKind::Unsupported
        },
{
}

/// Each thing that can be wrong with a policy, or with a submission, is said in
/// words.
pub proof fn lemma_problems_are_said_in_words(
    problem: InvalidIoUringConfig,
    said: &'static str,
    kind: SubmissionErrorKind,
    refusal: &'static str,
    lost: CompletionError,
    loss: &'static str,
    closed: RuntimeClosed,
    closing: &'static str,
)
    requires
        call_ensures(InvalidIoUringConfig::description, (&problem,), said),
        call_ensures(SubmissionErrorKind::description, (&kind,), refusal),
        call_ensures(CompletionError::description, (&lost,), loss),
        call_ensures(RuntimeClosed::description, (&closed,), closing),
    ensures
        problem is ZeroEntries ==> said@ == "io_uring entries must be non-zero"@,
        problem is EntriesNotPowerOfTwo ==> said@ == "io_uring entries must be a power of two"@,
        problem is ZeroReapSize ==> said@ == "io_uring reap size must be non-zero"@,
        problem is ZeroPollInterval ==> said@ == "io_uring poll interval must be non-zero"@,
        problem is ZeroCompletionBuffer ==> said@
            == "io_uring completion buffer limit must be non-zero"@,
        kind is RuntimeClosed ==> refusal@ == "the io_uring runtime is closed"@,
        kind is CompletionBufferOverflow ==> refusal@
            == "completion buffering overflowed during admission"@,
        loss@ == "io_uring completion buffer overflowed; cancellation was requested"@,
        closing@ == "the nOS-V runtime is closed"@,
{
}

/// Each native failure is summed up in words of its own.
pub proof fn lemma_failures_are_summed_up(error: NativeError, summary: &'static str)
    requires
        call_ensures(NativeError::summary, (&error,), summary),
    ensures
        error is InvalidCallback ==> summary@ == "invalid callback"@,
        error is InvalidMetadataSize ==> summary@ == "invalid metadata size"@,
        error is InvalidOperation ==> summary@ == "invalid native operation"@,
        error is InvalidParameter ==> summary@ == "invalid parameter"@,
        error is NotInitialized ==> summary@ == "nOS-V is not initialized"@,
        error is OutOfMemory ==> summary@ == "native allocation failed"@,
        error is OutsideTask ==> summary@ == "operation requires a nOS-v task"@,
        error is Busy ==> summary@ == "native resource is busy"@,
        error is Timeout ==> summary@ == "native operation timed out"@,
        error is Unknown ==> summary@ == "unknown native error"@,
{
}

} // verus!
