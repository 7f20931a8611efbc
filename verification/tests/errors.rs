//! Status codes and error texts.
use nosv::error::{
    BlockOnError, InitError, JoinError, NativeError, RuntimeClosed, ShutdownError, SpawnError,
    StatusCodes,
};
use nosv::io::IoError;

fn codes() -> StatusCodes {
    StatusCodes {
        success: 0,
        invalid_callback: -1,
        invalid_metadata_size: -2,
        invalid_operation: -3,
        invalid_parameter: -4,
        not_initialized: -5,
        out_of_memory: -6,
        outside_task: -7,
        busy: -8,
        timeout: -9,
    }
}

#[test]
fn status_codes_round_trip() {
    let codes = codes();
    assert_eq!(NativeError::from_code(&codes, 0), Ok(()));
    let errors = [
        NativeError::InvalidCallback,
        NativeError::InvalidMetadataSize,
        NativeError::InvalidOperation,
        NativeError::InvalidParameter,
        NativeError::NotInitialized,
        NativeError::OutOfMemory,
        NativeError::OutsideTask,
        NativeError::Busy,
        NativeError::Timeout,
        NativeError::Unknown(-99),
        NativeError::Unknown(5),
    ];
    for (position, error) in errors.iter().enumerate() {
        let code = error.code(&codes);
        if position < 9 {
            assert_eq!(code, -1 - position as i32);
        }
        assert_eq!(NativeError::from_code(&codes, code), Err(*error));
    }
}

#[test]
fn native_errors_are_described() {
    let codes = codes();
    assert_eq!(
        NativeError::InvalidParameter.describe(&codes),
        "invalid parameter (code -4)"
    );
    assert_eq!(
        NativeError::Unknown(i32::MIN).describe(&codes),
        "unknown native error (code -2147483648)"
    );
    assert_eq!(NativeError::Unknown(120).describe(&codes), "unknown native error (code 120)");
    assert_eq!(IoError::Os(-7).describe(), "os error -7");
    assert_eq!(IoError::Os(0).describe(), "os error 0");
}

#[test]
fn wrapped_errors_keep_their_source() {
    let native = NativeError::Busy;
    assert_eq!(SpawnError::Native(native).source(), Some(native));
    assert_eq!(SpawnError::RuntimeClosed.source(), None);
    assert_eq!(SpawnError::from(RuntimeClosed), SpawnError::RuntimeClosed);
    assert_eq!(BlockOnError::from(RuntimeClosed), BlockOnError::RuntimeClosed);
    assert_eq!(InitError::from(native), InitError::Native(native));
    assert_eq!(InitError::from(native).source(), Some(native));
    assert_eq!(InitError::AlreadyInTask.source(), None);
}

#[test]
fn failures_are_described() {
    let codes = codes();
    let busy = NativeError::Busy.describe(&codes);
    assert_eq!(RuntimeClosed.description(), "the nOS-V runtime is closed");
    assert_eq!(SpawnError::RuntimeClosed.describe(&codes), "the nOS-V runtime is closed");
    assert_eq!(
        BlockOnError::WrongThread.describe(&codes),
        "block_on must run on the runtime owner thread"
    );
    assert_eq!(
        ShutdownError::WrongThread.describe(&codes),
        "runtime shutdown must run on its owner thread"
    );
    assert!(SpawnError::Native(NativeError::Busy).describe(&codes).ends_with(&busy));
    assert_eq!(JoinError::<u8>::Cancelled.describe(&codes), "task was cancelled");
    assert_eq!(JoinError::Panic(1u8).describe(&codes), "task panicked");
}

#[test]
fn join_errors_distinguish_their_cause() {
    assert!(JoinError::<u8>::Cancelled.is_cancelled());
    assert!(!JoinError::<u8>::Cancelled.is_panic());
    assert!(JoinError::Panic(4u8).is_panic());
    assert_eq!(JoinError::Panic(4u8).into_panic(), Some(4));
    assert_eq!(JoinError::<u8>::Cancelled.into_panic(), None);
    assert_eq!(JoinError::<u8>::Runtime(NativeError::Busy).into_panic(), None);
}
