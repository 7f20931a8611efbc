//! Error numbers of the Linux system interface.
use vstd::prelude::*;

verus! {

/// `libc::EINTR`, which is 4 on Linux.
#[verifier::external_body]
pub(crate) fn eintr() -> (errno: i32)
    ensures
        errno == 4,
{
    libc::EINTR
}

/// `libc::EAGAIN`, which is 11 on Linux.
#[verifier::external_body]
pub(crate) fn eagain() -> (errno: i32)
    ensures
        errno == 11,
{
    libc::EAGAIN
}

/// `libc::EBUSY`, which is 16 on Linux.
#[verifier::external_body]
pub(crate) fn ebusy() -> (errno: i32)
    ensures
        errno == 16,
{
    libc::EBUSY
}

/// A submission that failed this way may succeed in a later pass.
pub open spec fn retryable(errno: Option<i32>) -> bool {
    errno == Some(4i32) || errno == Some(11i32) || errno == Some(16i32)
}

/// Classifies transient ring-submission errors that a later pass may resolve.
///
/// `errno` is the raw operating-system error, if the failure carries one.
pub fn is_retryable(errno: Option<i32>) -> (transient: bool)
    ensures
        transient == retryable(errno),
{
    match errno {
        Some(number) => number == eintr() || number == eagain() || number == ebusy(),
        None => false,
    }
}

} // verus!
