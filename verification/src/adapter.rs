//! The decision core of a backend adapter.
//!
//! An adapter dispatches each operation to its storage operator and
//! then translates the operator's reply into the unified contract.
//! The dispatch itself is asynchronous backend I/O and lives outside
//! this crate; every decision about a reply is made here, on plain
//! values, and is verified.

use vstd::prelude::*;

use crate::error::FileSystemError;
use crate::error::IoResult;
use crate::fs::FileLock;

verus! {

/// What an adapter reads of a storage operator's error: whether the
/// operator classified it as "not found", and the message it carried.
#[derive(Debug, Clone)]
pub enum BackendError {
    /// The operator reported that the target does not exist.
    NotFound(String),
    /// Any other operator failure (network, authentication, ...).
    Other(String),
}

/// How an operator error surfaces when the operation gives "not
/// found" no special meaning: a backend failure carrying the original
/// message, whatever the operator's classification was.
pub open spec fn spec_backend_failure(e: BackendError) -> FileSystemError {
    match e {
        BackendError::NotFound(m) => FileSystemError::OpendalError(m),
        BackendError::Other(m) => FileSystemError::OpendalError(m),
    }
}

/// Wraps an operator error as a backend failure carrying the original
/// message — never swallowed, never a panic.
pub fn backend_failure(e: BackendError) -> (out: FileSystemError)
    ensures
        out == spec_backend_failure(e),
{
    match e {
        BackendError::NotFound(m) => FileSystemError::OpendalError(m),
        BackendError::Other(m) => FileSystemError::OpendalError(m),
    }
}

/// The reply translation of an operation in which "not found" has no
/// special meaning: success passes through, every operator error is a
/// backend failure.
pub open spec fn spec_unit_result(r: Result<(), BackendError>) -> IoResult<()> {
    match r {
        Ok(u) => Ok(u),
        Err(e) => Err(spec_backend_failure(e)),
    }
}

/// Completes create-dir, delete-dir, delete-file, rename-file and the
/// write and close calls of a write session: the operator's success is
/// the operation's success, and any operator error propagates as a
/// backend failure — never swallowed, never a panic.
pub fn unit_op_result(r: Result<(), BackendError>) -> (out: IoResult<()>)
    ensures
        out == spec_unit_result(r),
{
    match r {
        Ok(u) => Ok(u),
        Err(e) => Err(backend_failure(e)),
    }
}

/// How a reply surfaces when the operation requires the target to
/// exist: an operator "not found" becomes `FileNotFound`, any other
/// operator error a backend failure, both with the original message.
pub open spec fn spec_found_result<T>(r: Result<T, BackendError>) -> IoResult<T> {
    match r {
        Ok(v) => Ok(v),
        Err(BackendError::NotFound(m)) => Err(FileSystemError::FileNotFound(m)),
        Err(BackendError::Other(m)) => Err(FileSystemError::OpendalError(m)),
    }
}

/// Completes open-for-read, get-size and a range read: the value the
/// operator produced passes through unchanged, an operator "not found"
/// is reported as `FileNotFound`, and every other operator error as a
/// backend failure.
pub fn found_result<T>(r: Result<T, BackendError>) -> (out: IoResult<T>)
    ensures
        out == spec_found_result(r),
{
    match r {
        Ok(v) => Ok(v),
        Err(BackendError::NotFound(m)) => Err(FileSystemError::FileNotFound(m)),
        Err(BackendError::Other(m)) => Err(FileSystemError::OpendalError(m)),
    }
}

/// How an existence reply surfaces: the operator's boolean passes
/// through, an operator "not found" resolves to `false` rather than an
/// error, and only other operator errors propagate.
pub open spec fn spec_exists_result(r: Result<bool, BackendError>) -> IoResult<bool> {
    match r {
        Ok(b) => Ok(b),
        Err(BackendError::NotFound(m)) => Ok(false),
        Err(BackendError::Other(m)) => Err(FileSystemError::OpendalError(m)),
    }
}

/// Completes file-exists: a backend-reported "not found" condition
/// resolves to `Ok(false)`, never to a propagated error.
pub fn file_exists_result(r: Result<bool, BackendError>) -> (out: IoResult<bool>)
    ensures
        out == spec_exists_result(r),
{
    match r {
        Ok(b) => Ok(b),
        Err(BackendError::NotFound(m)) => Ok(false),
        Err(BackendError::Other(m)) => Err(FileSystemError::OpendalError(m)),
    }
}

/// The lock token type of a backend with no native exclusive-lock
/// primitive. No value of it is ever issued: such a backend refuses to
/// lock rather than pretend.
#[derive(Debug, Clone)]
pub struct NoNativeLock {}

impl FileLock for NoNativeLock {

}

/// lock-file on a backend without a native exclusive-lock primitive:
/// unconditionally refused with `NotSupported`; a fabricated lock with
/// no real mutual exclusion would mislead callers.
pub fn lock_file_unsupported() -> (r: IoResult<NoNativeLock>)
    ensures
        r is Err,
        r matches Err(e) && e is NotSupported && e.spec_message() == "not supported"@,
{
    Err(FileSystemError::NotSupported("not supported".to_owned()))
}

/// unlock-file consumes the token and always succeeds: on a backend
/// that never issues a lock, no lock was ever truly held, so there is
/// nothing that could fail to be released.
pub fn unlock_file_released<L: FileLock>(lock: L) -> (r: IoResult<()>)
    ensures
        r is Ok,
{
    Ok(())
}

} // verus!
