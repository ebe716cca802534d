//! The closed taxonomy of failures that every operation of the
//! abstraction reports. Backend-specific failures are carried as their
//! human-readable message; nothing in this crate panics on a backend
//! error.

use vstd::prelude::*;

verus! {

/// Every fallible operation of the abstraction returns one of these
/// kinds, each carrying a human-readable detail string.
#[derive(Debug, Clone)]
pub enum FileSystemError {
    /// A local I/O failure (disk error, permission denial, ...).
    IoError(String),
    /// A failure reported by the storage operator that is not
    /// otherwise classified (network, authentication, malformed reply).
    OpendalError(String),
    /// The target path does not exist where existence was required.
    FileNotFound(String),
    /// The path could not be translated into the backend's addressing
    /// scheme.
    InvalidPath(String),
    /// The operation has no meaningful implementation on this backend.
    NotSupported(String),
}

pub type IoResult<T> = Result<T, FileSystemError>;

impl FileSystemError {
    /// The detail string the error carries.
    pub fn message(&self) -> (m: &String)
        ensures
            m@ == self.spec_message(),
    {
        match self {
            FileSystemError::IoError(m) => m,
            FileSystemError::OpendalError(m) => m,
            FileSystemError::FileNotFound(m) => m,
            FileSystemError::InvalidPath(m) => m,
            FileSystemError::NotSupported(m) => m,
        }
    }

    pub open spec fn spec_message(&self) -> Seq<char> {
        match self {
            FileSystemError::IoError(m) => m@,
            FileSystemError::OpendalError(m) => m@,
            FileSystemError::FileNotFound(m) => m@,
            FileSystemError::InvalidPath(m) => m@,
            FileSystemError::NotSupported(m) => m@,
        }
    }
}

} // verus!
