//! A storage-backend-agnostic file I/O abstraction.
//!
//! The crate defines a unified error taxonomy, path validation, the
//! decision logic that translates backend replies into the unified
//! contract, a write-session state machine, and a specification-level
//! model of what the file operations mean on any backend.

pub mod adapter;
pub mod error;
pub mod fs;
pub mod model;
pub mod opendal_fs;
pub mod path;

pub use adapter::BackendError;
pub use adapter::backend_failure;
pub use adapter::NoNativeLock;
pub use adapter::file_exists_result;
pub use adapter::found_result;
pub use adapter::lock_file_unsupported;
pub use adapter::unit_op_result;
pub use adapter::unlock_file_released;
pub use error::FileSystemError;
pub use error::IoResult;
pub use fs::FileLock;
pub use fs::WriteSession;
pub use opendal_fs::OpendalFileSystem;
pub use path::validate_path;
