//! The opendal-backed file system object.
//!
//! An instance is constructed once for a backend — a local filesystem
//! root or an S3-compatible object store — and holds the one
//! long-lived operator that every operation dispatches through. The
//! asynchronous dispatch itself cannot stand in this crate; the
//! construction does, and the operator is carried opaquely.

use vstd::prelude::*;

use crate::error::FileSystemError;
use crate::error::IoResult;

verus! {

/// opendal's multi-protocol storage operator, carried opaquely.
#[verifier::external_type_specification]
#[verifier::external_body]
pub struct ExOperator(opendal::Operator);

/// Relies on opendal's derived `Operator::clone`, which clones the
/// operator's shared handles; nothing is assumed of the result.
pub assume_specification[ <opendal::Operator as Clone>::clone ](
    op: &opendal::Operator,
) -> opendal::Operator;

/// A file system over one opendal operator, chosen at construction.
/// The instance is stateless with respect to individual files: it
/// only wraps the operator.
#[derive(Clone)]
pub struct OpendalFileSystem {
    operator: opendal::Operator,
}

impl OpendalFileSystem {
    /// The operator this instance was constructed over.
    pub closed spec fn spec_operator(&self) -> opendal::Operator {
        self.operator
    }

    /// Relies on opendal's `Fs` service builder and `Operator::new`:
    /// configures a local-filesystem backend rooted at `path`, so that
    /// every path handed to this instance is interpreted relative to
    /// that root. A configuration error comes back as a backend
    /// failure carrying opendal's message.
    #[verifier::external_body]
    pub fn new_local_fs(path: &str) -> (r: Result<Self, FileSystemError>) {
        let builder = opendal::services::Fs::default().root(path);
        match opendal::Operator::new(builder) {
            Ok(op) => Ok(Self { operator: op }),
            Err(e) => Err(FileSystemError::OpendalError(e.to_string())),
        }
    }

    /// Relies on opendal's `S3` service builder and `Operator::new`:
    /// configures an S3-compatible backend under the given root prefix
    /// for the given bucket, endpoint and credentials, with
    /// virtual-host addressing. A configuration error comes back as a
    /// backend failure carrying opendal's message.
    #[verifier::external_body]
    pub fn new_s3(
        path: &str,
        bucket: &str,
        endpoint: &str,
        access_key_id: &str,
        secret_access_key: &str,
    ) -> (r: IoResult<Self>) {
        let builder = opendal::services::S3::default()
            .root(path)
            .bucket(bucket)
            .endpoint(endpoint)
            .region("auto")
            .access_key_id(access_key_id)
            .secret_access_key(secret_access_key)
            .enable_virtual_host_style();
        match opendal::Operator::new(builder) {
            Ok(op) => Ok(Self { operator: op }),
            Err(e) => Err(FileSystemError::OpendalError(e.to_string())),
        }
    }

    /// Wraps a pre-built operator directly: the escape hatch for a
    /// caller that configured opendal itself.
    pub fn from_operator(operator: opendal::Operator) -> (r: Self)
        ensures
            r.spec_operator() == operator,
    {
        OpendalFileSystem { operator }
    }

    /// The operator every operation of this instance dispatches
    /// through.
    pub fn operator(&self) -> (op: &opendal::Operator)
        ensures
            *op == self.spec_operator(),
    {
        &self.operator
    }
}

} // verus!
