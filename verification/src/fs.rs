//! The file-handle abstractions of the contract.
//!
//! `FileLock` is the opaque advisory-lock capability marker. A read
//! session is range-addressed: `range_of` says exactly which bytes a
//! read of a half-open range must return. `WriteSession` is the
//! state machine of one append-only write session: it decides, for
//! every write and close request, whether the request is admissible
//! and what the session's logical content becomes; the backend call
//! that persists the bytes is issued by the caller only on an
//! admissible request.

use vstd::prelude::*;

use crate::error::FileSystemError;
use crate::error::IoResult;

verus! {

/// An opaque capability token for an exclusively held advisory lock on
/// a path. A token is valid only for the instance that issued it.
pub trait FileLock {

}

/// The bytes a read of the half-open range `[start, end)` must return
/// from a file whose content is `content`: exactly that span, never
/// padded.
pub open spec fn range_of(content: Seq<u8>, start: int, end: int) -> Seq<u8> {
    content.subrange(start, end)
}

/// One open append-only write session.
///
/// The session tracks whether it has been finalized and, as its
/// logical content, the concatenation of every slice accepted so far,
/// in call order — the abstraction does not reorder or coalesce
/// writes. Writing after a successful close is a contract violation
/// and is refused with `NotSupported` before any backend call.
pub struct WriteSession {
    /// Whether the session has been finalized.
    pub closed: bool,
    /// How many bytes the session has accepted.
    pub len: u64,
    /// The logical content: every accepted slice, in call order.
    pub content: Ghost<Seq<u8>>,
}

impl WriteSession {
    /// The byte count agrees with the logical content.
    pub open spec fn wf(&self) -> bool {
        self.len == self.content@.len()
    }

    /// Opens a write session: not finalized, nothing written.
    pub fn new() -> (s: Self)
        ensures
            s.wf(),
            !s.closed,
            s.content@ == Seq::<u8>::empty(),
            s.len == 0,
    {
        WriteSession { closed: false, len: 0, content: Ghost(Seq::empty()) }
    }

    /// Decides one write request: on an open session the data is
    /// appended to the logical content, in call order; on a finalized
    /// session the request is a contract violation, refused with
    /// `NotSupported`, and the session is unchanged.
    pub fn write(&mut self, data: &[u8]) -> (r: IoResult<()>)
        requires
            old(self).wf(),
            old(self).content@.len() + data@.len() <= u64::MAX,
        ensures
            final(self).wf(),
            old(self).closed ==> {
                &&& r matches Err(e) && e is NotSupported
                &&& *final(self) == *old(self)
            },
            !old(self).closed ==> {
                &&& r is Ok
                &&& !final(self).closed
                &&& final(self).content@ == old(self).content@ + data@
                &&& final(self).len == old(self).len + data@.len()
            },
    {
        if self.closed {
            Err(FileSystemError::NotSupported("write after close".to_owned()))
        } else {
            self.len = self.len + data.len() as u64;
            proof {
                self.content@ = self.content@ + data@;
            }
            Ok(())
        }
    }

    /// Decides one close request: an open session is finalized with
    /// its content unchanged — only after this does the caller's
    /// backend finalize call make the content durably visible; a
    /// session already finalized is a contract violation, refused with
    /// `NotSupported`, and the session is unchanged.
    pub fn close(&mut self) -> (r: IoResult<()>)
        requires
            old(self).wf(),
        ensures
            final(self).wf(),
            old(self).closed ==> {
                &&& r matches Err(e) && e is NotSupported
                &&& *final(self) == *old(self)
            },
            !old(self).closed ==> {
                &&& r is Ok
                &&& final(self).closed
                &&& final(self).content@ == old(self).content@
                &&& final(self).len == old(self).len
            },
    {
        if self.closed {
            Err(FileSystemError::NotSupported("close after close".to_owned()))
        } else {
            self.closed = true;
            Ok(())
        }
    }

    /// How many bytes the session has accepted so far.
    pub fn bytes_written(&self) -> (n: u64)
        ensures
            n == self.len,
    {
        self.len
    }
}

} // verus!
