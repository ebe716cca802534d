//! A specification-level model of what the operations mean on any
//! backend.
//!
//! A backend is modelled as the map from each present path to the
//! byte content stored under it, together with the set of directory
//! paths that have been created. The operations' meanings are spec
//! functions over that state, and the laws of the contract — what a
//! missing path looks like, the write/read round trip, idempotent
//! directory creation, what a rename leaves behind — are proved of
//! them, composed with the reply translations of `crate::adapter`.

use vstd::prelude::*;

use crate::adapter::BackendError;
use crate::adapter::spec_exists_result;
use crate::adapter::spec_found_result;
use crate::error::FileSystemError;
use crate::fs::range_of;

verus! {

/// The observable state of one backend: the content stored under each
/// present path, and the directories created so far.
#[verifier::ext_equal]
pub struct BackendState {
    pub files: Map<Seq<u8>, Seq<u8>>,
    pub dirs: Set<Seq<u8>>,
}

/// Whether a file is present at `p`.
pub open spec fn file_present(m: BackendState, p: Seq<u8>) -> bool {
    m.files.dom().contains(p)
}

/// The state after a write session on `p` holding content `b` is
/// closed: the content becomes durably visible under `p`, replacing
/// whatever was there.
pub open spec fn op_write(m: BackendState, p: Seq<u8>, b: Seq<u8>) -> BackendState {
    BackendState { files: m.files.insert(p, b), dirs: m.dirs }
}

/// The state after delete-file on `p`: the object is gone; deleting an
/// absent path leaves the state as it was and is not an error.
pub open spec fn op_delete_file(m: BackendState, p: Seq<u8>) -> BackendState {
    BackendState { files: m.files.remove(p), dirs: m.dirs }
}

/// The state after create-dir on `p`.
pub open spec fn op_create_dir(m: BackendState, p: Seq<u8>) -> BackendState {
    BackendState { files: m.files, dirs: m.dirs.insert(p) }
}

/// The state after a successful rename-file from `src` to `dst`: the
/// content moves, atomically where the backend supports it.
pub open spec fn op_rename(m: BackendState, src: Seq<u8>, dst: Seq<u8>) -> BackendState {
    BackendState { files: m.files.remove(src).insert(dst, m.files[src]), dirs: m.dirs }
}

/// A faithful existence reply for `p`: the operator either answers
/// with the truth, or reports "not found" — and only for an absent
/// path; a transport failure may always come instead.
pub open spec fn reports_presence(
    m: BackendState,
    p: Seq<u8>,
    r: Result<bool, BackendError>,
) -> bool {
    match r {
        Ok(b) => b == file_present(m, p),
        Err(e) => e is Other || !file_present(m, p),
    }
}

/// A faithful size reply for `p`: a size is the stored content's
/// length and only for a present path, "not found" is reported only
/// for an absent one; a transport failure may always come instead.
pub open spec fn reports_size(m: BackendState, p: Seq<u8>, r: Result<u64, BackendError>) -> bool {
    match r {
        Ok(n) => file_present(m, p) && n == m.files[p].len(),
        Err(e) => e is Other || !file_present(m, p),
    }
}

/// A path absent from the backend is never an error for file-exists
/// and always one for get-size: whichever faithful reply the operator
/// gives short of a transport failure, file-exists resolves to
/// `Ok(false)`, and get-size fails with `FileNotFound`.
pub proof fn lemma_missing_path(
    m: BackendState,
    p: Seq<u8>,
    re: Result<bool, BackendError>,
    rs: Result<u64, BackendError>,
)
    requires
        !file_present(m, p),
        reports_presence(m, p, re),
        !(re matches Err(e) && e is Other),
        reports_size(m, p, rs),
        !(rs matches Err(e) && e is Other),
    ensures
        spec_exists_result(re) == Result::<bool, FileSystemError>::Ok(false),
        spec_found_result(rs) matches Err(e) && e is FileNotFound,
{
}

/// A path present on the backend: a faithful reply short of a
/// transport failure makes file-exists resolve to `Ok(true)` and
/// get-size return the stored content's length.
pub proof fn lemma_present_path(
    m: BackendState,
    p: Seq<u8>,
    re: Result<bool, BackendError>,
    rs: Result<u64, BackendError>,
)
    requires
        file_present(m, p),
        reports_presence(m, p, re),
        !(re matches Err(e) && e is Other),
        reports_size(m, p, rs),
        !(rs matches Err(e) && e is Other),
    ensures
        spec_exists_result(re) == Result::<bool, FileSystemError>::Ok(true),
        spec_found_result(rs) == Result::<u64, FileSystemError>::Ok((m.files[p].len() as u64)),
{
}

/// Round trip: after bytes `b` are written to `p` and the session is
/// closed, `p` is present, its stored content is exactly `b`, and a
/// read of the full range `[0, len(b))` returns exactly `b`.
pub proof fn lemma_write_read_round_trip(m: BackendState, p: Seq<u8>, b: Seq<u8>)
    ensures
        file_present(op_write(m, p, b), p),
        op_write(m, p, b).files[p] == b,
        range_of(op_write(m, p, b).files[p], 0, b.len() as int) == b,
{
    assert(range_of(b, 0, b.len() as int) =~= b);
}

/// Idempotence of create-dir: creating a directory that is already
/// present succeeds and changes nothing — two calls in succession
/// leave exactly the state one call leaves.
pub proof fn lemma_create_dir_idempotent(m: BackendState, p: Seq<u8>)
    ensures
        op_create_dir(op_create_dir(m, p), p) == op_create_dir(m, p),
{
    assert(op_create_dir(op_create_dir(m, p), p) =~= op_create_dir(m, p));
}

/// Rename: after rename-file from `src` to a distinct `dst` succeeds,
/// `src` is no longer present, `dst` is, and the content stored under
/// `dst` is exactly what was stored under `src`.
pub proof fn lemma_rename_moves_content(m: BackendState, src: Seq<u8>, dst: Seq<u8>)
    requires
        file_present(m, src),
        src != dst,
    ensures
        !file_present(op_rename(m, src, dst), src),
        file_present(op_rename(m, src, dst), dst),
        op_rename(m, src, dst).files[dst] == m.files[src],
{
}

/// Deleting a file removes it: after delete-file on `p`, `p` is not
/// present, and no other path's content changed.
pub proof fn lemma_delete_removes(m: BackendState, p: Seq<u8>, q: Seq<u8>)
    requires
        p != q,
    ensures
        !file_present(op_delete_file(m, p), p),
        file_present(op_delete_file(m, p), q) == file_present(m, q),
        file_present(m, q) ==> op_delete_file(m, p).files[q] == m.files[q],
{
}

} // verus!
