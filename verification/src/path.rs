//! Path validation.
//!
//! A path is an opaque byte-oriented identifier; it may only be handed
//! to a backend if it is representable as valid text in the backend's
//! encoding. The reference backends address objects by UTF-8 strings,
//! so representability is UTF-8 validity of the path's bytes, and a
//! path that is not valid UTF-8 is rejected with `InvalidPath` before
//! any backend call is issued.

use vstd::prelude::*;

use crate::error::FileSystemError;
use crate::error::IoResult;

verus! {

/// A UTF-8 continuation byte: `10xxxxxx`.
pub open spec fn is_cont_byte(b: u8) -> bool {
    0x80 <= b && b < 0xC0
}

/// UTF-8 validity of a byte sequence, scalar by scalar from the front:
/// one ASCII byte, or a lead byte followed by the right number of
/// continuation bytes, with overlong encodings, surrogate code points
/// and values above U+10FFFF excluded.
pub open spec fn valid_utf8(s: Seq<u8>) -> bool
    decreases s.len(),
{
    if s.len() == 0 {
        true
    } else {
        let b0 = s[0];
        if b0 < 0x80 {
            valid_utf8(s.skip(1))
        } else if 0xC2 <= b0 && b0 <= 0xDF {
            &&& s.len() >= 2
            &&& is_cont_byte(s[1])
            &&& valid_utf8(s.skip(2))
        } else if b0 == 0xE0 {
            &&& s.len() >= 3
            &&& 0xA0 <= s[1] && s[1] < 0xC0
            &&& is_cont_byte(s[2])
            &&& valid_utf8(s.skip(3))
        } else if (0xE1 <= b0 && b0 <= 0xEC) || b0 == 0xEE || b0 == 0xEF {
            &&& s.len() >= 3
            &&& is_cont_byte(s[1])
            &&& is_cont_byte(s[2])
            &&& valid_utf8(s.skip(3))
        } else if b0 == 0xED {
            &&& s.len() >= 3
            &&& 0x80 <= s[1] && s[1] < 0xA0
            &&& is_cont_byte(s[2])
            &&& valid_utf8(s.skip(3))
        } else if b0 == 0xF0 {
            &&& s.len() >= 4
            &&& 0x90 <= s[1] && s[1] < 0xC0
            &&& is_cont_byte(s[2])
            &&& is_cont_byte(s[3])
            &&& valid_utf8(s.skip(4))
        } else if 0xF1 <= b0 && b0 <= 0xF3 {
            &&& s.len() >= 4
            &&& is_cont_byte(s[1])
            &&& is_cont_byte(s[2])
            &&& is_cont_byte(s[3])
            &&& valid_utf8(s.skip(4))
        } else if b0 == 0xF4 {
            &&& s.len() >= 4
            &&& 0x80 <= s[1] && s[1] < 0x90
            &&& is_cont_byte(s[2])
            &&& is_cont_byte(s[3])
            &&& valid_utf8(s.skip(4))
        } else {
            false
        }
    }
}

/// A path's bytes are representable on the reference backends exactly
/// when they are valid UTF-8.
pub open spec fn representable_path(bytes: Seq<u8>) -> bool {
    valid_utf8(bytes)
}

proof fn lemma_skip_skip(s: Seq<u8>, a: int, b: int)
    requires
        0 <= a,
        0 <= b,
        a + b <= s.len(),
    ensures
        s.skip(a).skip(b) == s.skip(a + b),
{
    assert(s.skip(a).skip(b) =~= s.skip(a + b));
}

/// Decides UTF-8 validity of `bytes`.
pub fn check_utf8(bytes: &[u8]) -> (r: bool)
    ensures
        r == valid_utf8(bytes@),
{
    let n = bytes.len();
    let mut i: usize = 0;
    proof {
        assert(bytes@.skip(0) =~= bytes@);
    }
    while i < n
        invariant
            i <= n,
            n == bytes@.len(),
            valid_utf8(bytes@) == valid_utf8(bytes@.skip(i as int)),
        decreases n - i,
    {
        let ghost tail = bytes@.skip(i as int);
        proof {
            assert(tail.len() == n - i);
            assert(tail[0] == bytes@[i as int]);
        }
        let b0 = bytes[i];
        if b0 < 0x80 {
            proof {
                lemma_skip_skip(bytes@, i as int, 1);
            }
            i = i + 1;
        } else if 0xC2 <= b0 && b0 <= 0xDF {
            if n - i < 2 || !cont_byte(bytes[i + 1]) {
                proof {
                    assert(!valid_utf8(tail));
                }
                return false;
            }
            proof {
                assert(tail[1] == bytes@[i + 1]);
                lemma_skip_skip(bytes@, i as int, 2);
            }
            i = i + 2;
        } else if b0 == 0xE0 {
            if n - i < 3 || !(0xA0 <= bytes[i + 1] && bytes[i + 1] < 0xC0) || !cont_byte(
                bytes[i + 2],
            ) {
                proof {
                    assert(!valid_utf8(tail));
                }
                return false;
            }
            proof {
                assert(tail[1] == bytes@[i + 1]);
                assert(tail[2] == bytes@[i + 2]);
                lemma_skip_skip(bytes@, i as int, 3);
            }
            i = i + 3;
        } else if (0xE1 <= b0 && b0 <= 0xEC) || b0 == 0xEE || b0 == 0xEF {
            if n - i < 3 || !cont_byte(bytes[i + 1]) || !cont_byte(bytes[i + 2]) {
                proof {
                    assert(!valid_utf8(tail));
                }
                return false;
            }
            proof {
                assert(tail[1] == bytes@[i + 1]);
                assert(tail[2] == bytes@[i + 2]);
                lemma_skip_skip(bytes@, i as int, 3);
            }
            i = i + 3;
        } else if b0 == 0xED {
            if n - i < 3 || !(0x80 <= bytes[i + 1] && bytes[i + 1] < 0xA0) || !cont_byte(
                bytes[i + 2],
            ) {
                proof {
                    assert(!valid_utf8(tail));
                }
                return false;
            }
            proof {
                assert(tail[1] == bytes@[i + 1]);
                assert(tail[2] == bytes@[i + 2]);
                lemma_skip_skip(bytes@, i as int, 3);
            }
            i = i + 3;
        } else if b0 == 0xF0 {
            if n - i < 4 || !(0x90 <= bytes[i + 1] && bytes[i + 1] < 0xC0) || !cont_byte(
                bytes[i + 2],
            ) || !cont_byte(bytes[i + 3]) {
                proof {
                    assert(!valid_utf8(tail));
                }
                return false;
            }
            proof {
                assert(tail[1] == bytes@[i + 1]);
                assert(tail[2] == bytes@[i + 2]);
                assert(tail[3] == bytes@[i + 3]);
                lemma_skip_skip(bytes@, i as int, 4);
            }
            i = i + 4;
        } else if 0xF1 <= b0 && b0 <= 0xF3 {
            if n - i < 4 || !cont_byte(bytes[i + 1]) || !cont_byte(bytes[i + 2]) || !cont_byte(
                bytes[i + 3],
            ) {
                proof {
                    assert(!valid_utf8(tail));
                }
                return false;
            }
            proof {
                assert(tail[1] == bytes@[i + 1]);
                assert(tail[2] == bytes@[i + 2]);
                assert(tail[3] == bytes@[i + 3]);
                lemma_skip_skip(bytes@, i as int, 4);
            }
            i = i + 4;
        } else if b0 == 0xF4 {
            if n - i < 4 || !(0x80 <= bytes[i + 1] && bytes[i + 1] < 0x90) || !cont_byte(
                bytes[i + 2],
            ) || !cont_byte(bytes[i + 3]) {
                proof {
                    assert(!valid_utf8(tail));
                }
                return false;
            }
            proof {
                assert(tail[1] == bytes@[i + 1]);
                assert(tail[2] == bytes@[i + 2]);
                assert(tail[3] == bytes@[i + 3]);
                lemma_skip_skip(bytes@, i as int, 4);
            }
            i = i + 4;
        } else {
            proof {
                assert(!valid_utf8(tail));
            }
            return false;
        }
    }
    proof {
        assert(bytes@.skip(n as int) =~= Seq::<u8>::empty());
    }
    true
}

/// Decides whether one byte is a UTF-8 continuation byte.
fn cont_byte(b: u8) -> (r: bool)
    ensures
        r == is_cont_byte(b),
{
    0x80 <= b && b < 0xC0
}

/// Accepts a path exactly when its bytes are representable on the
/// backend; a path that is not is rejected with `InvalidPath`, and no
/// backend call may be issued for it.
pub fn validate_path(bytes: &[u8]) -> (r: IoResult<()>)
    ensures
        r is Ok <==> representable_path(bytes@),
        r is Err ==> (r matches Err(e) && e is InvalidPath && e.spec_message()
            == "invalid utf-8 in path"@),
{
    if check_utf8(bytes) {
        Ok(())
    } else {
        Err(FileSystemError::InvalidPath("invalid utf-8 in path".to_owned()))
    }
}

} // verus!
