//! Tests of the decision core: path validation, reply translation,
//! the write-session state machine, and the lock policy.

use storage_fs::BackendError;
use storage_fs::FileSystemError;
use storage_fs::NoNativeLock;
use storage_fs::WriteSession;
use storage_fs::file_exists_result;
use storage_fs::found_result;
use storage_fs::lock_file_unsupported;
use storage_fs::path::check_utf8;
use storage_fs::unit_op_result;
use storage_fs::unlock_file_released;
use storage_fs::validate_path;

#[test]
fn utf8_accepts_what_std_accepts() {
    let cases: Vec<&[u8]> = vec![
        b"",
        b"a/b.txt",
        b"hello world",
        &[0xC3, 0xA9],                   // e with acute accent
        &[0xE2, 0x82, 0xAC],             // euro sign
        &[0xF0, 0x9F, 0x98, 0x80],       // an emoji, four bytes
        &[0xED, 0x9F, 0xBF],             // U+D7FF, just below the surrogates
        &[0xEE, 0x80, 0x80],             // U+E000, just above the surrogates
        &[0xF4, 0x8F, 0xBF, 0xBF],       // U+10FFFF, the largest scalar
        &[0xFF],                         // not a UTF-8 byte at all
        &[0x80],                         // lone continuation byte
        &[0xC3],                         // truncated two-byte sequence
        &[0xC0, 0x80],                   // overlong encoding of NUL
        &[0xC1, 0xBF],                   // overlong two-byte encoding
        &[0xE0, 0x80, 0x80],             // overlong three-byte encoding
        &[0xED, 0xA0, 0x80],             // U+D800, a surrogate
        &[0xF0, 0x80, 0x80, 0x80],       // overlong four-byte encoding
        &[0xF4, 0x90, 0x80, 0x80],       // just above U+10FFFF
        &[0xF5, 0x80, 0x80, 0x80],       // lead byte above the last valid one
        &[0x61, 0xC3, 0xA9, 0x62],       // valid bytes around a two-byte scalar
        &[0x61, 0xE2, 0x82],             // truncated in the middle of a path
    ];
    for bytes in cases {
        assert_eq!(
            check_utf8(bytes),
            std::str::from_utf8(bytes).is_ok(),
            "disagreement on {:?}",
            bytes
        );
    }
}

#[test]
fn valid_path_is_accepted() {
    assert!(validate_path(b"a/b.txt").is_ok());
    assert!(validate_path("café/menu.txt".as_bytes()).is_ok());
    assert!(validate_path(b"").is_ok());
}

#[test]
fn invalid_path_is_rejected_with_invalid_path() {
    let r = validate_path(&[0x62, 0x61, 0x64, 0xFF]);
    match r {
        Err(FileSystemError::InvalidPath(m)) => assert_eq!(m, "invalid utf-8 in path"),
        other => panic!("expected InvalidPath, got {:?}", other),
    }
}

/// A backend stub that records whether any operation reached it.
struct StubBackend {
    calls: usize,
}

impl StubBackend {
    fn delete(&mut self, _path: &str) -> Result<(), BackendError> {
        self.calls += 1;
        Ok(())
    }
}

#[test]
fn invalid_path_fails_before_any_backend_call() {
    let mut stub = StubBackend { calls: 0 };
    let path: &[u8] = &[0x62, 0x61, 0x64, 0xFF, 0x70];
    let r = match validate_path(path) {
        Ok(()) => unit_op_result(stub.delete("bad")),
        Err(e) => Err(e),
    };
    assert!(matches!(r, Err(FileSystemError::InvalidPath(_))));
    assert_eq!(stub.calls, 0);
}

#[test]
fn exists_resolves_not_found_to_false() {
    let r = file_exists_result(Err(BackendError::NotFound("no such key".to_string())));
    assert_eq!(r.unwrap(), false);
}

#[test]
fn exists_passes_the_backend_boolean_through() {
    assert_eq!(file_exists_result(Ok(true)).unwrap(), true);
    assert_eq!(file_exists_result(Ok(false)).unwrap(), false);
}

#[test]
fn exists_propagates_other_backend_errors() {
    let r = file_exists_result(Err(BackendError::Other("connection reset".to_string())));
    match r {
        Err(FileSystemError::OpendalError(m)) => assert_eq!(m, "connection reset"),
        other => panic!("expected OpendalError, got {:?}", other),
    }
}

#[test]
fn get_size_turns_not_found_into_file_not_found() {
    let r = found_result::<u64>(Err(BackendError::NotFound("a/b.txt".to_string())));
    match r {
        Err(FileSystemError::FileNotFound(m)) => assert_eq!(m, "a/b.txt"),
        other => panic!("expected FileNotFound, got {:?}", other),
    }
}

#[test]
fn get_size_passes_the_size_through() {
    assert_eq!(found_result::<u64>(Ok(11)).unwrap(), 11);
}

#[test]
fn unit_op_wraps_every_backend_error() {
    assert!(unit_op_result(Ok(())).is_ok());
    let r = unit_op_result(Err(BackendError::Other("timeout".to_string())));
    match r {
        Err(FileSystemError::OpendalError(m)) => assert_eq!(m, "timeout"),
        other => panic!("expected OpendalError, got {:?}", other),
    }
    let r2 = unit_op_result(Err(BackendError::NotFound("gone".to_string())));
    match r2 {
        Err(FileSystemError::OpendalError(m)) => assert_eq!(m, "gone"),
        other => panic!("expected OpendalError, got {:?}", other),
    }
}

#[test]
fn write_session_appends_in_call_order() {
    let mut s = WriteSession::new();
    assert_eq!(s.bytes_written(), 0);
    s.write(b"hello").unwrap();
    s.write(b" world").unwrap();
    assert_eq!(s.bytes_written(), 11);
    s.close().unwrap();
    assert_eq!(s.bytes_written(), 11);
}

#[test]
fn write_after_close_is_refused() {
    let mut s = WriteSession::new();
    s.write(b"data").unwrap();
    s.close().unwrap();
    let r = s.write(b"late");
    assert!(matches!(r, Err(FileSystemError::NotSupported(_))));
    assert_eq!(s.bytes_written(), 4);
}

#[test]
fn close_after_close_is_refused() {
    let mut s = WriteSession::new();
    s.close().unwrap();
    assert!(matches!(s.close(), Err(FileSystemError::NotSupported(_))));
}

#[test]
fn lock_file_is_unsupported_without_a_native_lock() {
    let r = lock_file_unsupported();
    match r {
        Err(FileSystemError::NotSupported(m)) => assert_eq!(m, "not supported"),
        other => panic!("expected NotSupported, got {:?}", other),
    }
}

#[test]
fn unlock_always_succeeds_given_a_token() {
    let token = NoNativeLock {};
    assert!(unlock_file_released(token).is_ok());
}

#[test]
fn error_message_is_the_carried_detail() {
    let e = FileSystemError::IoError("disk full".to_string());
    assert_eq!(e.message(), "disk full");
    let e2 = FileSystemError::NotSupported("not supported".to_string());
    assert_eq!(e2.message(), "not supported");
}
