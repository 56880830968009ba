//! The error taxonomy: threshold classification, the deliberate
//! duplicate errno codes, and code round trips.

use flail::messages::EXT_ET_BASE;
use flail::messages::EXT_ET_COUNT;
use flail::messages::ExtError;
use flail::messages::ExtEtMessage;
use flail::messages::ExtReport;
use flail::messages::report;

#[test]
fn test_report_selects_errno_table() {
    let r: Result<(), ExtReport> = report(2);
    assert_eq!(r, Err(ExtReport::Errno(ExtError::ENOENT)));
    let r: Result<(), ExtReport> = report(28);
    assert_eq!(r, Err(ExtReport::Errno(ExtError::ENOSPC)));
    let r: Result<(), ExtReport> = report(0);
    assert_eq!(r, Err(ExtReport::Errno(ExtError::Unknown(0))));
}

#[test]
fn test_report_selects_extended_table() {
    let r: Result<(), ExtReport> = report(EXT_ET_BASE + 19);
    assert_eq!(r, Err(ExtReport::Message(ExtEtMessage::BadMagic)));
    let r: Result<(), ExtReport> = report(EXT_ET_BASE);
    assert_eq!(r, Err(ExtReport::Message(ExtEtMessage::Base)));
}

#[test]
fn test_bad_magic_message() {
    let m = ExtEtMessage::from_code(EXT_ET_BASE + 19);
    assert_eq!(m, ExtEtMessage::BadMagic);
    assert_eq!(m.message(), "Bad magic number in super-block");
    assert_eq!(m.code(), EXT_ET_BASE + 19);
}

#[test]
fn test_duplicate_errno_codes_preserved() {
    assert_eq!(ExtError::EAGAIN.code(), 11);
    assert_eq!(ExtError::EWOULDBLOCK.code(), 11);
    assert_eq!(ExtError::EDEADLK.code(), 35);
    assert_eq!(ExtError::EDEADLOCK.code(), 35);
    assert_eq!(ExtError::EOPNOTSUPP.code(), 95);
    assert_eq!(ExtError::ENOTSUP.code(), 95);
    // Decoding the shared codes yields the canonical names.
    assert_eq!(ExtError::from_code(11), ExtError::EAGAIN);
    assert_eq!(ExtError::from_code(35), ExtError::EDEADLK);
    assert_eq!(ExtError::from_code(95), ExtError::EOPNOTSUPP);
}

#[test]
fn test_errno_code_round_trip() {
    for c in 0u32..=200u32 {
        let e = ExtError::from_code(c);
        assert_eq!(e.code(), c);
    }
}

#[test]
fn test_extended_code_round_trip() {
    for off in 0..EXT_ET_COUNT {
        let m = ExtEtMessage::from_code(EXT_ET_BASE + off);
        assert_eq!(m.code(), EXT_ET_BASE + off);
        assert!(!m.message().is_empty());
    }
}

#[test]
fn test_unknown_errno() {
    let e = ExtError::from_code(41);
    assert_eq!(e, ExtError::Unknown(41));
    assert_eq!(e.message(), "Unknown error code");
    let e = ExtError::from_code(58);
    assert_eq!(e, ExtError::Unknown(58));
}

#[test]
fn test_report_messages_surface() {
    assert_eq!(ExtReport::FileAlreadyClosed.message(), "file already closed!");
    assert_eq!(
        ExtReport::Errno(ExtError::ENOENT).message(),
        "No such file or directory"
    );
}
