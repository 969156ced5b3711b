//! Writing and reading nul-terminated strings in fixed kernel buffers.

use pfctl::cstr::compare_cstr_safe;
use pfctl::cstr::read_cstr;
use pfctl::cstr::write_cstr;
use pfctl::cstr::zero_bytes;
use pfctl::BufferError;
use pfctl::PfError;

#[test]
fn compare_same_strings() {
    let cchars = b"Hello\0".to_vec();
    assert!(compare_cstr_safe("Hello", cchars.as_slice()).unwrap());
}

#[test]
fn compare_different_strings() {
    let cchars = b"Hello\0".to_vec();
    assert!(!compare_cstr_safe("olleH", cchars.as_slice()).unwrap());
}

#[test]
fn compare_long_short_strings() {
    let cchars = b"veryverylong\0".to_vec();
    assert!(!compare_cstr_safe("short", cchars.as_slice()).unwrap());
}

#[test]
fn compare_short_long_strings() {
    let cchars = b"short\0".to_vec();
    assert!(!compare_cstr_safe("veryverylong", cchars.as_slice()).unwrap());
}

#[test]
fn compare_cstr_without_nul_is_rejected() {
    let cchars = b"Hello".to_vec();
    assert_eq!(
        compare_cstr_safe("Hello", cchars.as_slice()),
        Err(PfError::UnterminatedString)
    );
}

#[test]
fn write_then_read_round_trips() {
    let mut buf = zero_bytes(16);
    write_cstr(b"utun0", &mut buf).unwrap();
    assert_eq!(&buf[..6], b"utun0\0");
    let back = read_cstr(buf.as_slice()).unwrap();
    assert_eq!(back, b"utun0".to_vec());
}

#[test]
fn write_too_long_leaves_buffer_unchanged() {
    let mut buf = zero_bytes(4);
    let before = buf.clone();
    assert_eq!(
        write_cstr(b"toolong", &mut buf),
        Err(BufferError::DoesNotFit)
    );
    assert_eq!(buf, before);
    // a string of exactly the buffer size leaves no room for the terminator
    let mut buf = zero_bytes(4);
    assert_eq!(write_cstr(b"abcd", &mut buf), Err(BufferError::DoesNotFit));
}

#[test]
fn write_embedded_nul_leaves_buffer_unchanged() {
    let mut buf = zero_bytes(16);
    let before = buf.clone();
    assert_eq!(
        write_cstr(b"ab\0cd", &mut buf),
        Err(BufferError::EmbeddedNul)
    );
    assert_eq!(buf, before);
}

#[test]
fn read_stops_at_first_nul() {
    let buf = b"ab\0cd\0".to_vec();
    assert_eq!(read_cstr(buf.as_slice()).unwrap(), b"ab".to_vec());
}

#[test]
fn read_without_nul_is_rejected() {
    let buf = b"abcdef".to_vec();
    assert_eq!(read_cstr(buf.as_slice()), Err(PfError::UnterminatedString));
}
