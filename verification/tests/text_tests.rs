use thunder::{c_buffer_text, decimal_string, to_cstring};

#[test]
fn to_cstring_keeps_bytes() {
    let c = to_cstring("D:/Downloads").unwrap();
    assert_eq!(c.as_bytes(), b"D:/Downloads");
}

#[test]
fn to_cstring_keeps_utf8_bytes() {
    let c = to_cstring("迅雷").unwrap();
    assert_eq!(c.as_bytes(), "迅雷".as_bytes());
}

#[test]
fn to_cstring_accepts_empty() {
    let c = to_cstring("").unwrap();
    assert_eq!(c.as_bytes().len(), 0);
}

#[test]
fn to_cstring_rejects_nul_like_std() {
    let err = to_cstring("ab\0cd\0").unwrap_err();
    assert_eq!(err, "nul byte found in provided data at position: 2");
}

#[test]
fn to_cstring_rejects_leading_nul() {
    let err = to_cstring("\0").unwrap_err();
    assert_eq!(err, "nul byte found in provided data at position: 0");
}

#[test]
fn decimal_string_matches_display() {
    for n in [0usize, 7, 9, 10, 11, 99, 100, 4096, 123456789, usize::MAX] {
        assert_eq!(decimal_string(n), n.to_string());
    }
}

#[test]
fn c_buffer_text_stops_at_first_zero() {
    assert_eq!(c_buffer_text(b"session-42\0garbage\0"), "session-42");
}

#[test]
fn c_buffer_text_without_zero_reads_all() {
    assert_eq!(c_buffer_text(b"abc"), "abc");
}

#[test]
fn c_buffer_text_empty_and_leading_zero() {
    assert_eq!(c_buffer_text(b""), "");
    assert_eq!(c_buffer_text(b"\0abc"), "");
}

#[test]
fn c_buffer_text_replaces_invalid_utf8() {
    assert_eq!(c_buffer_text(&[0x61, 0xff, 0x62, 0x00, 0x63]), "a\u{FFFD}b");
}

#[test]
fn c_text_round_trip() {
    let s = "任务-𝄞-x";
    let c = to_cstring(s).unwrap();
    let mut buf = c.as_bytes().to_vec();
    buf.push(0);
    buf.extend_from_slice(b"leftover");
    assert_eq!(c_buffer_text(&buf), s);
}
