//! Checks of the text-marshaling boundary and the time formatting.

use lvgl_ui::text::is_nul_free;
use lvgl_ui::text::is_valid_utf8;
use lvgl_ui::text::marshal_text;
use lvgl_ui::time::format_time;

#[test]
fn utf8_validator_accepts_well_formed_sequences() {
    assert!(is_valid_utf8(b""));
    assert!(is_valid_utf8(b"plain ascii"));
    assert!(is_valid_utf8("héllo wörld".as_bytes()));
    assert!(is_valid_utf8("\u{0800}\u{ffff}".as_bytes()));
    assert!(is_valid_utf8("\u{10000}\u{10ffff}".as_bytes()));
    // A two-byte encoding at the lower edge of its range.
    assert!(is_valid_utf8(&[0xc2, 0x80]));
    // A four-byte encoding at the top of the scalar range.
    assert!(is_valid_utf8(&[0xf4, 0x8f, 0xbf, 0xbf]));
}

#[test]
fn utf8_validator_rejects_malformed_sequences() {
    // A continuation byte cannot lead.
    assert!(!is_valid_utf8(&[0x80]));
    // Bytes above 0xf7 lead nothing.
    assert!(!is_valid_utf8(&[0xf8, 0x80, 0x80, 0x80]));
    // Overlong encodings.
    assert!(!is_valid_utf8(&[0xc0, 0x80]));
    assert!(!is_valid_utf8(&[0xc1, 0xbf]));
    assert!(!is_valid_utf8(&[0xe0, 0x80, 0x80]));
    assert!(!is_valid_utf8(&[0xf0, 0x80, 0x80, 0x80]));
    // Surrogate codepoints.
    assert!(!is_valid_utf8(&[0xed, 0xa0, 0x80]));
    assert!(!is_valid_utf8(&[0xed, 0xbf, 0xbf]));
    // Above the scalar range.
    assert!(!is_valid_utf8(&[0xf4, 0x90, 0x80, 0x80]));
    // Truncated sequences.
    assert!(!is_valid_utf8(&[0xc3]));
    assert!(!is_valid_utf8(&[0xe2, 0x82]));
    assert!(!is_valid_utf8(&[0xf0, 0x9f, 0x98]));
    // A bad continuation in the middle.
    assert!(!is_valid_utf8(&[0x61, 0xe2, 0x28, 0xa1, 0x62]));
}

#[test]
fn nul_detection_finds_interior_nuls() {
    assert!(is_nul_free(b"abc"));
    assert!(is_nul_free(b""));
    assert!(!is_nul_free(b"a\0c"));
    assert!(!is_nul_free(b"\0"));
}

#[test]
fn marshaling_substitutes_the_placeholder() {
    assert_eq!(marshal_text(b"good", b"bad"), b"good".to_vec());
    assert_eq!(marshal_text(&[0xff], b"bad"), b"bad".to_vec());
    assert_eq!(marshal_text(b"nul\0led", b"bad"), b"bad".to_vec());
    assert_eq!(marshal_text("héllo".as_bytes(), b"bad"), "héllo".as_bytes().to_vec());
}

#[test]
fn format_time_expands_the_demo_format() {
    assert_eq!(format_time(0, b"%D %H:%M").unwrap(), b"01/01/70 00:00".to_vec());
    // 2023-11-14 22:13:20 UTC.
    assert_eq!(format_time(1_700_000_000, b"%D %H:%M").unwrap(), b"11/14/23 22:13".to_vec());
    assert_eq!(format_time(1_700_000_000, b"%H:%M:%S").unwrap(), b"22:13:20".to_vec());
}

#[test]
fn format_time_handles_the_leap_day() {
    // 2024-02-29 00:00:00 UTC.
    assert_eq!(format_time(1_709_164_800, b"%D").unwrap(), b"02/29/24".to_vec());
    // The day after.
    assert_eq!(format_time(1_709_251_200, b"%D").unwrap(), b"03/01/24".to_vec());
    // 2100 is no leap year: 2100-02-28 00:00:00 UTC, then the day after.
    assert_eq!(format_time(4_107_456_000, b"%D").unwrap(), b"02/28/00".to_vec());
    assert_eq!(format_time(4_107_456_000 + 86_400, b"%D").unwrap(), b"03/01/00".to_vec());
}

#[test]
fn format_time_copies_literals_and_escapes() {
    assert_eq!(format_time(0, b"time: %H!").unwrap(), b"time: 00!".to_vec());
    assert_eq!(format_time(0, b"100%%").unwrap(), b"100%".to_vec());
    // Unknown conversions and a trailing percent are copied through.
    assert_eq!(format_time(0, b"%q").unwrap(), b"%q".to_vec());
    assert_eq!(format_time(0, b"odd%").unwrap(), b"odd%".to_vec());
}

#[test]
fn format_time_rejects_an_unmarshalable_format() {
    assert_eq!(format_time(0, b"%H\0%M"), Err(()));
    assert!(format_time(0, b"%H%M").is_ok());
}
