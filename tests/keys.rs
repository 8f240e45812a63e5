use server::error::{Code, ServiceError};
use server::keys::parse_id;
use server::repository::{require_deleted, require_found, sanitize_page_size};
use server::text::{blank, is_space_char, parse_i64, parse_u64, same_text, trim};

#[test]
fn parse_id_rejects_invalid_values() {
    assert!(parse_id("").is_err());
    assert!(parse_id("-1").is_err());
    assert!(parse_id("abc").is_err());
}

#[test]
fn parse_id_reads_positive_ids() {
    assert_eq!(parse_id("42").expect("id"), 42);
    assert_eq!(parse_id("  7 \n").expect("id"), 7);
    assert_eq!(parse_id("+9").expect("id"), 9);
    assert_eq!(parse_id("9223372036854775807").expect("id"), i64::MAX);
    assert_eq!(parse_id("0").unwrap_err().code, Code::InvalidArgument);
    assert!(parse_id("9223372036854775808").is_err());
    assert!(parse_id("4 2").is_err());
}

#[test]
fn integer_parsing_follows_std() {
    for s in ["0", "-0", "+0", "12", "-12", "+12", "", "+", "-", "1a", "-9223372036854775808",
        "-9223372036854775809", "18446744073709551615", "18446744073709551616", "00012", " 1"] {
        assert_eq!(parse_i64(s), s.parse::<i64>().ok(), "i64 {s:?}");
        assert_eq!(parse_u64(s), s.parse::<u64>().ok(), "u64 {s:?}");
    }
}

#[test]
fn trimming_follows_std() {
    for s in ["", "  ", " a ", "\t\nab c\r\n", "\u{a0}x\u{3000}", "x", "\u{200b}y"] {
        assert_eq!(trim(s), s.trim(), "{s:?}");
        assert_eq!(blank(s), s.trim().is_empty(), "{s:?}");
    }
    assert!(same_text("abc", "abc"));
    assert!(!same_text("abc", "abd"));
    assert!(!same_text("abc", "ab"));
}

#[test]
fn page_size_is_bounded() {
    assert_eq!(sanitize_page_size(0), 100);
    assert_eq!(sanitize_page_size(-5), 100);
    assert_eq!(sanitize_page_size(i32::MIN), 100);
    assert_eq!(sanitize_page_size(10000), 500);
    assert_eq!(sanitize_page_size(500), 500);
    assert_eq!(sanitize_page_size(250), 250);
    assert_eq!(sanitize_page_size(1), 1);
}

#[test]
fn lookups_and_deletes_report_not_found() {
    let missing: Option<u8> = None;
    assert_eq!(require_found(missing, "concert not found").unwrap_err().code, Code::NotFound);
    assert_eq!(require_found(Some(3u8), "concert not found").expect("row"), 3);
    let err = require_deleted(0, "song not found").unwrap_err();
    assert_eq!(err.code, Code::NotFound);
    assert_eq!(err.message, "song not found");
    assert!(require_deleted(1, "song not found").is_ok());
}

#[test]
fn error_kinds_carry_their_messages() {
    let e = ServiceError::database("connection reset");
    assert_eq!(e.code, Code::Internal);
    assert_eq!(e.message, "database error: connection reset");
    assert_eq!(ServiceError::permission_denied("admin required").code, Code::PermissionDenied);
    assert_eq!(ServiceError::not_found("x").code, Code::NotFound);
}

#[test]
fn whitespace_matches_std() {
    for c in (0u32..=0x10FFFF).filter_map(char::from_u32) {
        assert_eq!(is_space_char(c), c.is_whitespace(), "{:x}", c as u32);
    }
}
