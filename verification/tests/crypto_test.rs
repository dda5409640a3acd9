use hypo::crypto::verify::{
    check_fingerprint_trusted, days_from_epoch, is_leap, is_old_key_retired, is_old_key_retired_at,
    parse_iso8601,
};
use hypo::registry::types::KeyRotation;

fn rotation(fp: &str, at: &str) -> KeyRotation {
    KeyRotation {
        old_key_fingerprint: fp.into(),
        old_key_retired_at: at.into(),
        transition_period_days: 90,
    }
}

#[test]
fn test_old_key_not_retired_in_future() {
    let r = rotation("F6E5D4", "2099-01-01T00:00:00Z");
    assert!(!is_old_key_retired(&r));
}

#[test]
fn test_old_key_retired_in_past() {
    let r = rotation("F6E5D4", "2020-01-01T00:00:00Z");
    assert!(is_old_key_retired(&r));
}

#[test]
fn test_key_rotation_retired() {
    let r = rotation("DEAD", "2020-01-01T00:00:00Z");
    assert!(is_old_key_retired(&r));
}

#[test]
fn test_key_rotation_not_retired() {
    let r = rotation("BEEF", "2099-12-31T00:00:00Z");
    assert!(!is_old_key_retired(&r));
}

#[test]
fn test_check_fingerprint_trusted() {
    let fp = "A1B2C3D4E5F60718293A4B5C6D7E8F9012345678".to_string();
    assert!(check_fingerprint_trusted(&fp, std::slice::from_ref(&fp)).is_ok());
    assert!(check_fingerprint_trusted(&fp, &["DEADBEEF".into()]).is_err());
}

#[test]
fn fingerprint_match_ignores_ascii_case() {
    let listed = vec!["abcdef0123".to_string()];
    assert!(check_fingerprint_trusted("ABCDEF0123", &listed).is_ok());
    let err = check_fingerprint_trusted("ABCDEF0124", &listed).unwrap_err();
    assert_eq!(err.detail(), "证书指纹 ABCDEF0124 不在受信任列表中");
    assert_eq!(err.exit_code(), 10);
}

#[test]
fn iso8601_timestamps() {
    assert_eq!(parse_iso8601("1970-01-01T00:00:00Z"), Some(0));
    assert_eq!(parse_iso8601("2024-01-01T00:00:00Z"), Some(1704067200));
    assert_eq!(parse_iso8601("2000-02-29T12:34:56Z"), Some(951827696));
    assert_eq!(parse_iso8601("2024-01-01T00:00:00"), None);
    assert_eq!(parse_iso8601("garbage"), None);
    // 2100 is not a leap year.
    assert_eq!(parse_iso8601("2100-03-01T00:00:00Z"), Some(4107542400));
    assert_eq!(parse_iso8601("2101-01-01T00:00:00Z"), Some(4133980800));
    // Fields out of range name no instant.
    assert_eq!(parse_iso8601("2020-13-01T00:00:00Z"), None);
    assert_eq!(parse_iso8601("2020-00-10T00:00:00Z"), None);
    assert_eq!(parse_iso8601("2023-02-29T00:00:00Z"), None);
    assert_eq!(parse_iso8601("2024-01-01T24:00:00Z"), None);
    assert_eq!(parse_iso8601("1969-12-31T23:59:59Z"), None);
}

#[test]
fn calendar_arithmetic() {
    assert!(is_leap(2000));
    assert!(!is_leap(1900));
    assert!(is_leap(2024));
    assert!(!is_leap(2023));
    assert_eq!(days_from_epoch(1970, 1, 1), 0);
    assert_eq!(days_from_epoch(2024, 1, 1), 19723);
    assert_eq!(days_from_epoch(2024, 3, 1), 19783);
    assert_eq!(days_from_epoch(2100, 3, 1), 47541);
    assert_eq!(days_from_epoch(2400, 3, 1), 157114);
}

#[test]
fn retirement_is_relative_to_now() {
    let r = rotation("AA", "2024-01-01T00:00:00Z");
    assert!(!is_old_key_retired_at(&r, 1704067199));
    assert!(is_old_key_retired_at(&r, 1704067200));
    let bad = rotation("AA", "not a date");
    assert!(is_old_key_retired_at(&bad, 0));
    let out_of_range = rotation("AA", "2020-13-01T00:00:00Z");
    assert!(is_old_key_retired_at(&out_of_range, 0));
    assert!(is_old_key_retired(&out_of_range));
}
