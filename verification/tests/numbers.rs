use admin_api::num::{decimal_string, parse_i64, signed_decimal_string};

#[test]
fn parse_i64_accepts_what_rust_accepts() {
    assert_eq!(parse_i64("42"), Some(42));
    assert_eq!(parse_i64("-7"), Some(-7));
    assert_eq!(parse_i64("+5"), Some(5));
    assert_eq!(parse_i64("007"), Some(7));
    assert_eq!(parse_i64("9223372036854775807"), Some(i64::MAX));
    assert_eq!(parse_i64("-9223372036854775808"), Some(i64::MIN));
}

#[test]
fn parse_i64_rejects_what_rust_rejects() {
    for s in ["", "-", "+", "1a", " 1", "1 ", "--1", "+-1", "9223372036854775808", "-9223372036854775809", "١"] {
        assert_eq!(parse_i64(s), None, "input {s:?}");
        assert!(s.parse::<i64>().is_err(), "input {s:?}");
    }
}

#[test]
fn parse_i64_agrees_with_std_on_samples() {
    for s in ["0", "-0", "+0", "123456789", "-123456789", "18446744073709551615"] {
        assert_eq!(parse_i64(s), s.parse::<i64>().ok(), "input {s:?}");
    }
}

#[test]
fn decimal_strings() {
    assert_eq!(decimal_string(0), "0");
    assert_eq!(decimal_string(1_700_000_000_123_456_789), "1700000000123456789");
    assert_eq!(decimal_string(u128::MAX), u128::MAX.to_string());
    assert_eq!(signed_decimal_string(0), "0");
    assert_eq!(signed_decimal_string(-15), "-15");
    assert_eq!(signed_decimal_string(i64::MIN), i64::MIN.to_string());
    assert_eq!(signed_decimal_string(i64::MAX), i64::MAX.to_string());
}

#[test]
fn signed_decimals_read_back() {
    for n in [0i64, 1, -1, 99, -100, i64::MIN, i64::MAX] {
        assert_eq!(parse_i64(&signed_decimal_string(n)), Some(n));
    }
}
