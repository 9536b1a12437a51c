use brd::text::{decimal_string, parse_i64};

#[test]
fn decimal_of_positive_negative_and_zero() {
    assert_eq!(decimal_string(0), "0");
    assert_eq!(decimal_string(42), "42");
    assert_eq!(decimal_string(-7), "-7");
    assert_eq!(decimal_string(1000), "1000");
}

#[test]
fn decimal_of_extremes() {
    assert_eq!(decimal_string(i64::MAX), "9223372036854775807");
    assert_eq!(decimal_string(i64::MIN), "-9223372036854775808");
}

#[test]
fn decimal_matches_std_formatting() {
    for n in [-1234567i64, -10, -1, 0, 1, 9, 10, 99, 100, 123456789] {
        assert_eq!(decimal_string(n), format!("{}", n));
    }
}

#[test]
fn parse_reads_signs_and_leading_zeros() {
    assert_eq!(parse_i64("12"), Some(12));
    assert_eq!(parse_i64("+12"), Some(12));
    assert_eq!(parse_i64("-12"), Some(-12));
    assert_eq!(parse_i64("007"), Some(7));
    assert_eq!(parse_i64("-0"), Some(0));
}

#[test]
fn parse_rejects_what_from_str_rejects() {
    assert_eq!(parse_i64(""), None);
    assert_eq!(parse_i64("-"), None);
    assert_eq!(parse_i64("+"), None);
    assert_eq!(parse_i64("1a"), None);
    assert_eq!(parse_i64(" 1"), None);
    assert_eq!(parse_i64("--1"), None);
    assert_eq!(parse_i64("1.0"), None);
}

#[test]
fn parse_bounds() {
    assert_eq!(parse_i64("9223372036854775807"), Some(i64::MAX));
    assert_eq!(parse_i64("9223372036854775808"), None);
    assert_eq!(parse_i64("-9223372036854775808"), Some(i64::MIN));
    assert_eq!(parse_i64("-9223372036854775809"), None);
    assert_eq!(parse_i64("99999999999999999999999"), None);
}

#[test]
fn parse_agrees_with_std() {
    for s in ["0", "-5", "+5", "x", "", "12345678901234567890", "-", "00012", "1_000"] {
        assert_eq!(parse_i64(s), s.parse::<i64>().ok(), "{:?}", s);
    }
}

#[test]
fn decimal_reads_back() {
    for n in [i64::MIN, -99, -1, 0, 1, 31, i64::MAX] {
        assert_eq!(parse_i64(&decimal_string(n)), Some(n));
    }
}
