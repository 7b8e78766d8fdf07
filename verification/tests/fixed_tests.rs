use exchange::fixed::{fmt_dec4, parse_dec4, u64_str};

#[test]
fn parse_plain_integer() {
    assert_eq!(parse_dec4("123"), Some(1_230_000));
    assert_eq!(parse_dec4("0"), Some(0));
    assert_eq!(parse_dec4("999999999"), Some(9_999_999_990_000));
}

#[test]
fn parse_with_fraction() {
    assert_eq!(parse_dec4("0.60"), Some(6_000));
    assert_eq!(parse_dec4("0.6120"), Some(6_120));
    assert_eq!(parse_dec4("1.5"), Some(15_000));
    assert_eq!(parse_dec4("12.3456"), Some(123_456));
}

#[test]
fn parse_truncates_extra_digits() {
    assert_eq!(parse_dec4("0.123456"), Some(1_234));
    assert_eq!(parse_dec4("0.99999"), Some(9_999));
}

#[test]
fn parse_rejects_malformed() {
    assert_eq!(parse_dec4(""), None);
    assert_eq!(parse_dec4("abc"), None);
    assert_eq!(parse_dec4("1."), None);
    assert_eq!(parse_dec4(".5"), None);
    assert_eq!(parse_dec4("-1"), None);
    assert_eq!(parse_dec4("1e5"), None);
    assert_eq!(parse_dec4("1 2"), None);
    assert_eq!(parse_dec4("1234567890"), None);
}

#[test]
fn format_always_four_decimals() {
    assert_eq!(fmt_dec4(5_880), "0.5880");
    assert_eq!(fmt_dec4(6_324), "0.6324");
    assert_eq!(fmt_dec4(1_000_000), "100.0000");
    assert_eq!(fmt_dec4(0), "0.0000");
}

#[test]
fn format_then_parse_round_trip() {
    for v in [0u64, 1, 9_999, 10_000, 123_456, 9_999_999_990_000] {
        assert_eq!(parse_dec4(&fmt_dec4(v)), Some(v));
    }
}

#[test]
fn integer_text() {
    assert_eq!(u64_str(0), "0");
    assert_eq!(u64_str(7), "7");
    assert_eq!(u64_str(1_700_000_000), "1700000000");
}
