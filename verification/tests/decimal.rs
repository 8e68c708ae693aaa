use steamid::decimal::{decimal_string, parse_u64, push_decimal};

#[test]
fn parse_plain_numerals() {
    assert_eq!(parse_u64("0"), Some(0));
    assert_eq!(parse_u64("7"), Some(7));
    assert_eq!(parse_u64("12"), Some(12));
    assert_eq!(parse_u64("76561197960265728"), Some(76561197960265728));
}

#[test]
fn parse_accepts_leading_zeros() {
    assert_eq!(parse_u64("007"), Some(7));
    assert_eq!(parse_u64("0000000000000000000000000000000001"), Some(1));
    assert_eq!(parse_u64("00"), Some(0));
}

#[test]
fn parse_accepts_one_plus_sign() {
    assert_eq!(parse_u64("+5"), Some(5));
    assert_eq!(parse_u64("+0"), Some(0));
    assert_eq!(parse_u64("+18446744073709551615"), Some(u64::MAX));
    assert_eq!(parse_u64("++5"), None);
    assert_eq!(parse_u64("5+"), None);
    assert_eq!(parse_u64("+"), None);
}

#[test]
fn parse_limits() {
    assert_eq!(parse_u64("18446744073709551615"), Some(u64::MAX));
    assert_eq!(parse_u64("18446744073709551616"), None);
    assert_eq!(parse_u64("18446744073709551620"), None);
    assert_eq!(parse_u64("28446744073709551615"), None);
    assert_eq!(parse_u64("99999999999999999999999"), None);
    assert_eq!(parse_u64("1844674407370955161"), Some(1844674407370955161));
}

#[test]
fn parse_rejects_what_is_no_numeral() {
    for s in ["", "-1", "-0", "12a", "a12", " 12", "12 ", "1 2", "1_000", "0x10", "1.0", "1e3", "12\n"] {
        assert_eq!(parse_u64(s), None, "{:?}", s);
    }
}

#[test]
fn parse_rejects_overflow_followed_by_a_letter() {
    assert_eq!(parse_u64("99999999999999999999999x"), None);
}

#[test]
fn parse_rejects_digits_outside_ascii() {
    assert_eq!(parse_u64("٣"), None);
    assert_eq!(parse_u64("１２"), None);
    assert_eq!(parse_u64("1٣"), None);
    assert_eq!(parse_u64("+٣"), None);
    assert_eq!(parse_u64("é"), None);
}

#[test]
fn parse_agrees_with_std() {
    for s in ["", "+", "-", "0", "+1", "-1", "0012", "18446744073709551615", "18446744073709551616", "٣", "1a", "+ 1"] {
        assert_eq!(parse_u64(s), s.parse::<u64>().ok(), "{:?}", s);
    }
}

#[test]
fn decimal_string_of_numbers() {
    assert_eq!(decimal_string(0), "0");
    assert_eq!(decimal_string(7), "7");
    assert_eq!(decimal_string(9), "9");
    assert_eq!(decimal_string(10), "10");
    assert_eq!(decimal_string(1234567890), "1234567890");
    assert_eq!(decimal_string(u64::MAX), "18446744073709551615");
}

#[test]
fn push_decimal_appends() {
    let mut s = String::from("n=");
    push_decimal(&mut s, 405);
    assert_eq!(s, "n=405");
    push_decimal(&mut s, 0);
    assert_eq!(s, "n=4050");
}

#[test]
fn parse_inverts_decimal_string() {
    for n in [0u64, 1, 9, 10, 99, 100, 4294967295, 4294967296, 76561197960265728, u64::MAX] {
        assert_eq!(parse_u64(&decimal_string(n)), Some(n));
        assert_eq!(decimal_string(n), n.to_string());
    }
}
