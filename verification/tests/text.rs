use rask::text::i32_text;
use rask::text::i64_text;
use rask::text::parse_i32;
use rask::text::parse_i64;

#[test]
fn decimal_text_of_small_and_large_numbers() {
    assert_eq!(i64_text(0), "0");
    assert_eq!(i64_text(7), "7");
    assert_eq!(i64_text(10), "10");
    assert_eq!(i64_text(-1), "-1");
    assert_eq!(i64_text(1700000000), "1700000000");
    assert_eq!(i64_text(i64::MAX), "9223372036854775807");
    assert_eq!(i64_text(i64::MIN), "-9223372036854775808");
    assert_eq!(i32_text(i32::MIN), "-2147483648");
    assert_eq!(i32_text(i32::MAX), "2147483647");
}

#[test]
fn decimal_text_is_what_std_prints() {
    for n in [-1000i64, -99, -10, -9, 0, 9, 10, 11, 99, 100, 101, 123456789] {
        assert_eq!(i64_text(n), n.to_string());
    }
}

#[test]
fn parse_reads_signs_and_leading_zeros() {
    assert_eq!(parse_i32("0"), Some(0));
    assert_eq!(parse_i32("42"), Some(42));
    assert_eq!(parse_i32("-42"), Some(-42));
    assert_eq!(parse_i32("+42"), Some(42));
    assert_eq!(parse_i32("007"), Some(7));
    assert_eq!(parse_i32("-0"), Some(0));
}

#[test]
fn parse_refuses_what_is_no_number() {
    assert_eq!(parse_i32(""), None);
    assert_eq!(parse_i32("-"), None);
    assert_eq!(parse_i32("+"), None);
    assert_eq!(parse_i32(" 1"), None);
    assert_eq!(parse_i32("1 "), None);
    assert_eq!(parse_i32("1.5"), None);
    assert_eq!(parse_i32("12a"), None);
    assert_eq!(parse_i32("--1"), None);
    assert_eq!(parse_i32("١٢"), None);
    assert_eq!(parse_i64("é"), None);
}

#[test]
fn parse_keeps_to_the_range_of_its_type() {
    assert_eq!(parse_i32("2147483647"), Some(i32::MAX));
    assert_eq!(parse_i32("2147483648"), None);
    assert_eq!(parse_i32("-2147483648"), Some(i32::MIN));
    assert_eq!(parse_i32("-2147483649"), None);
    assert_eq!(parse_i64("9223372036854775807"), Some(i64::MAX));
    assert_eq!(parse_i64("9223372036854775808"), None);
    assert_eq!(parse_i64("-9223372036854775808"), Some(i64::MIN));
    assert_eq!(parse_i64("-9223372036854775809"), None);
    assert_eq!(parse_i64("99999999999999999999999999999999"), None);
    assert_eq!(parse_i64("00000000000000000000000000000001"), Some(1));
}

#[test]
fn parse_agrees_with_std() {
    for s in ["", "0", "-5", "+5", "12", "1e3", "0x10", "2147483648", "-2147483648", "  3"] {
        assert_eq!(parse_i32(s), s.parse::<i32>().ok());
        assert_eq!(parse_i64(s), s.parse::<i64>().ok());
    }
}

#[test]
fn text_of_a_number_parses_back_to_it() {
    for n in [i64::MIN, -1, 0, 1, 1234567890123, i64::MAX] {
        assert_eq!(parse_i64(i64_text(n).as_str()), Some(n));
    }
}
