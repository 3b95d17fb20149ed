use stress::text::decimal_string;
use stress::text::parse_count;

#[test]
fn decimal_of_single_digits() {
    assert_eq!(decimal_string(0), "0");
    assert_eq!(decimal_string(7), "7");
    assert_eq!(decimal_string(9), "9");
}

#[test]
fn decimal_of_longer_numbers() {
    assert_eq!(decimal_string(10), "10");
    assert_eq!(decimal_string(1_234_567_890), "1234567890");
    assert_eq!(decimal_string(1_000_000), "1000000");
}

#[test]
fn decimal_of_the_largest_number() {
    assert_eq!(decimal_string(u64::MAX), "18446744073709551615");
}

#[test]
fn decimal_agrees_with_the_standard_formatting() {
    let samples = vec![0u64, 1, 9, 10, 11, 99, 100, 101, 4_294_967_295, 4_294_967_296, u64::MAX - 1];
    for n in samples {
        assert_eq!(decimal_string(n), format!("{}", n));
    }
}

#[test]
fn count_of_plain_digits() {
    assert_eq!(parse_count("0"), Some(0));
    assert_eq!(parse_count("3"), Some(3));
    assert_eq!(parse_count("10000"), Some(10_000));
}

#[test]
fn count_accepts_one_leading_plus() {
    assert_eq!(parse_count("+5"), Some(5));
    assert_eq!(parse_count("++5"), None);
    assert_eq!(parse_count("+"), None);
}

#[test]
fn count_accepts_leading_zeros() {
    assert_eq!(parse_count("007"), Some(7));
    assert_eq!(parse_count("00000000000000000000000000000001"), Some(1));
}

#[test]
fn count_rejects_empty_text() {
    assert_eq!(parse_count(""), None);
}

#[test]
fn count_rejects_what_is_not_a_digit() {
    assert_eq!(parse_count("abc"), None);
    assert_eq!(parse_count("-1"), None);
    assert_eq!(parse_count(" 5"), None);
    assert_eq!(parse_count("5 "), None);
    assert_eq!(parse_count("1_000"), None);
    assert_eq!(parse_count("12x"), None);
    assert_eq!(parse_count("1.5"), None);
    assert_eq!(parse_count("\u{0663}"), None);
    assert_eq!(parse_count("5\u{00e9}"), None);
}

#[test]
fn count_stops_at_thirty_two_bits() {
    assert_eq!(parse_count("4294967295"), Some(u32::MAX));
    assert_eq!(parse_count("4294967296"), None);
    assert_eq!(parse_count("99999999999999999999999999"), None);
    assert_eq!(parse_count("42949672950"), None);
}

#[test]
fn count_agrees_with_the_standard_parser() {
    let samples = vec![
        "", "+", "-", "0", "+0", "-0", "1", "+1", "42", "0042", "4294967295", "4294967296",
        "18446744073709551616", "1a", "a1", " 1", "1 ", "1\n", "++1", "+-1", "1+", "0x10", "\u{0661}\u{0662}",
    ];
    for text in samples {
        assert_eq!(parse_count(text), text.parse::<u32>().ok(), "on {:?}", text);
    }
}
