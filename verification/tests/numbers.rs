use fedquery::number::{decimal_chars, parse_integer};

fn written(n: i64) -> String {
    decimal_chars(n).into_iter().collect()
}

fn read(s: &str) -> Option<i64> {
    parse_integer(&s.chars().collect())
}

#[test]
fn decimal_notation() {
    assert_eq!(written(0), "0");
    assert_eq!(written(7), "7");
    assert_eq!(written(10), "10");
    assert_eq!(written(-1), "-1");
    assert_eq!(written(1234567890), "1234567890");
    assert_eq!(written(i64::MAX), "9223372036854775807");
    assert_eq!(written(i64::MIN), "-9223372036854775808");
}

#[test]
fn integers_are_read() {
    assert_eq!(read("0"), Some(0));
    assert_eq!(read("42"), Some(42));
    assert_eq!(read("+42"), Some(42));
    assert_eq!(read("-42"), Some(-42));
    assert_eq!(read("007"), Some(7));
    assert_eq!(read("-0"), Some(0));
    assert_eq!(read("9223372036854775807"), Some(i64::MAX));
    assert_eq!(read("-9223372036854775808"), Some(i64::MIN));
    assert_eq!(read("0000000000000000000000000000000000001"), Some(1));
}

#[test]
fn what_is_no_integer_is_rejected() {
    assert_eq!(read(""), None);
    assert_eq!(read("-"), None);
    assert_eq!(read("+"), None);
    assert_eq!(read("1.5"), None);
    assert_eq!(read(" 1"), None);
    assert_eq!(read("1 "), None);
    assert_eq!(read("1_000"), None);
    assert_eq!(read("--1"), None);
    assert_eq!(read("12a"), None);
    assert_eq!(read("９"), None);
    assert_eq!(read("9223372036854775808"), None);
    assert_eq!(read("-9223372036854775809"), None);
    assert_eq!(read("99999999999999999999999999"), None);
}

#[test]
fn reading_agrees_with_std() {
    for s in ["0", "-5", "+5", "18446744073709551615", "abc", "", "-", "12345678901234567890", "1e3"] {
        assert_eq!(read(s), s.parse::<i64>().ok(), "{}", s);
    }
    for n in [0i64, 1, -1, 99, -100, i64::MAX, i64::MIN] {
        assert_eq!(written(n), n.to_string());
        assert_eq!(read(&written(n)), Some(n));
    }
}
