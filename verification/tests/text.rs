use ownership::text::{decimal_text, push_decimal, push_unsigned};

#[test]
fn decimal_text_of_zero_is_one_digit() {
    assert_eq!(decimal_text(0), "0");
}

#[test]
fn decimal_text_of_single_digits() {
    let expected = ["0", "1", "2", "3", "4", "5", "6", "7", "8", "9"];
    for (value, text) in expected.iter().enumerate() {
        assert_eq!(decimal_text(value as i64), *text);
    }
}

#[test]
fn decimal_text_keeps_inner_and_trailing_zeros() {
    assert_eq!(decimal_text(10), "10");
    assert_eq!(decimal_text(100), "100");
    assert_eq!(decimal_text(1203), "1203");
    assert_eq!(decimal_text(9_000_000_009), "9000000009");
}

#[test]
fn decimal_text_of_negative_numbers_has_a_minus_sign() {
    assert_eq!(decimal_text(-1), "-1");
    assert_eq!(decimal_text(-45), "-45");
    assert_eq!(decimal_text(-1000), "-1000");
}

#[test]
fn decimal_text_at_the_limits() {
    assert_eq!(decimal_text(i64::MAX), "9223372036854775807");
    assert_eq!(decimal_text(i64::MIN), "-9223372036854775808");
    assert_eq!(decimal_text(i32::MAX as i64), "2147483647");
    assert_eq!(decimal_text(i32::MIN as i64), "-2147483648");
}

#[test]
fn decimal_text_agrees_with_the_standard_formatting() {
    let mut value: i64 = -5000;
    while value <= 5000 {
        assert_eq!(decimal_text(value), format!("{}", value));
        value += 7;
    }
}

#[test]
fn push_unsigned_appends_after_what_is_there() {
    let mut out = String::from("n=");
    push_unsigned(&mut out, 0);
    assert_eq!(out, "n=0");
    push_unsigned(&mut out, 12);
    assert_eq!(out, "n=012");
}

#[test]
fn push_unsigned_at_the_limit() {
    let mut out = String::new();
    push_unsigned(&mut out, u64::MAX);
    assert_eq!(out, "18446744073709551615");
}

#[test]
fn push_decimal_appends_after_what_is_there() {
    let mut out = String::from("a");
    push_decimal(&mut out, -3);
    push_decimal(&mut out, 4);
    assert_eq!(out, "a-34");
}
