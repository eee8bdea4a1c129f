use demo_mod::text::{gold_text, push_decimal, text_equals};

fn decimal(n: i64) -> String {
    let mut out = String::new();
    push_decimal(&mut out, n);
    out
}

#[test]
fn decimal_of_zero_is_one_digit() {
    assert_eq!(decimal(0), "0");
}

#[test]
fn decimal_of_small_numbers() {
    assert_eq!(decimal(7), "7");
    assert_eq!(decimal(9), "9");
    assert_eq!(decimal(10), "10");
    assert_eq!(decimal(99), "99");
    assert_eq!(decimal(100), "100");
    assert_eq!(decimal(500), "500");
    assert_eq!(decimal(1234567890), "1234567890");
}

#[test]
fn decimal_of_negative_numbers() {
    assert_eq!(decimal(-1), "-1");
    assert_eq!(decimal(-10), "-10");
    assert_eq!(decimal(-42), "-42");
}

#[test]
fn decimal_at_the_ends_of_the_ranges() {
    assert_eq!(decimal(i32::MAX as i64), "2147483647");
    assert_eq!(decimal(i32::MIN as i64), "-2147483648");
    assert_eq!(decimal(u32::MAX as i64), "4294967295");
    assert_eq!(decimal(i64::MAX), "9223372036854775807");
    assert_eq!(decimal(i64::MIN), "-9223372036854775808");
}

#[test]
fn decimal_agrees_with_the_standard_formatting() {
    let mut n: i64 = -100_000;
    while n <= 100_000 {
        assert_eq!(decimal(n), format!("{}", n));
        n += 37;
    }
}

#[test]
fn push_decimal_appends_to_what_is_there() {
    let mut out = String::from("Gold: ");
    push_decimal(&mut out, 1000);
    assert_eq!(out, "Gold: 1000");
    push_decimal(&mut out, -5);
    assert_eq!(out, "Gold: 1000-5");
}

#[test]
fn text_equals_is_exact() {
    assert!(text_equals("", ""));
    assert!(text_equals("#hello", "#hello"));
    assert!(!text_equals("#hello", "#Hello"));
    assert!(!text_equals("#hello", "#hell"));
    assert!(!text_equals("#hello", "#hello "));
    assert!(!text_equals("", " "));
    assert!(text_equals("gr\u{fc}n \u{1F600}", "gr\u{fc}n \u{1F600}"));
    assert!(!text_equals("gr\u{fc}n", "grun"));
}

#[test]
fn gold_text_shows_the_amount() {
    assert_eq!(gold_text(1000), "Gold: 1000");
    assert_eq!(gold_text(0), "Gold: 0");
    assert_eq!(gold_text(-7), "Gold: -7");
}
