use strat_sdk::text::{decimal_string, is_decimal};

#[test]
fn decimal_string_of_small_numbers() {
    assert_eq!(decimal_string(0), "0");
    assert_eq!(decimal_string(7), "7");
    assert_eq!(decimal_string(9), "9");
    assert_eq!(decimal_string(10), "10");
    assert_eq!(decimal_string(404), "404");
    assert_eq!(decimal_string(1000), "1000");
}

#[test]
fn decimal_string_of_large_numbers() {
    assert_eq!(decimal_string(4294967295), "4294967295");
    assert_eq!(decimal_string(18446744073709551615), "18446744073709551615");
    assert_eq!(decimal_string(1000000000000000000), "1000000000000000000");
}

#[test]
fn decimal_string_agrees_with_std() {
    let samples: [u64; 8] = [0, 1, 12, 99, 100, 65535, 4294967296, 9007199254740993];
    for n in samples {
        assert_eq!(decimal_string(n), n.to_string());
    }
}

#[test]
fn is_decimal_accepts_digits_only() {
    assert!(is_decimal("0"));
    assert!(is_decimal("42"));
    assert!(is_decimal("0123456789"));
    assert!(!is_decimal("12a"));
    assert!(!is_decimal("a12"));
    assert!(!is_decimal("-1"));
    assert!(!is_decimal("1.5"));
    assert!(!is_decimal(" 1"));
    assert!(!is_decimal("0x10"));
}

#[test]
fn is_decimal_accepts_the_empty_string() {
    assert!(is_decimal(""));
}

#[test]
fn is_decimal_rejects_numerals_outside_ascii() {
    assert!(!is_decimal("\u{0663}"));
    assert!(!is_decimal("\u{00bd}"));
    assert!(!is_decimal("12\u{2167}"));
}
