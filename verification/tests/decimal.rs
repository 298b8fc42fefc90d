use news_scraper::decimal::{decimal_len, push_decimal, push_zero_padded, to_decimal, to_zero_padded};

#[test]
fn decimal_of_small_and_large_numbers() {
    assert_eq!(to_decimal(0), "0");
    assert_eq!(to_decimal(7), "7");
    assert_eq!(to_decimal(10), "10");
    assert_eq!(to_decimal(2024), "2024");
    assert_eq!(to_decimal(1_000_000), "1000000");
    assert_eq!(to_decimal(u64::MAX), "18446744073709551615");
}

#[test]
fn decimal_agrees_with_std() {
    for n in (0..5000u64).chain([9_999, 10_000, 99_999, 100_000, u64::MAX - 1, u64::MAX]) {
        assert_eq!(to_decimal(n), n.to_string());
    }
}

#[test]
fn decimal_len_counts_digits() {
    assert_eq!(decimal_len(0), 1);
    assert_eq!(decimal_len(9), 1);
    assert_eq!(decimal_len(10), 2);
    assert_eq!(decimal_len(99), 2);
    assert_eq!(decimal_len(100), 3);
    assert_eq!(decimal_len(u64::MAX), 20);
}

#[test]
fn zero_padded_fills_up_to_the_width() {
    assert_eq!(to_zero_padded(5, 2), "05");
    assert_eq!(to_zero_padded(0, 2), "00");
    assert_eq!(to_zero_padded(59, 2), "59");
    assert_eq!(to_zero_padded(7, 4), "0007");
    assert_eq!(to_zero_padded(0, 4), "0000");
    assert_eq!(to_zero_padded(2024, 4), "2024");
}

#[test]
fn zero_padded_never_cuts_digits() {
    assert_eq!(to_zero_padded(123, 2), "123");
    assert_eq!(to_zero_padded(12345, 4), "12345");
    assert_eq!(to_zero_padded(0, 0), "0");
    assert_eq!(to_zero_padded(42, 1), "42");
}

#[test]
fn zero_padded_agrees_with_std() {
    for n in [0u64, 1, 9, 10, 99, 100, 999, 1000, 9999, 10_000, 123_456] {
        assert_eq!(to_zero_padded(n, 2), format!("{n:02}"));
        assert_eq!(to_zero_padded(n, 4), format!("{n:04}"));
        assert_eq!(to_zero_padded(n, 7), format!("{n:07}"));
    }
}

#[test]
fn pushing_appends_and_keeps_what_was_there() {
    let mut out = String::from("n=");
    push_decimal(&mut out, 305);
    assert_eq!(out, "n=305");
    push_zero_padded(&mut out, 4, 3);
    assert_eq!(out, "n=305004");
}
