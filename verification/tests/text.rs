use plix::text::to_decimal;

#[test]
fn zero_is_one_digit() {
    assert_eq!(to_decimal(0), "0");
}

#[test]
fn single_digits_are_themselves() {
    assert_eq!(to_decimal(7), "7");
    assert_eq!(to_decimal(9), "9");
}

#[test]
fn tens_keep_their_zero() {
    assert_eq!(to_decimal(10), "10");
    assert_eq!(to_decimal(120), "120");
    assert_eq!(to_decimal(1001), "1001");
}

#[test]
fn the_largest_number_is_written_in_full() {
    assert_eq!(to_decimal(u64::MAX), "18446744073709551615");
}

#[test]
fn decimal_agrees_with_the_standard_library() {
    let mut n: u64 = 1;
    while n < u64::MAX / 3 {
        assert_eq!(to_decimal(n), format!("{}", n));
        n = n * 3 + 1;
    }
}
