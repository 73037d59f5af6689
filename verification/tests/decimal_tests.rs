use timelog::decimal::{push_signed_zero_padded, push_zero_padded, push_zeros};

fn padded(n: u64, width: usize) -> String {
    let mut out = String::new();
    push_zero_padded(&mut out, n, width);
    out
}

fn signed(v: i64, width: usize) -> String {
    let mut out = String::new();
    push_signed_zero_padded(&mut out, v, width);
    out
}

#[test]
fn zeros_are_appended() {
    let mut out = String::from("ab");
    push_zeros(&mut out, 0);
    assert_eq!(out, "ab");
    push_zeros(&mut out, 3);
    assert_eq!(out, "ab000");
}

#[test]
fn padded_digits_of_small_numbers() {
    assert_eq!(padded(0, 2), "00");
    assert_eq!(padded(5, 2), "05");
    assert_eq!(padded(9, 2), "09");
    assert_eq!(padded(10, 2), "10");
    assert_eq!(padded(59, 2), "59");
    assert_eq!(padded(0, 4), "0000");
    assert_eq!(padded(7, 4), "0007");
    assert_eq!(padded(2024, 4), "2024");
}

#[test]
fn padded_digits_keep_a_number_wider_than_the_width() {
    assert_eq!(padded(100, 2), "100");
    assert_eq!(padded(12345, 4), "12345");
    assert_eq!(padded(u64::MAX, 2), "18446744073709551615");
}

#[test]
fn padded_digits_at_width_zero_and_one() {
    assert_eq!(padded(0, 0), "0");
    assert_eq!(padded(0, 1), "0");
    assert_eq!(padded(42, 0), "42");
    assert_eq!(padded(42, 1), "42");
}

#[test]
fn padded_digits_at_a_large_width() {
    assert_eq!(padded(1, 25), "0000000000000000000000001");
    assert_eq!(padded(u64::MAX, 25), "0000018446744073709551615");
}

#[test]
fn padded_digits_are_appended_to_what_is_there() {
    let mut out = String::from("x=");
    push_zero_padded(&mut out, 7, 3);
    assert_eq!(out, "x=007");
    push_signed_zero_padded(&mut out, -7, 3);
    assert_eq!(out, "x=007-07");
}

#[test]
fn padded_digits_agree_with_the_std_formatter() {
    for n in [0u64, 1, 9, 10, 11, 99, 100, 101, 999, 1000, 9999, 10000, 65535, 4294967295, u64::MAX] {
        assert_eq!(padded(n, 0), format!("{}", n));
        assert_eq!(padded(n, 2), format!("{:02}", n));
        assert_eq!(padded(n, 4), format!("{:04}", n));
        assert_eq!(padded(n, 9), format!("{:09}", n));
    }
}

#[test]
fn signed_text_counts_the_sign_in_the_width() {
    assert_eq!(signed(-5, 4), "-005");
    assert_eq!(signed(5, 4), "0005");
    assert_eq!(signed(-12345, 4), "-12345");
    assert_eq!(signed(-1, 1), "-1");
    assert_eq!(signed(-1, 0), "-1");
    assert_eq!(signed(-1, 2), "-1");
    assert_eq!(signed(-1, 3), "-01");
    assert_eq!(signed(0, 4), "0000");
}

#[test]
fn signed_text_at_the_ends_of_64_bits() {
    assert_eq!(signed(i64::MIN, 4), "-9223372036854775808");
    assert_eq!(signed(i64::MAX, 4), "9223372036854775807");
    assert_eq!(signed(i64::MIN, 25), "-000009223372036854775808");
}

#[test]
fn signed_text_agrees_with_the_std_formatter() {
    for v in [i64::MIN, -10000, -9999, -1000, -999, -100, -99, -10, -9, -1, 0, 1, 9, 10, 99, 100, 999, 1000, 9999, 10000, i64::MAX] {
        assert_eq!(signed(v, 0), format!("{}", v));
        assert_eq!(signed(v, 1), format!("{:01}", v));
        assert_eq!(signed(v, 4), format!("{:04}", v));
        assert_eq!(signed(v, 7), format!("{:07}", v));
    }
}
