use financial_ops::helpers::pad_to_width::byte_len;
use financial_ops::helpers::to_string_decimals::{decimal_string, render_decimal, split_at_scale};
use financial_ops::{PadToWidth, ToStringDecimals};

#[test]
fn test_pad_to_width() {
    let string = String::from("Hello");
    assert_eq!(string.pad_to_width(10, '-'), "-----Hello");

    let string = String::from("World");
    assert_eq!(string.pad_to_width(5, '*'), "World");

    let string = String::from("Rust");
    assert_eq!(string.pad_to_width(7, '#'), "###Rust");

    let string = String::from("Programming");
    assert_eq!(string.pad_to_width(15, '+'), "++++Programming");
}

#[test]
fn test_to_string_decimals() {
    // Test with positive integer value
    let value1: u32 = 123456789;
    assert_eq!(value1.to_string_decimals(2), "1234567.89");

    // Test with zero value
    let value4: u32 = 0;
    assert_eq!(value4.to_string_decimals(5), "0.00000");
}

#[test]
fn pad_to_width_leaves_a_wide_string_alone() {
    assert_eq!(String::from("Hello").pad_to_width(0, '-'), "Hello");
    assert_eq!(String::from("Hello").pad_to_width(4, '-'), "Hello");
    assert_eq!(String::new().pad_to_width(0, '-'), "");
    assert_eq!(String::new().pad_to_width(3, '-'), "---");
}

#[test]
fn pad_to_width_counts_bytes() {
    // 'é' takes two bytes: the width is reached or passed, never missed.
    assert_eq!(String::from("ab").pad_to_width(6, 'é'), "ééab");
    assert_eq!(String::from("ab").pad_to_width(5, 'é'), "ééab");
    assert_eq!(String::from("é").pad_to_width(4, '-'), "--é");
    assert_eq!(String::from("a").pad_to_width(2, '€'), "€a");
}

#[test]
fn byte_len_is_the_encoded_length() {
    assert_eq!(byte_len(&String::from("")), 0);
    assert_eq!(byte_len(&String::from("abc")), 3);
    assert_eq!(byte_len(&String::from("é€")), 5);
}

#[test]
fn decimal_string_writes_the_digits() {
    assert_eq!(decimal_string(0), "0");
    assert_eq!(decimal_string(7), "7");
    assert_eq!(decimal_string(10), "10");
    assert_eq!(decimal_string(9876543210), "9876543210");
    assert_eq!(decimal_string(u64::MAX), "18446744073709551615");
}

#[test]
fn split_at_scale_divides_by_the_power_of_ten() {
    assert_eq!(split_at_scale(123456789, 2), (1234567, 89));
    assert_eq!(split_at_scale(123456789, 0), (123456789, 0));
    assert_eq!(split_at_scale(123456789, 8), (1, 23456789));
    assert_eq!(split_at_scale(123456789, 9), (0, 123456789));
    assert_eq!(split_at_scale(123456789, u32::MAX), (0, 123456789));
    assert_eq!(split_at_scale(100, 2), (1, 0));
    assert_eq!(split_at_scale(0, 3), (0, 0));
    assert_eq!(split_at_scale(u64::MAX, 19), (1, 8446744073709551615));
    assert_eq!(split_at_scale(u64::MAX, 20), (0, u64::MAX));
}

#[test]
fn render_decimal_fills_the_fraction_with_zeros() {
    assert_eq!(render_decimal(1005, 2), "10.05");
    assert_eq!(render_decimal(5, 3), "0.005");
    assert_eq!(render_decimal(5, 0), "5.0");
    assert_eq!(render_decimal(0, 0), "0.0");
    assert_eq!(render_decimal(u64::MAX, 4), "1844674407370955.1615");
    assert_eq!(render_decimal(42, 12), "0.000000000042");
}

#[test]
fn to_string_decimals_on_every_width() {
    assert_eq!(255u8.to_string_decimals(1), "25.5");
    assert_eq!(65535u16.to_string_decimals(3), "65.535");
    assert_eq!(u32::MAX.to_string_decimals(9), "4.294967295");
    assert_eq!(127i8.to_string_decimals(2), "1.27");
    assert_eq!(12345i16.to_string_decimals(4), "1.2345");
    assert_eq!(i32::MAX.to_string_decimals(0), "2147483647.0");
}

#[test]
fn to_string_decimals_reads_a_negative_magnitude_as_zero() {
    assert_eq!((-12345i32).to_string_decimals(2), "0.00");
    assert_eq!((-1i8).to_string_decimals(0), "0.0");
    assert_eq!(i16::MIN.to_string_decimals(3), "0.000");
}
