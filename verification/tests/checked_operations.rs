use financial_ops::{CheckedDecimalOperations, DecimalOperationError};

#[test]
fn checked_operations_test_add_decimals() {
    let a: u64 = 1_0000;
    let a_decimals = 4;
    let b: u64 = 2_00;
    let b_decimals = 2;

    let (result, decimals) = a.add_decimals_checked(b, a_decimals, b_decimals).unwrap();
    assert_eq!(result, 3_0000);
    assert_eq!(decimals, 4);

    let a: u32 = 123_45;
    let a_decimals = 2;
    let b: u32 = 0_45;
    let b_decimals = 2;

    let (result, decimals) = a.add_decimals_checked(b, a_decimals, b_decimals).unwrap();
    assert_eq!(result, 123_90);
    assert_eq!(decimals, 2);
}

#[test]
fn checked_operations_test_sub_decimals() {
    let a: u64 = 3_0000;
    let a_decimals = 4;
    let b: u64 = 2_00;
    let b_decimals = 2;

    let (result, decimals) = a.sub_decimals_checked(b, a_decimals, b_decimals).unwrap();
    assert_eq!(result, 1_0000);
    assert_eq!(decimals, 4);

    let a: u32 = 123_45;
    let a_decimals = 2;
    let b: u32 = 0_45;
    let b_decimals = 2;

    let (result, decimals) = a.sub_decimals_checked(b, a_decimals, b_decimals).unwrap();
    assert_eq!(result, 123_00);
    assert_eq!(decimals, 2);
}

#[test]
fn checked_operations_test_mul_decimals() {
    let a: u64 = 3_0000;
    let a_decimals = 4;
    let b: u64 = 2_00;
    let b_decimals = 2;

    let (result, decimals) = a.multiply_decimals_checked(b, a_decimals, b_decimals).unwrap();
    assert_eq!(result, 6_000000);
    assert_eq!(decimals, 6);

    let a: u32 = 12345;
    let a_decimals = 2;
    let b: u32 = 45;
    let b_decimals = 2;

    let (result, decimals) = a.multiply_decimals_checked(b, a_decimals, b_decimals).unwrap();
    assert_eq!(result, 555525);
    assert_eq!(decimals, 4);
}

#[test]
fn checked_operations_test_div_decimals() {
    let a: u64 = 6_0000;
    let a_decimals = 4;
    let b: u64 = 2_00;
    let b_decimals = 2;

    let (result, decimals) = a.divide_decimals_checked(b, a_decimals, b_decimals).unwrap();
    assert_eq!(result, 3_0000);
    assert_eq!(decimals, 4);

    let a: u32 = 123_45;
    let a_decimals = 2;
    let b: u32 = 0_45;
    let b_decimals = 2;

    let (result, decimals) = a.divide_decimals_checked(b, a_decimals, b_decimals).unwrap();
    assert_eq!(result, 27433);
    assert_eq!(decimals, 2);
}

#[test]
fn checked_operations_test_rem_decimals() {
    let a: u64 = 6_0000;
    let a_decimals = 4;
    let b: u64 = 2_00;
    let b_decimals = 2;

    let (result, decimals) = a.rem_decimals_checked(b, a_decimals, b_decimals).unwrap();
    assert_eq!(result, 0);
    assert_eq!(decimals, 4);

    let a: u32 = 123_45;
    let a_decimals = 2;
    let b: u32 = 0_45;
    let b_decimals = 2;

    let (result, decimals) = a.rem_decimals_checked(b, a_decimals, b_decimals).unwrap();
    assert_eq!(result, 15);
    assert_eq!(decimals, 2);
}

#[test]
fn checked_add_aligns_the_smaller_scale_on_either_side() {
    assert_eq!(200u64.add_decimals_checked(10000, 2, 4), Ok((30000, 4)));
    assert_eq!(10000u64.add_decimals_checked(200, 4, 2), Ok((30000, 4)));
    assert_eq!((-150i32).add_decimals_checked(25, 1, 2), Ok((-1475, 2)));
}

#[test]
fn checked_sub_aligns_the_smaller_scale_on_either_side() {
    assert_eq!(5i64.sub_decimals_checked(10000, 0, 4), Ok((40000, 4)));
    assert_eq!(10000i64.sub_decimals_checked(5, 4, 0), Ok((-40000, 4)));
}

#[test]
fn checked_add_reports_overflow_of_the_sum() {
    assert_eq!(200u8.add_decimals_checked(100, 0, 0), Err(DecimalOperationError::Overflow));
    assert_eq!(i64::MAX.add_decimals_checked(1, 3, 3), Err(DecimalOperationError::Overflow));
    assert_eq!(i64::MIN.add_decimals_checked(-1, 3, 3), Err(DecimalOperationError::Overflow));
    assert_eq!(255u8.add_decimals_checked(0, 0, 0), Ok((255, 0)));
}

#[test]
fn checked_add_reports_overflow_of_the_scaled_operand() {
    assert_eq!(26u8.add_decimals_checked(0, 0, 1), Err(DecimalOperationError::Overflow));
    assert_eq!(25u8.add_decimals_checked(5, 0, 1), Ok((255, 1)));
    assert_eq!(0u8.add_decimals_checked(26, 1, 0), Err(DecimalOperationError::Overflow));
}

#[test]
fn checked_sub_reports_overflow_of_an_intermediate_step() {
    // 30 * 10 does not fit a u8 although 300 - 100 would.
    assert_eq!(30u8.sub_decimals_checked(100, 0, 1), Err(DecimalOperationError::Overflow));
    assert_eq!(1u32.sub_decimals_checked(2, 0, 0), Err(DecimalOperationError::Overflow));
    assert_eq!(i8::MIN.sub_decimals_checked(1, 0, 0), Err(DecimalOperationError::Overflow));
}

#[test]
fn checked_operations_report_a_scale_factor_that_does_not_fit() {
    assert_eq!(0u8.add_decimals_checked(0, 0, 3), Err(DecimalOperationError::Overflow));
    assert_eq!(0u64.add_decimals_checked(0, 0, 20), Err(DecimalOperationError::Overflow));
    assert_eq!(0u64.sub_decimals_checked(0, u32::MAX, 0), Err(DecimalOperationError::Overflow));
    assert_eq!(0i32.divide_decimals_checked(1, 0, 10), Err(DecimalOperationError::Overflow));
    assert_eq!(0i32.rem_decimals_checked(1, 10, 0), Err(DecimalOperationError::Overflow));
}

#[test]
fn checked_operations_take_every_factor_the_type_can_hold() {
    assert_eq!(1u64.add_decimals_checked(0, 0, 15), Ok((1_000_000_000_000_000, 15)));
    assert_eq!(1u64.add_decimals_checked(0, 0, 19), Ok((10_000_000_000_000_000_000, 19)));
    assert_eq!(
        1u128.divide_decimals_checked(1, 0, 38),
        Ok((100_000_000_000_000_000_000_000_000_000_000_000_000, 0))
    );
    assert_eq!(1i8.add_decimals_checked(0, 0, 2), Ok((100, 2)));
}

#[test]
fn checked_multiply_adds_the_scales() {
    assert_eq!(7u16.multiply_decimals_checked(6, 0, 0), Ok((42, 0)));
    assert_eq!((-7i16).multiply_decimals_checked(6, 3, 9), Ok((-42, 12)));
    assert_eq!(1u8.multiply_decimals_checked(1, u32::MAX, 0), Ok((1, u32::MAX)));
}

#[test]
fn checked_multiply_reports_overflow() {
    assert_eq!(16u8.multiply_decimals_checked(16, 0, 0), Err(DecimalOperationError::Overflow));
    assert_eq!(i32::MIN.multiply_decimals_checked(-1, 0, 0), Err(DecimalOperationError::Overflow));
    assert_eq!(1u8.multiply_decimals_checked(1, u32::MAX, 1), Err(DecimalOperationError::Overflow));
}

#[test]
fn checked_divide_by_zero_is_reported_for_any_dividend_and_scale() {
    assert_eq!(60000u64.divide_decimals_checked(0, 4, 2), Err(DecimalOperationError::DivisionByZero));
    assert_eq!(0u64.divide_decimals_checked(0, 0, 0), Err(DecimalOperationError::DivisionByZero));
    assert_eq!(u64::MAX.divide_decimals_checked(0, 7, 9), Err(DecimalOperationError::DivisionByZero));
    assert_eq!(i8::MIN.divide_decimals_checked(0, 0, u32::MAX), Err(DecimalOperationError::DivisionByZero));
}

#[test]
fn checked_rem_by_zero_is_reported_for_any_dividend_and_scale() {
    assert_eq!(60000u64.rem_decimals_checked(0, 4, 2), Err(DecimalOperationError::DivisionByZero));
    assert_eq!(u64::MAX.rem_decimals_checked(0, 9, 0), Err(DecimalOperationError::DivisionByZero));
    assert_eq!(i8::MIN.rem_decimals_checked(0, u32::MAX, 0), Err(DecimalOperationError::DivisionByZero));
}

#[test]
fn checked_divide_keeps_the_dividend_scale() {
    assert_eq!(60000u64.divide_decimals_checked(200, 4, 2), Ok((30000, 4)));
    assert_eq!(60000u64.divide_decimals_checked(2, 4, 0), Ok((30000, 4)));
    assert_eq!(60000u64.divide_decimals_checked(2, 9, 0), Ok((30000, 9)));
}

#[test]
fn checked_divide_rounds_toward_zero() {
    assert_eq!(12345u64.divide_decimals_checked(45, 2, 2), Ok((27433, 2)));
    assert_eq!((-7i32).divide_decimals_checked(2, 0, 0), Ok((-3, 0)));
    assert_eq!(7i32.divide_decimals_checked(-2, 0, 0), Ok((-3, 0)));
    assert_eq!((-7i32).divide_decimals_checked(-2, 0, 0), Ok((3, 0)));
}

#[test]
fn checked_divide_reports_overflow() {
    assert_eq!(26u8.divide_decimals_checked(1, 0, 1), Err(DecimalOperationError::Overflow));
    assert_eq!(i8::MIN.divide_decimals_checked(-1, 0, 0), Err(DecimalOperationError::Overflow));
    assert_eq!(i64::MIN.divide_decimals_checked(-1, 5, 0), Err(DecimalOperationError::Overflow));
}

#[test]
fn checked_rem_scales_by_its_own_scale_and_ignores_the_other() {
    // 12345 * 10^2 = 1234500 = 45 * 27433 + 15
    assert_eq!(12345u32.rem_decimals_checked(45, 2, 2), Ok((15, 2)));
    assert_eq!(12345u32.rem_decimals_checked(45, 2, 0), Ok((15, 2)));
    assert_eq!(12345u32.rem_decimals_checked(45, 2, 4_000_000), Ok((15, 2)));
    // at scale 0 the dividend is taken as it is: 12345 = 45 * 274 + 15
    assert_eq!(12345u32.rem_decimals_checked(46, 0, 2), Ok((17, 0)));
    // while division scales by the divisor's scale
    assert_eq!(12345u32.divide_decimals_checked(46, 0, 2), Ok((26836, 0)));
}

#[test]
fn checked_rem_carries_the_sign_of_the_dividend() {
    assert_eq!((-7i32).rem_decimals_checked(2, 0, 0), Ok((-1, 0)));
    assert_eq!(7i32.rem_decimals_checked(-2, 0, 0), Ok((1, 0)));
    assert_eq!((-7i32).rem_decimals_checked(-2, 0, 0), Ok((-1, 0)));
}

#[test]
fn checked_rem_reports_overflow() {
    assert_eq!(26u8.rem_decimals_checked(7, 1, 0), Err(DecimalOperationError::Overflow));
    assert_eq!(i8::MIN.rem_decimals_checked(-1, 0, 0), Err(DecimalOperationError::Overflow));
}

#[test]
fn checked_add_then_sub_gives_back_the_aligned_operand() {
    let cases: [(i64, u32, i64, u32); 4] =
        [(10000, 4, 200, 2), (200, 2, 10000, 4), (-5, 0, 75, 3), (123, 3, -456, 3)];
    for (a, sa, b, sb) in cases {
        let (sum, scale) = a.add_decimals_checked(b, sa, sb).unwrap();
        assert_eq!(scale, sa.max(sb));
        let (back, back_scale) = sum.sub_decimals_checked(b, scale, sb).unwrap();
        assert_eq!(back_scale, scale);
        assert_eq!(back, a * 10i64.pow(scale - sa));
    }
}

#[test]
fn checked_operations_work_on_every_width() {
    assert_eq!(1u8.add_decimals_checked(2, 1, 0), Ok((21, 1)));
    assert_eq!(1u16.add_decimals_checked(2, 1, 0), Ok((21, 1)));
    assert_eq!(1u32.add_decimals_checked(2, 1, 0), Ok((21, 1)));
    assert_eq!(1u64.add_decimals_checked(2, 1, 0), Ok((21, 1)));
    assert_eq!(1u128.add_decimals_checked(2, 1, 0), Ok((21, 1)));
    assert_eq!(1usize.add_decimals_checked(2, 1, 0), Ok((21, 1)));
    assert_eq!(1i8.add_decimals_checked(2, 1, 0), Ok((21, 1)));
    assert_eq!(1i16.add_decimals_checked(2, 1, 0), Ok((21, 1)));
    assert_eq!(1i32.add_decimals_checked(2, 1, 0), Ok((21, 1)));
    assert_eq!(1i64.add_decimals_checked(2, 1, 0), Ok((21, 1)));
    assert_eq!(1i128.add_decimals_checked(2, 1, 0), Ok((21, 1)));
    assert_eq!(1isize.add_decimals_checked(2, 1, 0), Ok((21, 1)));
}
