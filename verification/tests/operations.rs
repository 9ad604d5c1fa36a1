use financial_ops::unchecked::operations::pow10_native;
use financial_ops::{CheckedDecimalOperations, DecimalOperations};

#[test]
fn operations_test_add_decimals() {
    let a: u64 = 1_0000;
    let a_decimals = 4;
    let b: u64 = 2_00;
    let b_decimals = 2;

    let (result, decimals) = a.add_decimals(b, a_decimals, b_decimals);
    assert_eq!(result, 3_0000);
    assert_eq!(decimals, 4);

    let a: u32 = 123_45;
    let a_decimals = 2;
    let b: u32 = 0_45;
    let b_decimals = 2;

    let (result, decimals) = a.add_decimals(b, a_decimals, b_decimals);
    assert_eq!(result, 123_90);
    assert_eq!(decimals, 2);
}

#[test]
fn operations_test_sub_decimals() {
    let a: u64 = 3_0000;
    let a_decimals = 4;
    let b: u64 = 2_00;
    let b_decimals = 2;

    let (result, decimals) = a.sub_decimals(b, a_decimals, b_decimals);
    assert_eq!(result, 1_0000);
    assert_eq!(decimals, 4);

    let a: u32 = 123_45;
    let a_decimals = 2;
    let b: u32 = 0_45;
    let b_decimals = 2;

    let (result, decimals) = a.sub_decimals(b, a_decimals, b_decimals);
    assert_eq!(result, 123_00);
    assert_eq!(decimals, 2);
}

#[test]
fn operations_test_mul_decimals() {
    let a: u64 = 3_0000;
    let a_decimals = 4;
    let b: u64 = 2_00;
    let b_decimals = 2;

    let (result, decimals) = a.multiply_decimals(b, a_decimals, b_decimals);
    assert_eq!(result, 6_000000);
    assert_eq!(decimals, 6);

    let a: u32 = 12345;
    let a_decimals = 2;
    let b: u32 = 45;
    let b_decimals = 2;

    let (result, decimals) = a.multiply_decimals(b, a_decimals, b_decimals);
    assert_eq!(result, 555525);
    assert_eq!(decimals, 4);
}

#[test]
fn operations_test_div_decimals() {
    let a: u64 = 6_0000;
    let a_decimals = 4;
    let b: u64 = 2_00;
    let b_decimals = 2;

    let (result, decimals) = a.divide_decimals(b, a_decimals, b_decimals);
    assert_eq!(result, 3_0000);
    assert_eq!(decimals, 4);

    let a: u32 = 123_45;
    let a_decimals = 2;
    let b: u32 = 0_45;
    let b_decimals = 2;

    let (result, decimals) = a.divide_decimals(b, a_decimals, b_decimals);
    assert_eq!(result, 27433);
    assert_eq!(decimals, 2);
}

#[test]
fn operations_test_rem_decimals() {
    let a: u64 = 6_0000;
    let a_decimals = 4;
    let b: u64 = 2_00;
    let b_decimals = 2;

    let (result, decimals) = a.rem_decimals(b, a_decimals, b_decimals);
    assert_eq!(result, 0);
    assert_eq!(decimals, 4);

    let a: u32 = 123_45;
    let a_decimals = 2;
    let b: u32 = 0_45;
    let b_decimals = 2;

    let (result, decimals) = a.rem_decimals(b, a_decimals, b_decimals);
    assert_eq!(result, 15);
    assert_eq!(decimals, 2);
}

#[test]
fn literal_scenarios_on_u64() {
    assert_eq!(10000u64.add_decimals(200, 4, 2), (30000, 4));
    assert_eq!(30000u64.sub_decimals(200, 4, 2), (10000, 4));
    assert_eq!(30000u64.multiply_decimals(200, 4, 2), (6000000, 6));
    assert_eq!(60000u64.divide_decimals(200, 4, 2), (30000, 4));
    assert_eq!(60000u64.rem_decimals(200, 4, 2), (0, 4));
    assert_eq!(12345u64.divide_decimals(45, 2, 2), (27433, 2));
}

#[test]
fn native_add_aligns_the_smaller_scale_on_either_side() {
    assert_eq!(200u64.add_decimals(10000, 2, 4), (30000, 4));
    assert_eq!((-150i32).add_decimals(25, 1, 2), (-1475, 2));
    assert_eq!(5i64.sub_decimals(10000, 0, 4), (40000, 4));
    assert_eq!(10000i64.sub_decimals(5, 4, 0), (-40000, 4));
}

#[test]
fn native_multiply_adds_the_scales() {
    assert_eq!((-7i16).multiply_decimals(6, 3, 9), (-42, 12));
    assert_eq!(1u8.multiply_decimals(1, u32::MAX, 0), (1, u32::MAX));
}

#[test]
fn native_divide_and_rem_keep_the_dividend_scale() {
    assert_eq!(60000u64.divide_decimals(2, 9, 0), (30000, 9));
    assert_eq!(12345u32.rem_decimals(45, 2, 4_000_000), (15, 2));
    assert_eq!(12345u32.rem_decimals(46, 0, 2), (17, 0));
    assert_eq!(12345u32.divide_decimals(46, 0, 2), (26836, 0));
}

#[test]
fn native_divide_and_rem_round_toward_zero() {
    assert_eq!((-7i32).divide_decimals(2, 0, 0), (-3, 0));
    assert_eq!(7i32.divide_decimals(-2, 0, 0), (-3, 0));
    assert_eq!((-7i32).rem_decimals(2, 0, 0), (-1, 0));
    assert_eq!(7i32.rem_decimals(-2, 0, 0), (1, 0));
}

#[test]
fn native_power_of_ten() {
    assert_eq!(pow10_native::<u8>(0), 1);
    assert_eq!(pow10_native::<u8>(2), 100);
    assert_eq!(pow10_native::<i64>(18), 1_000_000_000_000_000_000);
    assert_eq!(pow10_native::<u64>(19), 10_000_000_000_000_000_000);
}

#[test]
fn native_add_then_sub_gives_back_the_aligned_operand() {
    let (sum, scale) = 10000u64.add_decimals(200, 4, 2);
    assert_eq!(sum.sub_decimals(200, scale, 2), (10000, 4));
    let (sum, scale) = 200u64.add_decimals(10000, 2, 4);
    assert_eq!((sum, scale), (30000, 4));
    assert_eq!(sum.sub_decimals(10000, scale, 4), (20000, 4));
}

#[test]
fn engines_agree_where_nothing_overflows() {
    let cases: [(i64, u32, i64, u32); 6] = [
        (10000, 4, 200, 2),
        (200, 2, 10000, 4),
        (-12345, 2, 45, 2),
        (12345, 0, -46, 3),
        (9_000_000_000_000_000, 0, 999, 3),
        (0, 5, 1, 0),
    ];
    for (a, sa, b, sb) in cases {
        assert_eq!(a.add_decimals_checked(b, sa, sb), Ok(a.add_decimals(b, sa, sb)));
        assert_eq!(a.sub_decimals_checked(b, sa, sb), Ok(a.sub_decimals(b, sa, sb)));
        assert_eq!(a.multiply_decimals_checked(b, sa, sb), Ok(a.multiply_decimals(b, sa, sb)));
        assert_eq!(a.divide_decimals_checked(b, sa, sb), Ok(a.divide_decimals(b, sa, sb)));
        assert_eq!(a.rem_decimals_checked(b, sa, sb), Ok(a.rem_decimals(b, sa, sb)));
    }
}
