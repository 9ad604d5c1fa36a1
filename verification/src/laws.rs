//! Laws that hold between the operations and between the two engines.
//!
//! Each law is stated over the functions that the engines' contracts use, for
//! every magnitude type and all operands and scales.
use crate::arithmetic::{pow10, trunc_div, trunc_rem};
use crate::checked::checked_operations::{
    add_outcome, div_outcome, mul_outcome, outcome_value, rem_outcome, sub_outcome,
};
use crate::error::DecimalOperationError;
use crate::magnitude::Magnitude;
use crate::scale::{
    add_fits, add_value, aligned, div_fits, div_value, lemma_aligned_is_scaled, mul_fits, rem_fits,
    rem_value, result_scale, sub_fits, sub_value,
};
use vstd::arithmetic::div_mod::lemma_fundamental_div_mod;
use vstd::prelude::*;

verus! {

/// Adding `b` and then subtracting it again, at the scale the sum came out
/// with, gives back `a` expressed at the larger of the two scales. If the
/// addition is free of overflow, so is the subtraction, and the checked engine
/// returns that value.
pub proof fn lemma_add_then_sub_restores<T: Magnitude>(
    a: T,
    b: T,
    self_decimals: u32,
    other_decimals: u32,
)
    requires
        add_fits::<T>(a.value(), b.value(), self_decimals, other_decimals),
    ensures
        ({
            let sum = add_value(a.value(), b.value(), self_decimals, other_decimals);
            let scale = result_scale(self_decimals, other_decimals);
            &&& sub_fits::<T>(sum, b.value(), scale, other_decimals)
            &&& sub_value(sum, b.value(), scale, other_decimals) == aligned(
                a.value(),
                self_decimals,
                other_decimals,
            )
            &&& aligned(a.value(), self_decimals, other_decimals) == a.value() * pow10(
                (scale - self_decimals) as nat,
            )
            &&& result_scale(scale, other_decimals) == scale
            &&& sub_outcome::<T>(sum, b.value(), scale, other_decimals) == Ok::<
                (int, u32),
                DecimalOperationError,
            >((aligned(a.value(), self_decimals, other_decimals), scale))
        }),
{
    T::lemma_bounds();
    assert(pow10(0) == 1);
    if self_decimals <= other_decimals {
        lemma_aligned_is_scaled(a.value(), self_decimals, other_decimals);
    } else {
        assert(a.value() * 1 == a.value());
    }
}

/// The scale of every result is fixed by the operands' scales alone: a sum or
/// difference has the larger scale, a product the sum of the scales, a quotient
/// or remainder the dividend's scale, whatever the divisor's scale.
pub proof fn lemma_result_scales<T: Magnitude>(
    a: T,
    b: T,
    self_decimals: u32,
    other_decimals: u32,
)
    ensures
        add_outcome::<T>(a.value(), b.value(), self_decimals, other_decimals) matches Ok(sum)
            ==> sum.1 == result_scale(self_decimals, other_decimals),
        sub_outcome::<T>(a.value(), b.value(), self_decimals, other_decimals) matches Ok(
            difference,
        ) ==> difference.1 == result_scale(self_decimals, other_decimals),
        mul_outcome::<T>(a.value(), b.value(), self_decimals, other_decimals) matches Ok(
            product,
        ) ==> product.1 == self_decimals + other_decimals,
        div_outcome::<T>(a.value(), b.value(), self_decimals, other_decimals) matches Ok(
            quotient,
        ) ==> quotient.1 == self_decimals,
        rem_outcome::<T>(a.value(), b.value(), self_decimals) matches Ok(remainder)
            ==> remainder.1 == self_decimals,
{
}

/// Where no step of an addition overflows, the checked engine returns exactly
/// the pair that the native engine returns.
pub proof fn lemma_engines_agree_on_add<T: Magnitude>(
    a: T,
    b: T,
    self_decimals: u32,
    other_decimals: u32,
    native: (T, u32),
    checked: Result<(T, u32), DecimalOperationError>,
)
    requires
        add_fits::<T>(a.value(), b.value(), self_decimals, other_decimals),
        native.0.value() == add_value(a.value(), b.value(), self_decimals, other_decimals),
        native.1 == result_scale(self_decimals, other_decimals),
        outcome_value(checked) == add_outcome::<T>(
            a.value(),
            b.value(),
            self_decimals,
            other_decimals,
        ),
    ensures
        checked == Ok::<(T, u32), DecimalOperationError>(native),
{
    T::lemma_value_injective(&checked->Ok_0.0, &native.0);
}

/// Where no step of a subtraction overflows, the checked engine returns
/// exactly the pair that the native engine returns.
pub proof fn lemma_engines_agree_on_sub<T: Magnitude>(
    a: T,
    b: T,
    self_decimals: u32,
    other_decimals: u32,
    native: (T, u32),
    checked: Result<(T, u32), DecimalOperationError>,
)
    requires
        sub_fits::<T>(a.value(), b.value(), self_decimals, other_decimals),
        native.0.value() == sub_value(a.value(), b.value(), self_decimals, other_decimals),
        native.1 == result_scale(self_decimals, other_decimals),
        outcome_value(checked) == sub_outcome::<T>(
            a.value(),
            b.value(),
            self_decimals,
            other_decimals,
        ),
    ensures
        checked == Ok::<(T, u32), DecimalOperationError>(native),
{
    T::lemma_value_injective(&checked->Ok_0.0, &native.0);
}

/// Where neither the product nor the sum of the scales overflows, the checked
/// engine returns exactly the pair that the native engine returns.
pub proof fn lemma_engines_agree_on_multiply<T: Magnitude>(
    a: T,
    b: T,
    self_decimals: u32,
    other_decimals: u32,
    native: (T, u32),
    checked: Result<(T, u32), DecimalOperationError>,
)
    requires
        mul_fits::<T>(a.value(), b.value(), self_decimals, other_decimals),
        native.0.value() == a.value() * b.value(),
        native.1 == self_decimals + other_decimals,
        outcome_value(checked) == mul_outcome::<T>(
            a.value(),
            b.value(),
            self_decimals,
            other_decimals,
        ),
    ensures
        checked == Ok::<(T, u32), DecimalOperationError>(native),
{
    T::lemma_value_injective(&checked->Ok_0.0, &native.0);
}

/// Where the divisor is not zero and no step of a division overflows, the
/// checked engine returns exactly the pair that the native engine returns.
pub proof fn lemma_engines_agree_on_divide<T: Magnitude>(
    a: T,
    b: T,
    self_decimals: u32,
    other_decimals: u32,
    native: (T, u32),
    checked: Result<(T, u32), DecimalOperationError>,
)
    requires
        b.value() != 0,
        div_fits::<T>(a.value(), b.value(), other_decimals),
        native.0.value() == div_value(a.value(), b.value(), other_decimals),
        native.1 == self_decimals,
        outcome_value(checked) == div_outcome::<T>(
            a.value(),
            b.value(),
            self_decimals,
            other_decimals,
        ),
    ensures
        checked == Ok::<(T, u32), DecimalOperationError>(native),
{
    T::lemma_value_injective(&checked->Ok_0.0, &native.0);
}

/// Where the divisor is not zero and no step of a remainder overflows, the
/// checked engine returns exactly the pair that the native engine returns.
pub proof fn lemma_engines_agree_on_rem<T: Magnitude>(
    a: T,
    b: T,
    self_decimals: u32,
    native: (T, u32),
    checked: Result<(T, u32), DecimalOperationError>,
)
    requires
        b.value() != 0,
        rem_fits::<T>(a.value(), b.value(), self_decimals),
        native.0.value() == rem_value(a.value(), b.value(), self_decimals),
        native.1 == self_decimals,
        outcome_value(checked) == rem_outcome::<T>(a.value(), b.value(), self_decimals),
    ensures
        checked == Ok::<(T, u32), DecimalOperationError>(native),
{
    T::lemma_value_injective(&checked->Ok_0.0, &native.0);
}

/// Division rounds toward zero consistently: the quotient and the remainder
/// recompose the dividend.
pub proof fn lemma_quotient_and_remainder_recompose(a: int, b: int)
    requires
        b != 0,
    ensures
        a == b * trunc_div(a, b) + trunc_rem(a, b),
{
    if a >= 0 {
        lemma_fundamental_div_mod(a, b);
    } else {
        lemma_fundamental_div_mod(-a, b);
        let q = (-a) / b;
        assert(b * (-q) == -(b * q)) by (nonlinear_arith);
    }
}

/// A zero divisor is reported as a division by zero, for every dividend and
/// all scales, also where scaling the dividend would overflow.
pub proof fn lemma_zero_divisor_is_reported<T: Magnitude>(
    a: T,
    b: T,
    self_decimals: u32,
    other_decimals: u32,
)
    requires
        b.value() == 0,
    ensures
        div_outcome::<T>(a.value(), b.value(), self_decimals, other_decimals) == Err::<
            (int, u32),
            DecimalOperationError,
        >(DecimalOperationError::DivisionByZero),
        rem_outcome::<T>(a.value(), b.value(), self_decimals) == Err::<
            (int, u32),
            DecimalOperationError,
        >(DecimalOperationError::DivisionByZero),
{
}

/// Whenever the native operation is out of its contract because a step does
/// not fit, the checked operation reports an overflow; it never returns a
/// value. For division and remainder this is said of a non-zero divisor.
pub proof fn lemma_overflow_is_reported<T: Magnitude>(
    a: T,
    b: T,
    self_decimals: u32,
    other_decimals: u32,
)
    ensures
        !add_fits::<T>(a.value(), b.value(), self_decimals, other_decimals) ==> add_outcome::<T>(
            a.value(),
            b.value(),
            self_decimals,
            other_decimals,
        ) == Err::<(int, u32), DecimalOperationError>(DecimalOperationError::Overflow),
        !sub_fits::<T>(a.value(), b.value(), self_decimals, other_decimals) ==> sub_outcome::<T>(
            a.value(),
            b.value(),
            self_decimals,
            other_decimals,
        ) == Err::<(int, u32), DecimalOperationError>(DecimalOperationError::Overflow),
        !mul_fits::<T>(a.value(), b.value(), self_decimals, other_decimals) ==> mul_outcome::<T>(
            a.value(),
            b.value(),
            self_decimals,
            other_decimals,
        ) == Err::<(int, u32), DecimalOperationError>(DecimalOperationError::Overflow),
        b.value() != 0 && !div_fits::<T>(a.value(), b.value(), other_decimals) ==> div_outcome::<T>(
            a.value(),
            b.value(),
            self_decimals,
            other_decimals,
        ) == Err::<(int, u32), DecimalOperationError>(DecimalOperationError::Overflow),
        b.value() != 0 && !rem_fits::<T>(a.value(), b.value(), self_decimals) ==> rem_outcome::<T>(
            a.value(),
            b.value(),
            self_decimals,
        ) == Err::<(int, u32), DecimalOperationError>(DecimalOperationError::Overflow),
{
}

} // verus!
