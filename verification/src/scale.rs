//! What each decimal operation computes, over unbounded integers, and when
//! every step of it fits a magnitude type.
//!
//! Both engines are specified by these functions: the native engine demands
//! the `*_fits` predicate of its caller, the checked engine tests it.
use crate::arithmetic::{pow10, trunc_div, trunc_rem};
use crate::magnitude::{fits, Magnitude};
use vstd::prelude::*;

verus! {

/// The scale of a sum or difference: the larger of the two operand scales.
pub open spec fn result_scale(self_decimals: u32, other_decimals: u32) -> u32 {
    if self_decimals > other_decimals {
        self_decimals
    } else {
        other_decimals
    }
}

/// How many decimal places lie between the two scales.
pub open spec fn scale_gap(self_decimals: u32, other_decimals: u32) -> nat {
    if self_decimals > other_decimals {
        (self_decimals - other_decimals) as nat
    } else {
        (other_decimals - self_decimals) as nat
    }
}

/// The magnitude `x` of scale `own`, expressed at the larger of `own` and
/// `other`: unchanged if `own` is the larger, else multiplied by ten for every
/// decimal place it lacks.
pub open spec fn aligned(x: int, own: u32, other: u32) -> int {
    if own < other {
        x * pow10((other - own) as nat)
    } else {
        x
    }
}

/// The sum of two magnitudes after alignment to the larger scale.
pub open spec fn add_value(a: int, b: int, self_decimals: u32, other_decimals: u32) -> int {
    aligned(a, self_decimals, other_decimals) + aligned(b, other_decimals, self_decimals)
}

/// The difference of two magnitudes after alignment to the larger scale.
pub open spec fn sub_value(a: int, b: int, self_decimals: u32, other_decimals: u32) -> int {
    aligned(a, self_decimals, other_decimals) - aligned(b, other_decimals, self_decimals)
}

/// The quotient of a division: the dividend takes up the divisor's scale, then
/// is divided by the divisor's raw magnitude, rounding toward zero.
pub open spec fn div_value(a: int, b: int, other_decimals: u32) -> int {
    trunc_div(a * pow10(other_decimals as nat), b)
}

/// The remainder: the dividend is scaled up by its own scale (the divisor's
/// scale plays no part), then reduced by the divisor's raw magnitude.
pub open spec fn rem_value(a: int, b: int, self_decimals: u32) -> int {
    trunc_rem(a * pow10(self_decimals as nat), b)
}

/// Every step of an addition is representable in `T`: the alignment factor,
/// both aligned operands and their sum.
pub open spec fn add_fits<T: Magnitude>(
    a: int,
    b: int,
    self_decimals: u32,
    other_decimals: u32,
) -> bool {
    &&& fits::<T>(pow10(scale_gap(self_decimals, other_decimals)) as int)
    &&& fits::<T>(aligned(a, self_decimals, other_decimals))
    &&& fits::<T>(aligned(b, other_decimals, self_decimals))
    &&& fits::<T>(add_value(a, b, self_decimals, other_decimals))
}

/// Every step of a subtraction is representable in `T`: the alignment factor,
/// both aligned operands and their difference.
pub open spec fn sub_fits<T: Magnitude>(
    a: int,
    b: int,
    self_decimals: u32,
    other_decimals: u32,
) -> bool {
    &&& fits::<T>(pow10(scale_gap(self_decimals, other_decimals)) as int)
    &&& fits::<T>(aligned(a, self_decimals, other_decimals))
    &&& fits::<T>(aligned(b, other_decimals, self_decimals))
    &&& fits::<T>(sub_value(a, b, self_decimals, other_decimals))
}

/// A multiplication is representable: the product fits `T` and the sum of the
/// scales fits a `u32`.
pub open spec fn mul_fits<T: Magnitude>(
    a: int,
    b: int,
    self_decimals: u32,
    other_decimals: u32,
) -> bool {
    &&& fits::<T>(a * b)
    &&& self_decimals + other_decimals <= u32::MAX
}

/// Every step of a division by the non-zero `b` is representable in `T`: the
/// factor, the scaled dividend and the quotient.
pub open spec fn div_fits<T: Magnitude>(a: int, b: int, other_decimals: u32) -> bool {
    &&& fits::<T>(pow10(other_decimals as nat) as int)
    &&& fits::<T>(a * pow10(other_decimals as nat))
    &&& fits::<T>(div_value(a, b, other_decimals))
}

/// Every step of a remainder by the non-zero `b` is representable in `T`: the
/// factor, the scaled dividend and the quotient of the division that the
/// remainder belongs to.
pub open spec fn rem_fits<T: Magnitude>(a: int, b: int, self_decimals: u32) -> bool {
    &&& fits::<T>(pow10(self_decimals as nat) as int)
    &&& fits::<T>(a * pow10(self_decimals as nat))
    &&& fits::<T>(trunc_div(a * pow10(self_decimals as nat), b))
}

/// Aligning a magnitude whose scale is not the larger one multiplies it by the
/// power of ten of the gap, also where the gap is zero and the factor one.
pub proof fn lemma_aligned_is_scaled(x: int, own: u32, other: u32)
    requires
        own <= other,
    ensures
        aligned(x, own, other) == x * pow10((other - own) as nat),
{
    if own == other {
        assert(pow10(0) == 1);
        assert(x * 1 == x);
    }
}

} // verus!
