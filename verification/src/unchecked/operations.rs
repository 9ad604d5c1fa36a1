//! The native engine: scale-aligning arithmetic on the native operators.
//!
//! Nothing is checked at run time. What the checked engine reports as a
//! failure is here the caller's obligation, stated as a precondition.
use crate::arithmetic::{lemma_pow10_monotonic, pow10};
use crate::magnitude::{fits, Magnitude};
use crate::scale::{
    add_fits, add_value, div_fits, div_value, lemma_aligned_is_scaled, mul_fits, rem_fits,
    rem_value, result_scale, sub_fits, sub_value,
};
use crate::unchecked::native::NativeArithmetic;
use vstd::prelude::*;

verus! {

/// Ten to the power `exponent` as a `T`, by repeated native multiplication.
pub fn pow10_native<T: NativeArithmetic>(exponent: u32) -> (factor: T)
    requires
        fits::<T>(pow10(exponent as nat) as int),
    ensures
        factor.value() == pow10(exponent as nat),
{
    let mut power = T::from_small(1);
    let mut done: u32 = 0;
    while done < exponent
        invariant
            done <= exponent,
            power.value() == pow10(done as nat),
            fits::<T>(pow10(exponent as nat) as int),
        decreases exponent - done,
    {
        let ten = T::from_small(10);
        proof {
            T::lemma_bounds();
            assert(power.value() * 10 == pow10((done + 1) as nat));
            lemma_pow10_monotonic((done + 1) as nat, exponent as nat);
            T::lemma_native_mul(power, ten);
        }
        power = power * ten;
        done = done + 1;
    }
    power
}

/// Scale-aligning decimal arithmetic on the native operators.
///
/// Each operation takes `self` and `other` as raw magnitudes with their scales
/// and returns the result magnitude with its scale. The caller keeps every
/// step within the magnitude type's range and the divisor away from zero.
pub trait DecimalOperations: Magnitude {
    /// Adds two decimals. The operand of the smaller scale is multiplied by the
    /// power of ten that brings it to the larger scale; the result has the
    /// larger scale.
    fn add_decimals(self, other: Self, self_decimals: u32, other_decimals: u32) -> (r: (Self, u32))
        requires
            add_fits::<Self>(self.value(), other.value(), self_decimals, other_decimals),
        ensures
            r.0.value() == add_value(self.value(), other.value(), self_decimals, other_decimals),
            r.1 == result_scale(self_decimals, other_decimals),
    ;

    /// Subtracts `other` from `self` after the same alignment as in addition.
    fn sub_decimals(self, other: Self, self_decimals: u32, other_decimals: u32) -> (r: (Self, u32))
        requires
            sub_fits::<Self>(self.value(), other.value(), self_decimals, other_decimals),
        ensures
            r.0.value() == sub_value(self.value(), other.value(), self_decimals, other_decimals),
            r.1 == result_scale(self_decimals, other_decimals),
    ;

    /// Multiplies the raw magnitudes; the scales add.
    fn multiply_decimals(self, other: Self, self_decimals: u32, other_decimals: u32) -> (r: (
        Self,
        u32,
    ))
        requires
            mul_fits::<Self>(self.value(), other.value(), self_decimals, other_decimals),
        ensures
            r.0.value() == self.value() * other.value(),
            r.1 == self_decimals + other_decimals,
    ;

    /// Divides `self`, scaled up by the divisor's scale, by the divisor's raw
    /// magnitude. The quotient is rounded toward zero and keeps the scale of
    /// `self`.
    fn divide_decimals(self, other: Self, self_decimals: u32, other_decimals: u32) -> (r: (
        Self,
        u32,
    ))
        requires
            other.value() != 0,
            div_fits::<Self>(self.value(), other.value(), other_decimals),
        ensures
            r.0.value() == div_value(self.value(), other.value(), other_decimals),
            r.1 == self_decimals,
    ;

    /// Takes the remainder of `self`, scaled up by its own scale, by the
    /// divisor's raw magnitude. Unlike division this ignores `other_decimals`;
    /// the result keeps the scale of `self`.
    fn rem_decimals(self, other: Self, self_decimals: u32, other_decimals: u32) -> (r: (Self, u32))
        requires
            other.value() != 0,
            rem_fits::<Self>(self.value(), other.value(), self_decimals),
        ensures
            r.0.value() == rem_value(self.value(), other.value(), self_decimals),
            r.1 == self_decimals,
    ;
}

impl<T: NativeArithmetic> DecimalOperations for T {
    fn add_decimals(self, other: Self, self_decimals: u32, other_decimals: u32) -> (r: (Self, u32)) {
        if self_decimals > other_decimals {
            let factor = pow10_native::<T>(self_decimals - other_decimals);
            proof {
                T::lemma_native_mul(other, factor);
            }
            let scaled = other * factor;
            proof {
                T::lemma_native_add(self, scaled);
            }
            (self + scaled, self_decimals)
        } else {
            let factor = pow10_native::<T>(other_decimals - self_decimals);
            proof {
                lemma_aligned_is_scaled(self.value(), self_decimals, other_decimals);
                T::lemma_native_mul(self, factor);
            }
            let scaled = self * factor;
            proof {
                T::lemma_native_add(scaled, other);
            }
            (scaled + other, other_decimals)
        }
    }

    fn sub_decimals(self, other: Self, self_decimals: u32, other_decimals: u32) -> (r: (Self, u32)) {
        if self_decimals > other_decimals {
            let factor = pow10_native::<T>(self_decimals - other_decimals);
            proof {
                T::lemma_native_mul(other, factor);
            }
            let scaled = other * factor;
            proof {
                T::lemma_native_sub(self, scaled);
            }
            (self - scaled, self_decimals)
        } else {
            let factor = pow10_native::<T>(other_decimals - self_decimals);
            proof {
                lemma_aligned_is_scaled(self.value(), self_decimals, other_decimals);
                T::lemma_native_mul(self, factor);
            }
            let scaled = self * factor;
            proof {
                T::lemma_native_sub(scaled, other);
            }
            (scaled - other, other_decimals)
        }
    }

    fn multiply_decimals(self, other: Self, self_decimals: u32, other_decimals: u32) -> (r: (
        Self,
        u32,
    )) {
        proof {
            T::lemma_native_mul(self, other);
        }
        (self * other, self_decimals + other_decimals)
    }

    fn divide_decimals(self, other: Self, self_decimals: u32, other_decimals: u32) -> (r: (
        Self,
        u32,
    )) {
        let factor = pow10_native::<T>(other_decimals);
        proof {
            T::lemma_native_mul(self, factor);
        }
        let adjusted_value = self * factor;
        proof {
            T::lemma_native_div(adjusted_value, other);
        }
        (adjusted_value / other, self_decimals)
    }

    fn rem_decimals(self, other: Self, self_decimals: u32, other_decimals: u32) -> (r: (Self, u32)) {
        let factor = pow10_native::<T>(self_decimals);
        proof {
            T::lemma_native_mul(self, factor);
        }
        let adjusted_value = self * factor;
        proof {
            T::lemma_native_rem(adjusted_value, other);
        }
        (adjusted_value % other, self_decimals)
    }
}

} // verus!
