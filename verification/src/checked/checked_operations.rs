//! The checked engine: scale-aligning arithmetic in which every step goes
//! through a checked primitive and a failure is reported, never wrapped.
use crate::arithmetic::{lemma_pow10_monotonic, pow10};
use crate::checked::helper_traits::{CheckedAdd, CheckedDiv, CheckedMul, CheckedRem, CheckedSub};
use crate::error::DecimalOperationError;
use crate::magnitude::{fits, Magnitude};
use crate::scale::{
    add_fits, add_value, div_fits, div_value, lemma_aligned_is_scaled, mul_fits, rem_fits,
    rem_value, result_scale, sub_fits, sub_value,
};
use vstd::prelude::*;

verus! {

/// The outcome of a checked operation over unbounded integers: the magnitude's
/// value and the scale, or the failure.
pub type Outcome = Result<(int, u32), DecimalOperationError>;

/// What a checked operation returned, with the magnitude seen as the integer it
/// holds.
pub open spec fn outcome_value<T: Magnitude>(
    r: Result<(T, u32), DecimalOperationError>,
) -> Outcome {
    match r {
        Ok((magnitude, decimals)) => Ok((magnitude.value(), decimals)),
        Err(e) => Err(e),
    }
}

/// Checked addition: the aligned sum at the larger scale if every step fits
/// `T`, an overflow otherwise.
pub open spec fn add_outcome<T: Magnitude>(
    a: int,
    b: int,
    self_decimals: u32,
    other_decimals: u32,
) -> Outcome {
    if add_fits::<T>(a, b, self_decimals, other_decimals) {
        Ok(
            (
                add_value(a, b, self_decimals, other_decimals),
                result_scale(self_decimals, other_decimals),
            ),
        )
    } else {
        Err(DecimalOperationError::Overflow)
    }
}

/// Checked subtraction: the aligned difference at the larger scale if every
/// step fits `T`, an overflow otherwise.
pub open spec fn sub_outcome<T: Magnitude>(
    a: int,
    b: int,
    self_decimals: u32,
    other_decimals: u32,
) -> Outcome {
    if sub_fits::<T>(a, b, self_decimals, other_decimals) {
        Ok(
            (
                sub_value(a, b, self_decimals, other_decimals),
                result_scale(self_decimals, other_decimals),
            ),
        )
    } else {
        Err(DecimalOperationError::Overflow)
    }
}

/// Checked multiplication: the raw product at the sum of the scales if both
/// fit, an overflow otherwise.
pub open spec fn mul_outcome<T: Magnitude>(
    a: int,
    b: int,
    self_decimals: u32,
    other_decimals: u32,
) -> Outcome {
    if mul_fits::<T>(a, b, self_decimals, other_decimals) {
        Ok((a * b, (self_decimals + other_decimals) as u32))
    } else {
        Err(DecimalOperationError::Overflow)
    }
}

/// Checked division: a zero divisor is reported before anything else; then the
/// quotient at the dividend's scale if every step fits `T`, an overflow
/// otherwise.
pub open spec fn div_outcome<T: Magnitude>(
    a: int,
    b: int,
    self_decimals: u32,
    other_decimals: u32,
) -> Outcome {
    if b == 0 {
        Err(DecimalOperationError::DivisionByZero)
    } else if div_fits::<T>(a, b, other_decimals) {
        Ok((div_value(a, b, other_decimals), self_decimals))
    } else {
        Err(DecimalOperationError::Overflow)
    }
}

/// Checked remainder: a zero divisor is reported before anything else; then
/// the remainder at the dividend's scale if every step fits `T`, an overflow
/// otherwise.
pub open spec fn rem_outcome<T: Magnitude>(a: int, b: int, self_decimals: u32) -> Outcome {
    if b == 0 {
        Err(DecimalOperationError::DivisionByZero)
    } else if rem_fits::<T>(a, b, self_decimals) {
        Ok((rem_value(a, b, self_decimals), self_decimals))
    } else {
        Err(DecimalOperationError::Overflow)
    }
}

/// Ten to the power `exponent` as a `T`, or `None` if that power does not fit.
///
/// The power is built by repeated checked multiplication, so the loop ends at
/// the first power that is too large, however large the exponent.
pub fn checked_pow10<T: CheckedMul>(exponent: u32) -> (r: Option<T>)
    ensures
        fits::<T>(pow10(exponent as nat) as int) <==> r is Some,
        r matches Some(factor) ==> factor.value() == pow10(exponent as nat),
{
    let ten = T::from_small(10);
    let mut power = T::from_small(1);
    let mut done: u32 = 0;
    proof {
        T::lemma_bounds();
    }
    while done < exponent
        invariant
            done <= exponent,
            ten.value() == 10,
            power.value() == pow10(done as nat),
            T::min_value() <= 0,
        decreases exponent - done,
    {
        match power.checked_mul(&ten) {
            Some(next) => {
                assert(power.value() * 10 == pow10((done + 1) as nat));
                power = next;
            },
            None => {
                proof {
                    assert(power.value() * 10 == pow10((done + 1) as nat));
                    lemma_pow10_monotonic((done + 1) as nat, exponent as nat);
                }
                return None;
            },
        }
        done = done + 1;
    }
    proof {
        power.lemma_value_in_range();
    }
    Some(power)
}

/// Scale-aligning decimal arithmetic that reports overflow and division by
/// zero instead of wrapping or panicking.
///
/// Each operation takes `self` and `other` as raw magnitudes with their scales
/// and returns the result magnitude with its scale. Every function is total:
/// whatever the operands and scales, it returns the value or says why there is
/// none. The power of ten that scales an operand is itself a value of the
/// magnitude type: a scale so large that the power does not fit is an overflow,
/// like any later step that does not fit.
pub trait CheckedDecimalOperations: Magnitude {
    /// Adds two decimals. The operand of the smaller scale is multiplied by the
    /// power of ten that brings it to the larger scale; the result has the
    /// larger scale.
    fn add_decimals_checked(
        self,
        other: Self,
        self_decimals: u32,
        other_decimals: u32,
    ) -> (r: Result<(Self, u32), DecimalOperationError>)
        ensures
            outcome_value(r) == add_outcome::<Self>(
                self.value(),
                other.value(),
                self_decimals,
                other_decimals,
            ),
    ;

    /// Subtracts `other` from `self` after the same alignment as in addition.
    fn sub_decimals_checked(
        self,
        other: Self,
        self_decimals: u32,
        other_decimals: u32,
    ) -> (r: Result<(Self, u32), DecimalOperationError>)
        ensures
            outcome_value(r) == sub_outcome::<Self>(
                self.value(),
                other.value(),
                self_decimals,
                other_decimals,
            ),
    ;

    /// Multiplies the raw magnitudes; the scales add.
    fn multiply_decimals_checked(
        self,
        other: Self,
        self_decimals: u32,
        other_decimals: u32,
    ) -> (r: Result<(Self, u32), DecimalOperationError>)
        ensures
            outcome_value(r) == mul_outcome::<Self>(
                self.value(),
                other.value(),
                self_decimals,
                other_decimals,
            ),
    ;

    /// Divides `self`, scaled up by the divisor's scale, by the divisor's raw
    /// magnitude. The quotient is rounded toward zero and keeps the scale of
    /// `self`.
    fn divide_decimals_checked(
        self,
        other: Self,
        self_decimals: u32,
        other_decimals: u32,
    ) -> (r: Result<(Self, u32), DecimalOperationError>)
        ensures
            outcome_value(r) == div_outcome::<Self>(
                self.value(),
                other.value(),
                self_decimals,
                other_decimals,
            ),
    ;

    /// Takes the remainder of `self`, scaled up by its own scale, by the
    /// divisor's raw magnitude. Unlike division this ignores `other_decimals`;
    /// the result keeps the scale of `self`.
    fn rem_decimals_checked(
        self,
        other: Self,
        self_decimals: u32,
        other_decimals: u32,
    ) -> (r: Result<(Self, u32), DecimalOperationError>)
        ensures
            outcome_value(r) == rem_outcome::<Self>(self.value(), other.value(), self_decimals),
    ;
}

impl<T> CheckedDecimalOperations for T where
    T: CheckedAdd + CheckedSub + CheckedMul + CheckedDiv + CheckedRem,
{
    fn add_decimals_checked(
        self,
        other: Self,
        self_decimals: u32,
        other_decimals: u32,
    ) -> (r: Result<(Self, u32), DecimalOperationError>) {
        proof {
            self.lemma_value_in_range();
            other.lemma_value_in_range();
        }
        if self_decimals > other_decimals {
            let factor = match checked_pow10::<T>(self_decimals - other_decimals) {
                Some(factor) => factor,
                None => return Err(DecimalOperationError::Overflow),
            };
            let scaled = match other.checked_mul(&factor) {
                Some(scaled) => scaled,
                None => return Err(DecimalOperationError::Overflow),
            };
            match self.checked_add(&scaled) {
                Some(value) => Ok((value, self_decimals)),
                None => Err(DecimalOperationError::Overflow),
            }
        } else {
            proof {
                lemma_aligned_is_scaled(self.value(), self_decimals, other_decimals);
            }
            let factor = match checked_pow10::<T>(other_decimals - self_decimals) {
                Some(factor) => factor,
                None => return Err(DecimalOperationError::Overflow),
            };
            let scaled = match self.checked_mul(&factor) {
                Some(scaled) => scaled,
                None => return Err(DecimalOperationError::Overflow),
            };
            match scaled.checked_add(&other) {
                Some(value) => Ok((value, other_decimals)),
                None => Err(DecimalOperationError::Overflow),
            }
        }
    }

    fn sub_decimals_checked(
        self,
        other: Self,
        self_decimals: u32,
        other_decimals: u32,
    ) -> (r: Result<(Self, u32), DecimalOperationError>) {
        proof {
            self.lemma_value_in_range();
            other.lemma_value_in_range();
        }
        if self_decimals > other_decimals {
            let factor = match checked_pow10::<T>(self_decimals - other_decimals) {
                Some(factor) => factor,
                None => return Err(DecimalOperationError::Overflow),
            };
            let scaled = match other.checked_mul(&factor) {
                Some(scaled) => scaled,
                None => return Err(DecimalOperationError::Overflow),
            };
            match self.checked_sub(&scaled) {
                Some(value) => Ok((value, self_decimals)),
                None => Err(DecimalOperationError::Overflow),
            }
        } else {
            proof {
                lemma_aligned_is_scaled(self.value(), self_decimals, other_decimals);
            }
            let factor = match checked_pow10::<T>(other_decimals - self_decimals) {
                Some(factor) => factor,
                None => return Err(DecimalOperationError::Overflow),
            };
            let scaled = match self.checked_mul(&factor) {
                Some(scaled) => scaled,
                None => return Err(DecimalOperationError::Overflow),
            };
            match scaled.checked_sub(&other) {
                Some(value) => Ok((value, other_decimals)),
                None => Err(DecimalOperationError::Overflow),
            }
        }
    }

    fn multiply_decimals_checked(
        self,
        other: Self,
        self_decimals: u32,
        other_decimals: u32,
    ) -> (r: Result<(Self, u32), DecimalOperationError>) {
        let decimals = match self_decimals.checked_add(other_decimals) {
            Some(decimals) => decimals,
            None => return Err(DecimalOperationError::Overflow),
        };
        match self.checked_mul(&other) {
            Some(value) => Ok((value, decimals)),
            None => Err(DecimalOperationError::Overflow),
        }
    }

    fn divide_decimals_checked(
        self,
        other: Self,
        self_decimals: u32,
        other_decimals: u32,
    ) -> (r: Result<(Self, u32), DecimalOperationError>) {
        if other.is_zero() {
            return Err(DecimalOperationError::DivisionByZero);
        }
        let factor = match checked_pow10::<T>(other_decimals) {
            Some(factor) => factor,
            None => return Err(DecimalOperationError::Overflow),
        };
        let adjusted_value = match self.checked_mul(&factor) {
            Some(adjusted_value) => adjusted_value,
            None => return Err(DecimalOperationError::Overflow),
        };
        match adjusted_value.checked_div(&other) {
            Some(value) => Ok((value, self_decimals)),
            None => Err(DecimalOperationError::Overflow),
        }
    }

    fn rem_decimals_checked(
        self,
        other: Self,
        self_decimals: u32,
        other_decimals: u32,
    ) -> (r: Result<(Self, u32), DecimalOperationError>) {
        if other.is_zero() {
            return Err(DecimalOperationError::DivisionByZero);
        }
        let factor = match checked_pow10::<T>(self_decimals) {
            Some(factor) => factor,
            None => return Err(DecimalOperationError::Overflow),
        };
        let adjusted_value = match self.checked_mul(&factor) {
            Some(adjusted_value) => adjusted_value,
            None => return Err(DecimalOperationError::Overflow),
        };
        match adjusted_value.checked_rem(&other) {
            Some(value) => Ok((value, self_decimals)),
            None => Err(DecimalOperationError::Overflow),
        }
    }
}

} // verus!
