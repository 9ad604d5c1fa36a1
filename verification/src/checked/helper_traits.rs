//! The five single-step checked operations a magnitude type supplies.
//!
//! Each returns `None` exactly when the step has no representable result: the
//! exact sum, difference or product lies outside the type's range, the divisor
//! is zero, or the quotient lies outside the range (the least value of a signed
//! type divided by minus one).
use crate::arithmetic::{trunc_div, trunc_rem};
use crate::magnitude::{fits, Magnitude};
use vstd::prelude::*;

verus! {

/// Addition that reports overflow.
pub trait CheckedAdd: Magnitude {
    /// The sum, or `None` if it does not fit.
    fn checked_add(&self, v: &Self) -> (r: Option<Self>)
        ensures
            fits::<Self>(self.value() + v.value()) <==> r is Some,
            r matches Some(s) ==> s.value() == self.value() + v.value(),
    ;
}

/// Subtraction that reports overflow.
pub trait CheckedSub: Magnitude {
    /// The difference, or `None` if it does not fit.
    fn checked_sub(&self, v: &Self) -> (r: Option<Self>)
        ensures
            fits::<Self>(self.value() - v.value()) <==> r is Some,
            r matches Some(d) ==> d.value() == self.value() - v.value(),
    ;
}

/// Multiplication that reports overflow.
pub trait CheckedMul: Magnitude {
    /// The product, or `None` if it does not fit.
    fn checked_mul(&self, v: &Self) -> (r: Option<Self>)
        ensures
            fits::<Self>(self.value() * v.value()) <==> r is Some,
            r matches Some(p) ==> p.value() == self.value() * v.value(),
    ;
}

/// Division that reports a zero divisor and overflow.
pub trait CheckedDiv: Magnitude {
    /// The quotient rounded toward zero, or `None` if the divisor is zero or the
    /// quotient does not fit.
    fn checked_div(&self, v: &Self) -> (r: Option<Self>)
        ensures
            (v.value() != 0 && fits::<Self>(trunc_div(self.value(), v.value()))) <==> r is Some,
            r matches Some(q) ==> q.value() == trunc_div(self.value(), v.value()),
    ;
}

/// Remainder that reports a zero divisor and overflow.
pub trait CheckedRem: Magnitude {
    /// The remainder of the division rounded toward zero, or `None` if the
    /// divisor is zero or the quotient of that division does not fit.
    fn checked_rem(&self, v: &Self) -> (r: Option<Self>)
        ensures
            (v.value() != 0 && fits::<Self>(trunc_div(self.value(), v.value()))) <==> r is Some,
            r matches Some(m) ==> m.value() == trunc_rem(self.value(), v.value()),
    ;
}

} // verus!
