//! What the native operators `+ - * / %` compute on a magnitude type.
//!
//! The operators of a generic type are known to the verifier only through the
//! operator traits' own specification functions. [`NativeArithmetic`] ties
//! those to [`Magnitude::value`]: where the exact result fits the type, the
//! operator may be applied and yields that result.
use crate::arithmetic::{
    lemma_div_negated_divisor, lemma_trunc_div_bounds, lemma_trunc_rem_bounds, trunc_div, trunc_rem,
};
use crate::magnitude::{fits, Magnitude};
use std::ops::{Add, Div, Mul, Rem, Sub};
use vstd::prelude::*;
use vstd::std_specs::ops::{AddSpec, DivSpec, MulSpec, RemSpec, SubSpec};

verus! {

/// A magnitude type whose native operators compute exact integer arithmetic
/// whenever the exact result is representable.
///
/// Division and remainder round toward zero; both need a non-zero divisor and
/// a representable quotient.
pub trait NativeArithmetic: Magnitude + Add<Output = Self> + Sub<Output = Self> + Mul<
    Output = Self,
> + Div<Output = Self> + Rem<Output = Self> {
    /// `a + b` is the exact sum where that fits.
    proof fn lemma_native_add(a: Self, b: Self)
        requires
            fits::<Self>(a.value() + b.value()),
        ensures
            Self::obeys_add_spec(),
            a.add_req(b),
            a.add_spec(b).value() == a.value() + b.value(),
    ;

    /// `a - b` is the exact difference where that fits.
    proof fn lemma_native_sub(a: Self, b: Self)
        requires
            fits::<Self>(a.value() - b.value()),
        ensures
            Self::obeys_sub_spec(),
            a.sub_req(b),
            a.sub_spec(b).value() == a.value() - b.value(),
    ;

    /// `a * b` is the exact product where that fits.
    proof fn lemma_native_mul(a: Self, b: Self)
        requires
            fits::<Self>(a.value() * b.value()),
        ensures
            Self::obeys_mul_spec(),
            a.mul_req(b),
            a.mul_spec(b).value() == a.value() * b.value(),
    ;

    /// `a / b` is the quotient rounded toward zero where the divisor is not
    /// zero and the quotient fits.
    proof fn lemma_native_div(a: Self, b: Self)
        requires
            b.value() != 0,
            fits::<Self>(trunc_div(a.value(), b.value())),
        ensures
            Self::obeys_div_spec(),
            a.div_req(b),
            a.div_spec(b).value() == trunc_div(a.value(), b.value()),
    ;

    /// `a % b` is the remainder of that division, under the same conditions.
    proof fn lemma_native_rem(a: Self, b: Self)
        requires
            b.value() != 0,
            fits::<Self>(trunc_div(a.value(), b.value())),
        ensures
            Self::obeys_rem_spec(),
            a.rem_req(b),
            a.rem_spec(b).value() == trunc_rem(a.value(), b.value()),
    ;
}

impl NativeArithmetic for u8 {
    proof fn lemma_native_add(a: Self, b: Self) {
    }

    proof fn lemma_native_sub(a: Self, b: Self) {
    }

    proof fn lemma_native_mul(a: Self, b: Self) {
    }

    proof fn lemma_native_div(a: Self, b: Self) {
    }

    proof fn lemma_native_rem(a: Self, b: Self) {
    }
}

impl NativeArithmetic for u16 {
    proof fn lemma_native_add(a: Self, b: Self) {
    }

    proof fn lemma_native_sub(a: Self, b: Self) {
    }

    proof fn lemma_native_mul(a: Self, b: Self) {
    }

    proof fn lemma_native_div(a: Self, b: Self) {
    }

    proof fn lemma_native_rem(a: Self, b: Self) {
    }
}

impl NativeArithmetic for u32 {
    proof fn lemma_native_add(a: Self, b: Self) {
    }

    proof fn lemma_native_sub(a: Self, b: Self) {
    }

    proof fn lemma_native_mul(a: Self, b: Self) {
    }

    proof fn lemma_native_div(a: Self, b: Self) {
    }

    proof fn lemma_native_rem(a: Self, b: Self) {
    }
}

impl NativeArithmetic for u64 {
    proof fn lemma_native_add(a: Self, b: Self) {
    }

    proof fn lemma_native_sub(a: Self, b: Self) {
    }

    proof fn lemma_native_mul(a: Self, b: Self) {
    }

    proof fn lemma_native_div(a: Self, b: Self) {
    }

    proof fn lemma_native_rem(a: Self, b: Self) {
    }
}

impl NativeArithmetic for u128 {
    proof fn lemma_native_add(a: Self, b: Self) {
    }

    proof fn lemma_native_sub(a: Self, b: Self) {
    }

    proof fn lemma_native_mul(a: Self, b: Self) {
    }

    proof fn lemma_native_div(a: Self, b: Self) {
    }

    proof fn lemma_native_rem(a: Self, b: Self) {
    }
}

impl NativeArithmetic for usize {
    proof fn lemma_native_add(a: Self, b: Self) {
    }

    proof fn lemma_native_sub(a: Self, b: Self) {
    }

    proof fn lemma_native_mul(a: Self, b: Self) {
    }

    proof fn lemma_native_div(a: Self, b: Self) {
    }

    proof fn lemma_native_rem(a: Self, b: Self) {
    }
}

impl NativeArithmetic for i8 {
    proof fn lemma_native_add(a: Self, b: Self) {
    }

    proof fn lemma_native_sub(a: Self, b: Self) {
    }

    proof fn lemma_native_mul(a: Self, b: Self) {
    }

    proof fn lemma_native_div(a: Self, b: Self) {
        lemma_trunc_div_bounds(a as int, b as int);
        lemma_div_negated_divisor(-(a as int), 1);
    }

    proof fn lemma_native_rem(a: Self, b: Self) {
        lemma_trunc_div_bounds(a as int, b as int);
        lemma_div_negated_divisor(-(a as int), 1);
        lemma_trunc_rem_bounds(a as int, b as int);
    }
}

impl NativeArithmetic for i16 {
    proof fn lemma_native_add(a: Self, b: Self) {
    }

    proof fn lemma_native_sub(a: Self, b: Self) {
    }

    proof fn lemma_native_mul(a: Self, b: Self) {
    }

    proof fn lemma_native_div(a: Self, b: Self) {
        lemma_trunc_div_bounds(a as int, b as int);
        lemma_div_negated_divisor(-(a as int), 1);
    }

    proof fn lemma_native_rem(a: Self, b: Self) {
        lemma_trunc_div_bounds(a as int, b as int);
        lemma_div_negated_divisor(-(a as int), 1);
        lemma_trunc_rem_bounds(a as int, b as int);
    }
}

impl NativeArithmetic for i32 {
    proof fn lemma_native_add(a: Self, b: Self) {
    }

    proof fn lemma_native_sub(a: Self, b: Self) {
    }

    proof fn lemma_native_mul(a: Self, b: Self) {
    }

    proof fn lemma_native_div(a: Self, b: Self) {
        lemma_trunc_div_bounds(a as int, b as int);
        lemma_div_negated_divisor(-(a as int), 1);
    }

    proof fn lemma_native_rem(a: Self, b: Self) {
        lemma_trunc_div_bounds(a as int, b as int);
        lemma_div_negated_divisor(-(a as int), 1);
        lemma_trunc_rem_bounds(a as int, b as int);
    }
}

impl NativeArithmetic for i64 {
    proof fn lemma_native_add(a: Self, b: Self) {
    }

    proof fn lemma_native_sub(a: Self, b: Self) {
    }

    proof fn lemma_native_mul(a: Self, b: Self) {
    }

    proof fn lemma_native_div(a: Self, b: Self) {
        lemma_trunc_div_bounds(a as int, b as int);
        lemma_div_negated_divisor(-(a as int), 1);
    }

    proof fn lemma_native_rem(a: Self, b: Self) {
        lemma_trunc_div_bounds(a as int, b as int);
        lemma_div_negated_divisor(-(a as int), 1);
        lemma_trunc_rem_bounds(a as int, b as int);
    }
}

impl NativeArithmetic for i128 {
    proof fn lemma_native_add(a: Self, b: Self) {
    }

    proof fn lemma_native_sub(a: Self, b: Self) {
    }

    proof fn lemma_native_mul(a: Self, b: Self) {
    }

    proof fn lemma_native_div(a: Self, b: Self) {
        lemma_trunc_div_bounds(a as int, b as int);
        lemma_div_negated_divisor(-(a as int), 1);
    }

    proof fn lemma_native_rem(a: Self, b: Self) {
        lemma_trunc_div_bounds(a as int, b as int);
        lemma_div_negated_divisor(-(a as int), 1);
        lemma_trunc_rem_bounds(a as int, b as int);
    }
}

impl NativeArithmetic for isize {
    proof fn lemma_native_add(a: Self, b: Self) {
    }

    proof fn lemma_native_sub(a: Self, b: Self) {
    }

    proof fn lemma_native_mul(a: Self, b: Self) {
    }

    proof fn lemma_native_div(a: Self, b: Self) {
        lemma_trunc_div_bounds(a as int, b as int);
        lemma_div_negated_divisor(-(a as int), 1);
    }

    proof fn lemma_native_rem(a: Self, b: Self) {
        lemma_trunc_div_bounds(a as int, b as int);
        lemma_div_negated_divisor(-(a as int), 1);
        lemma_trunc_rem_bounds(a as int, b as int);
    }
}

} // verus!
