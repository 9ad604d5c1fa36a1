//! The checked primitives of every fixed-width integer type, each handed on to
//! the operation of the same name that the type already has.
use crate::arithmetic::{
    lemma_div_negated_divisor, lemma_trunc_div_bounds, lemma_trunc_rem_bounds, trunc_div, trunc_rem,
};
use crate::checked::helper_traits::{CheckedAdd, CheckedDiv, CheckedMul, CheckedRem, CheckedSub};
use vstd::prelude::*;

verus! {

/// What the signed impls need of a division with a non-zero divisor: how the
/// Euclidean quotient and remainder behave under a negative divisor, and how
/// far the truncated ones can reach.
proof fn lemma_signed_division(a: int, b: int)
    requires
        b != 0,
    ensures
        b < 0 && a >= 0 ==> a / b == -(a / (-b)) && a % b == a % (-b),
        b < 0 && a < 0 ==> (-a) / b == -((-a) / (-b)) && (-a) % b == (-a) % (-b),
        a >= 0 ==> -a <= trunc_div(a, b) <= a,
        a <= 0 ==> a <= trunc_div(a, b) <= -a,
        a < 0 && (b > 1 || b < -1) ==> a < trunc_div(a, b) < -a,
        b > 0 ==> -b < trunc_rem(a, b) < b,
        b < 0 ==> b < trunc_rem(a, b) < -b,
{
    if b < 0 {
        lemma_div_negated_divisor(a, -b);
        lemma_div_negated_divisor(-a, -b);
    }
    lemma_trunc_div_bounds(a, b);
    lemma_trunc_rem_bounds(a, b);
}

impl CheckedAdd for u8 {
    fn checked_add(&self, v: &Self) -> (r: Option<Self>) {
        u8::checked_add(*self, *v)
    }
}

impl CheckedSub for u8 {
    fn checked_sub(&self, v: &Self) -> (r: Option<Self>) {
        u8::checked_sub(*self, *v)
    }
}

impl CheckedMul for u8 {
    fn checked_mul(&self, v: &Self) -> (r: Option<Self>) {
        u8::checked_mul(*self, *v)
    }
}

impl CheckedDiv for u8 {
    fn checked_div(&self, v: &Self) -> (r: Option<Self>) {
        u8::checked_div(*self, *v)
    }
}

impl CheckedRem for u8 {
    fn checked_rem(&self, v: &Self) -> (r: Option<Self>) {
        u8::checked_rem(*self, *v)
    }
}

impl CheckedAdd for u16 {
    fn checked_add(&self, v: &Self) -> (r: Option<Self>) {
        u16::checked_add(*self, *v)
    }
}

impl CheckedSub for u16 {
    fn checked_sub(&self, v: &Self) -> (r: Option<Self>) {
        u16::checked_sub(*self, *v)
    }
}

impl CheckedMul for u16 {
    fn checked_mul(&self, v: &Self) -> (r: Option<Self>) {
        u16::checked_mul(*self, *v)
    }
}

impl CheckedDiv for u16 {
    fn checked_div(&self, v: &Self) -> (r: Option<Self>) {
        u16::checked_div(*self, *v)
    }
}

impl CheckedRem for u16 {
    fn checked_rem(&self, v: &Self) -> (r: Option<Self>) {
        u16::checked_rem(*self, *v)
    }
}

impl CheckedAdd for u32 {
    fn checked_add(&self, v: &Self) -> (r: Option<Self>) {
        u32::checked_add(*self, *v)
    }
}

impl CheckedSub for u32 {
    fn checked_sub(&self, v: &Self) -> (r: Option<Self>) {
        u32::checked_sub(*self, *v)
    }
}

impl CheckedMul for u32 {
    fn checked_mul(&self, v: &Self) -> (r: Option<Self>) {
        u32::checked_mul(*self, *v)
    }
}

impl CheckedDiv for u32 {
    fn checked_div(&self, v: &Self) -> (r: Option<Self>) {
        u32::checked_div(*self, *v)
    }
}

impl CheckedRem for u32 {
    fn checked_rem(&self, v: &Self) -> (r: Option<Self>) {
        u32::checked_rem(*self, *v)
    }
}

impl CheckedAdd for u64 {
    fn checked_add(&self, v: &Self) -> (r: Option<Self>) {
        u64::checked_add(*self, *v)
    }
}

impl CheckedSub for u64 {
    fn checked_sub(&self, v: &Self) -> (r: Option<Self>) {
        u64::checked_sub(*self, *v)
    }
}

impl CheckedMul for u64 {
    fn checked_mul(&self, v: &Self) -> (r: Option<Self>) {
        u64::checked_mul(*self, *v)
    }
}

impl CheckedDiv for u64 {
    fn checked_div(&self, v: &Self) -> (r: Option<Self>) {
        u64::checked_div(*self, *v)
    }
}

impl CheckedRem for u64 {
    fn checked_rem(&self, v: &Self) -> (r: Option<Self>) {
        u64::checked_rem(*self, *v)
    }
}

impl CheckedAdd for u128 {
    fn checked_add(&self, v: &Self) -> (r: Option<Self>) {
        u128::checked_add(*self, *v)
    }
}

impl CheckedSub for u128 {
    fn checked_sub(&self, v: &Self) -> (r: Option<Self>) {
        u128::checked_sub(*self, *v)
    }
}

impl CheckedMul for u128 {
    fn checked_mul(&self, v: &Self) -> (r: Option<Self>) {
        u128::checked_mul(*self, *v)
    }
}

impl CheckedDiv for u128 {
    fn checked_div(&self, v: &Self) -> (r: Option<Self>) {
        u128::checked_div(*self, *v)
    }
}

impl CheckedRem for u128 {
    fn checked_rem(&self, v: &Self) -> (r: Option<Self>) {
        u128::checked_rem(*self, *v)
    }
}

impl CheckedAdd for usize {
    fn checked_add(&self, v: &Self) -> (r: Option<Self>) {
        usize::checked_add(*self, *v)
    }
}

impl CheckedSub for usize {
    fn checked_sub(&self, v: &Self) -> (r: Option<Self>) {
        usize::checked_sub(*self, *v)
    }
}

impl CheckedMul for usize {
    fn checked_mul(&self, v: &Self) -> (r: Option<Self>) {
        usize::checked_mul(*self, *v)
    }
}

impl CheckedDiv for usize {
    fn checked_div(&self, v: &Self) -> (r: Option<Self>) {
        usize::checked_div(*self, *v)
    }
}

impl CheckedRem for usize {
    fn checked_rem(&self, v: &Self) -> (r: Option<Self>) {
        usize::checked_rem(*self, *v)
    }
}

impl CheckedAdd for i8 {
    fn checked_add(&self, v: &Self) -> (r: Option<Self>) {
        i8::checked_add(*self, *v)
    }
}

impl CheckedSub for i8 {
    fn checked_sub(&self, v: &Self) -> (r: Option<Self>) {
        i8::checked_sub(*self, *v)
    }
}

impl CheckedMul for i8 {
    fn checked_mul(&self, v: &Self) -> (r: Option<Self>) {
        i8::checked_mul(*self, *v)
    }
}

impl CheckedDiv for i8 {
    fn checked_div(&self, v: &Self) -> (r: Option<Self>) {
        proof {
            if *v != 0 {
                lemma_signed_division(*self as int, *v as int);
            }
        }
        i8::checked_div(*self, *v)
    }
}

impl CheckedRem for i8 {
    fn checked_rem(&self, v: &Self) -> (r: Option<Self>) {
        proof {
            if *v != 0 {
                lemma_signed_division(*self as int, *v as int);
            }
        }
        i8::checked_rem(*self, *v)
    }
}

impl CheckedAdd for i16 {
    fn checked_add(&self, v: &Self) -> (r: Option<Self>) {
        i16::checked_add(*self, *v)
    }
}

impl CheckedSub for i16 {
    fn checked_sub(&self, v: &Self) -> (r: Option<Self>) {
        i16::checked_sub(*self, *v)
    }
}

impl CheckedMul for i16 {
    fn checked_mul(&self, v: &Self) -> (r: Option<Self>) {
        i16::checked_mul(*self, *v)
    }
}

impl CheckedDiv for i16 {
    fn checked_div(&self, v: &Self) -> (r: Option<Self>) {
        proof {
            if *v != 0 {
                lemma_signed_division(*self as int, *v as int);
            }
        }
        i16::checked_div(*self, *v)
    }
}

impl CheckedRem for i16 {
    fn checked_rem(&self, v: &Self) -> (r: Option<Self>) {
        proof {
            if *v != 0 {
                lemma_signed_division(*self as int, *v as int);
            }
        }
        i16::checked_rem(*self, *v)
    }
}

impl CheckedAdd for i32 {
    fn checked_add(&self, v: &Self) -> (r: Option<Self>) {
        i32::checked_add(*self, *v)
    }
}

impl CheckedSub for i32 {
    fn checked_sub(&self, v: &Self) -> (r: Option<Self>) {
        i32::checked_sub(*self, *v)
    }
}

impl CheckedMul for i32 {
    fn checked_mul(&self, v: &Self) -> (r: Option<Self>) {
        i32::checked_mul(*self, *v)
    }
}

impl CheckedDiv for i32 {
    fn checked_div(&self, v: &Self) -> (r: Option<Self>) {
        proof {
            if *v != 0 {
                lemma_signed_division(*self as int, *v as int);
            }
        }
        i32::checked_div(*self, *v)
    }
}

impl CheckedRem for i32 {
    fn checked_rem(&self, v: &Self) -> (r: Option<Self>) {
        proof {
            if *v != 0 {
                lemma_signed_division(*self as int, *v as int);
            }
        }
        i32::checked_rem(*self, *v)
    }
}

impl CheckedAdd for i64 {
    fn checked_add(&self, v: &Self) -> (r: Option<Self>) {
        i64::checked_add(*self, *v)
    }
}

impl CheckedSub for i64 {
    fn checked_sub(&self, v: &Self) -> (r: Option<Self>) {
        i64::checked_sub(*self, *v)
    }
}

impl CheckedMul for i64 {
    fn checked_mul(&self, v: &Self) -> (r: Option<Self>) {
        i64::checked_mul(*self, *v)
    }
}

impl CheckedDiv for i64 {
    fn checked_div(&self, v: &Self) -> (r: Option<Self>) {
        proof {
            if *v != 0 {
                lemma_signed_division(*self as int, *v as int);
            }
        }
        i64::checked_div(*self, *v)
    }
}

impl CheckedRem for i64 {
    fn checked_rem(&self, v: &Self) -> (r: Option<Self>) {
        proof {
            if *v != 0 {
                lemma_signed_division(*self as int, *v as int);
            }
        }
        i64::checked_rem(*self, *v)
    }
}

impl CheckedAdd for i128 {
    fn checked_add(&self, v: &Self) -> (r: Option<Self>) {
        i128::checked_add(*self, *v)
    }
}

impl CheckedSub for i128 {
    fn checked_sub(&self, v: &Self) -> (r: Option<Self>) {
        i128::checked_sub(*self, *v)
    }
}

impl CheckedMul for i128 {
    fn checked_mul(&self, v: &Self) -> (r: Option<Self>) {
        i128::checked_mul(*self, *v)
    }
}

impl CheckedDiv for i128 {
    fn checked_div(&self, v: &Self) -> (r: Option<Self>) {
        proof {
            if *v != 0 {
                lemma_signed_division(*self as int, *v as int);
            }
        }
        i128::checked_div(*self, *v)
    }
}

impl CheckedRem for i128 {
    fn checked_rem(&self, v: &Self) -> (r: Option<Self>) {
        proof {
            if *v != 0 {
                lemma_signed_division(*self as int, *v as int);
            }
        }
        i128::checked_rem(*self, *v)
    }
}

impl CheckedAdd for isize {
    fn checked_add(&self, v: &Self) -> (r: Option<Self>) {
        isize::checked_add(*self, *v)
    }
}

impl CheckedSub for isize {
    fn checked_sub(&self, v: &Self) -> (r: Option<Self>) {
        isize::checked_sub(*self, *v)
    }
}

impl CheckedMul for isize {
    fn checked_mul(&self, v: &Self) -> (r: Option<Self>) {
        isize::checked_mul(*self, *v)
    }
}

impl CheckedDiv for isize {
    fn checked_div(&self, v: &Self) -> (r: Option<Self>) {
        proof {
            if *v != 0 {
                lemma_signed_division(*self as int, *v as int);
            }
        }
        isize::checked_div(*self, *v)
    }
}

impl CheckedRem for isize {
    fn checked_rem(&self, v: &Self) -> (r: Option<Self>) {
        proof {
            if *v != 0 {
                lemma_signed_division(*self as int, *v as int);
            }
        }
        isize::checked_rem(*self, *v)
    }
}

} // verus!
