//! Integer facts the decimal engines rest on: powers of ten and division that
//! rounds toward zero.
use vstd::arithmetic::div_mod::{
    lemma_div_decreases, lemma_div_nonincreasing, lemma_div_pos_is_pos, lemma_fundamental_div_mod,
    lemma_fundamental_div_mod_converse, lemma_mod_bound,
};
use vstd::prelude::*;

verus! {

/// Ten to the power `n`.
pub open spec fn pow10(n: nat) -> nat
    decreases n,
{
    if n == 0 {
        1
    } else {
        10 * pow10((n - 1) as nat)
    }
}

/// The quotient of `a` by `b` rounded toward zero, as the hardware divides.
///
/// Spec-level `/` is Euclidean; on a non-negative dividend the two agree, and a
/// negative dividend is mirrored.
pub open spec fn trunc_div(a: int, b: int) -> int {
    if a >= 0 {
        a / b
    } else {
        -((-a) / b)
    }
}

/// The remainder that goes with [`trunc_div`]: it carries the dividend's sign.
pub open spec fn trunc_rem(a: int, b: int) -> int {
    if a >= 0 {
        a % b
    } else {
        -((-a) % b)
    }
}

/// Every power of ten is at least one.
pub proof fn lemma_pow10_positive(n: nat)
    ensures
        pow10(n) >= 1,
    decreases n,
{
    if n > 0 {
        lemma_pow10_positive((n - 1) as nat);
    }
}

/// Powers of ten grow with the exponent.
pub proof fn lemma_pow10_monotonic(m: nat, n: nat)
    requires
        m <= n,
    ensures
        pow10(m) <= pow10(n),
    decreases n,
{
    if m < n {
        lemma_pow10_monotonic(m, (n - 1) as nat);
    }
}

/// Negating a positive divisor negates the Euclidean quotient and keeps the
/// remainder.
pub proof fn lemma_div_negated_divisor(n: int, d: int)
    requires
        d > 0,
    ensures
        n / (-d) == -(n / d),
        n % (-d) == n % d,
{
    let q = n / (-d);
    let r = n % (-d);
    lemma_fundamental_div_mod(n, -d);
    assert((-d) * q == (-q) * d) by (nonlinear_arith);
    lemma_fundamental_div_mod_converse(n, d, -q, r);
}

/// A truncated quotient is no farther from zero than the dividend, and closer
/// to zero when the dividend is not zero and the divisor is neither one nor
/// minus one.
pub proof fn lemma_trunc_div_bounds(a: int, b: int)
    requires
        b != 0,
    ensures
        a >= 0 ==> -a <= trunc_div(a, b) <= a,
        a <= 0 ==> a <= trunc_div(a, b) <= -a,
        a > 0 && (b > 1 || b < -1) ==> -a < trunc_div(a, b) < a,
        a < 0 && (b > 1 || b < -1) ==> a < trunc_div(a, b) < -a,
{
    let n = if a >= 0 { a } else { -a };
    let d = if b > 0 { b } else { -b };
    lemma_div_pos_is_pos(n, d);
    lemma_div_nonincreasing(n, d);
    if n > 0 && d > 1 {
        lemma_div_decreases(n, d);
    }
    if b < 0 {
        lemma_div_negated_divisor(n, d);
    }
}

/// A truncated remainder is closer to zero than the divisor and has the
/// dividend's sign.
pub proof fn lemma_trunc_rem_bounds(a: int, b: int)
    requires
        b != 0,
    ensures
        a >= 0 ==> 0 <= trunc_rem(a, b),
        a <= 0 ==> trunc_rem(a, b) <= 0,
        b > 0 ==> -b < trunc_rem(a, b) < b,
        b < 0 ==> b < trunc_rem(a, b) < -b,
{
    let n = if a >= 0 { a } else { -a };
    let d = if b > 0 { b } else { -b };
    lemma_mod_bound(n, d);
    if n == 0 {
        lemma_fundamental_div_mod_converse(0, d, 0, 0);
    }
    if b < 0 {
        lemma_div_negated_divisor(n, d);
    }
}

} // verus!
