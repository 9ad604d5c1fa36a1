//! The view of a fixed-width integer as the mathematical integer it holds.
use vstd::prelude::*;

verus! {

/// A fixed-width integer type usable as the magnitude of a decimal value.
///
/// Contracts speak of a magnitude through [`Magnitude::value`], an unbounded
/// integer, and of the type through the closed range from
/// [`Magnitude::min_value`] to [`Magnitude::max_value`]. The proof functions
/// are the obligations an implementation has to discharge so that those
/// contracts mean what they say.
pub trait Magnitude: Sized {
    /// The integer this magnitude holds.
    spec fn value(&self) -> int;

    /// The least integer the type can hold.
    spec fn min_value() -> int;

    /// The greatest integer the type can hold.
    spec fn max_value() -> int;

    /// The range reaches from zero or below up to at least `127`, so that every
    /// width can hold the constants the engines build their factors from.
    proof fn lemma_bounds()
        ensures
            Self::min_value() <= 0,
            Self::max_value() >= 127,
    ;

    /// A magnitude lies within its type's range.
    proof fn lemma_value_in_range(&self)
        ensures
            Self::min_value() <= self.value() <= Self::max_value(),
    ;

    /// Two magnitudes that hold the same integer are the same value.
    proof fn lemma_value_injective(a: &Self, b: &Self)
        requires
            a.value() == b.value(),
        ensures
            a == b,
    ;

    /// Builds a magnitude from a small unsigned integer.
    fn from_small(v: u8) -> (r: Self)
        requires
            v <= 127,
        ensures
            r.value() == v,
    ;

    /// Whether the magnitude is zero.
    fn is_zero(&self) -> (z: bool)
        ensures
            z == (self.value() == 0),
    ;
}

/// Whether the integer `x` is representable in `T`.
pub open spec fn fits<T: Magnitude>(x: int) -> bool {
    T::min_value() <= x <= T::max_value()
}

impl Magnitude for u8 {
    open spec fn value(&self) -> int {
        *self as int
    }

    open spec fn min_value() -> int {
        u8::MIN as int
    }

    open spec fn max_value() -> int {
        u8::MAX as int
    }

    proof fn lemma_bounds() {
    }

    proof fn lemma_value_in_range(&self) {
    }

    proof fn lemma_value_injective(a: &Self, b: &Self) {
    }

    fn from_small(v: u8) -> (r: Self) {
        v
    }

    fn is_zero(&self) -> (z: bool) {
        *self == 0
    }
}

impl Magnitude for u16 {
    open spec fn value(&self) -> int {
        *self as int
    }

    open spec fn min_value() -> int {
        u16::MIN as int
    }

    open spec fn max_value() -> int {
        u16::MAX as int
    }

    proof fn lemma_bounds() {
    }

    proof fn lemma_value_in_range(&self) {
    }

    proof fn lemma_value_injective(a: &Self, b: &Self) {
    }

    fn from_small(v: u8) -> (r: Self) {
        v as u16
    }

    fn is_zero(&self) -> (z: bool) {
        *self == 0
    }
}

impl Magnitude for u32 {
    open spec fn value(&self) -> int {
        *self as int
    }

    open spec fn min_value() -> int {
        u32::MIN as int
    }

    open spec fn max_value() -> int {
        u32::MAX as int
    }

    proof fn lemma_bounds() {
    }

    proof fn lemma_value_in_range(&self) {
    }

    proof fn lemma_value_injective(a: &Self, b: &Self) {
    }

    fn from_small(v: u8) -> (r: Self) {
        v as u32
    }

    fn is_zero(&self) -> (z: bool) {
        *self == 0
    }
}

impl Magnitude for u64 {
    open spec fn value(&self) -> int {
        *self as int
    }

    open spec fn min_value() -> int {
        u64::MIN as int
    }

    open spec fn max_value() -> int {
        u64::MAX as int
    }

    proof fn lemma_bounds() {
    }

    proof fn lemma_value_in_range(&self) {
    }

    proof fn lemma_value_injective(a: &Self, b: &Self) {
    }

    fn from_small(v: u8) -> (r: Self) {
        v as u64
    }

    fn is_zero(&self) -> (z: bool) {
        *self == 0
    }
}

impl Magnitude for u128 {
    open spec fn value(&self) -> int {
        *self as int
    }

    open spec fn min_value() -> int {
        u128::MIN as int
    }

    open spec fn max_value() -> int {
        u128::MAX as int
    }

    proof fn lemma_bounds() {
    }

    proof fn lemma_value_in_range(&self) {
    }

    proof fn lemma_value_injective(a: &Self, b: &Self) {
    }

    fn from_small(v: u8) -> (r: Self) {
        v as u128
    }

    fn is_zero(&self) -> (z: bool) {
        *self == 0
    }
}

impl Magnitude for usize {
    open spec fn value(&self) -> int {
        *self as int
    }

    open spec fn min_value() -> int {
        usize::MIN as int
    }

    open spec fn max_value() -> int {
        usize::MAX as int
    }

    proof fn lemma_bounds() {
    }

    proof fn lemma_value_in_range(&self) {
    }

    proof fn lemma_value_injective(a: &Self, b: &Self) {
    }

    fn from_small(v: u8) -> (r: Self) {
        v as usize
    }

    fn is_zero(&self) -> (z: bool) {
        *self == 0
    }
}

impl Magnitude for i8 {
    open spec fn value(&self) -> int {
        *self as int
    }

    open spec fn min_value() -> int {
        i8::MIN as int
    }

    open spec fn max_value() -> int {
        i8::MAX as int
    }

    proof fn lemma_bounds() {
    }

    proof fn lemma_value_in_range(&self) {
    }

    proof fn lemma_value_injective(a: &Self, b: &Self) {
    }

    fn from_small(v: u8) -> (r: Self) {
        v as i8
    }

    fn is_zero(&self) -> (z: bool) {
        *self == 0
    }
}

impl Magnitude for i16 {
    open spec fn value(&self) -> int {
        *self as int
    }

    open spec fn min_value() -> int {
        i16::MIN as int
    }

    open spec fn max_value() -> int {
        i16::MAX as int
    }

    proof fn lemma_bounds() {
    }

    proof fn lemma_value_in_range(&self) {
    }

    proof fn lemma_value_injective(a: &Self, b: &Self) {
    }

    fn from_small(v: u8) -> (r: Self) {
        v as i16
    }

    fn is_zero(&self) -> (z: bool) {
        *self == 0
    }
}

impl Magnitude for i32 {
    open spec fn value(&self) -> int {
        *self as int
    }

    open spec fn min_value() -> int {
        i32::MIN as int
    }

    open spec fn max_value() -> int {
        i32::MAX as int
    }

    proof fn lemma_bounds() {
    }

    proof fn lemma_value_in_range(&self) {
    }

    proof fn lemma_value_injective(a: &Self, b: &Self) {
    }

    fn from_small(v: u8) -> (r: Self) {
        v as i32
    }

    fn is_zero(&self) -> (z: bool) {
        *self == 0
    }
}

impl Magnitude for i64 {
    open spec fn value(&self) -> int {
        *self as int
    }

    open spec fn min_value() -> int {
        i64::MIN as int
    }

    open spec fn max_value() -> int {
        i64::MAX as int
    }

    proof fn lemma_bounds() {
    }

    proof fn lemma_value_in_range(&self) {
    }

    proof fn lemma_value_injective(a: &Self, b: &Self) {
    }

    fn from_small(v: u8) -> (r: Self) {
        v as i64
    }

    fn is_zero(&self) -> (z: bool) {
        *self == 0
    }
}

impl Magnitude for i128 {
    open spec fn value(&self) -> int {
        *self as int
    }

    open spec fn min_value() -> int {
        i128::MIN as int
    }

    open spec fn max_value() -> int {
        i128::MAX as int
    }

    proof fn lemma_bounds() {
    }

    proof fn lemma_value_in_range(&self) {
    }

    proof fn lemma_value_injective(a: &Self, b: &Self) {
    }

    fn from_small(v: u8) -> (r: Self) {
        v as i128
    }

    fn is_zero(&self) -> (z: bool) {
        *self == 0
    }
}

impl Magnitude for isize {
    open spec fn value(&self) -> int {
        *self as int
    }

    open spec fn min_value() -> int {
        isize::MIN as int
    }

    open spec fn max_value() -> int {
        isize::MAX as int
    }

    proof fn lemma_bounds() {
    }

    proof fn lemma_value_in_range(&self) {
    }

    proof fn lemma_value_injective(a: &Self, b: &Self) {
    }

    fn from_small(v: u8) -> (r: Self) {
        v as isize
    }

    fn is_zero(&self) -> (z: bool) {
        *self == 0
    }
}

} // verus!
