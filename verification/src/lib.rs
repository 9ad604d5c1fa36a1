//! Fixed-point decimal arithmetic on primitive integers.
//!
//! A decimal value is a raw integer magnitude together with a scale, the number
//! of decimal places the magnitude carries: magnitude `12345` at scale `2`
//! denotes `123.45`. The scale is not stored with the magnitude; every
//! operation takes two magnitudes and their two scales and returns the result
//! magnitude with the scale it is denominated in.
//!
//! Two engines share one algorithm. [`DecimalOperations`] uses the native
//! operators and leaves overflow and zero divisors to the caller, as
//! preconditions. [`CheckedDecimalOperations`] routes every step through the
//! checked primitives and reports a [`DecimalOperationError`] instead.
pub mod arithmetic;
pub mod checked;
pub mod error;
pub mod helpers;
pub mod laws;
pub mod magnitude;
pub mod scale;
pub mod unchecked;

pub use checked::checked_operations::CheckedDecimalOperations;
pub use checked::helper_traits::{CheckedAdd, CheckedDiv, CheckedMul, CheckedRem, CheckedSub};
pub use error::DecimalOperationError;
pub use helpers::pad_to_width::PadToWidth;
pub use helpers::to_string_decimals::ToStringDecimals;
pub use magnitude::Magnitude;
pub use unchecked::native::NativeArithmetic;
pub use unchecked::operations::DecimalOperations;
