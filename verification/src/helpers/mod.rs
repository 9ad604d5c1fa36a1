//! Text helpers for showing a scaled magnitude to a person.
pub mod pad_to_width;
pub mod to_string_decimals;
