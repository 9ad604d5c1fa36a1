//! The checked engine and the primitive capability it is built on.
pub mod checked_operations;
pub mod helper_traits;
pub mod primitive_impls;
