//! The native engine and the link between the native operators and the
//! integers they compute on.
pub mod native;
pub mod operations;
