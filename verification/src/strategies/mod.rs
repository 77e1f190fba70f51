//! Client strategy implementations.
pub mod rs;
pub mod ffi;
