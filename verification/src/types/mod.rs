//! Core types for INDIGO properties, devices, and values.
pub mod device;
pub mod property;
pub mod value;
