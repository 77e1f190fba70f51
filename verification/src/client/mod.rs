//! Client-side types: server availability monitoring.
pub mod monitoring;
