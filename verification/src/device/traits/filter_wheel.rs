//! Filter wheel data types.
use vstd::prelude::*;

verus! {

/// A filter in a slot of a filter wheel.
#[derive(Debug, Clone)]
pub struct FilterInfo {
    /// Slot number (1-based)
    pub slot: u32,
    /// Filter name
    pub name: String,
    /// Filter offset (focus compensation)
    pub offset: i32,
}

} // verus!
