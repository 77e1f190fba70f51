//! Focuser data types.
use vstd::prelude::*;

verus! {

/// What a focuser can do.
#[derive(Debug, Clone)]
pub struct FocuserInfo {
    /// Maximum position in steps
    pub max_position: u32,
    /// Whether the focuser supports absolute positioning
    pub has_absolute: bool,
    /// Whether the focuser has temperature compensation
    pub has_temperature_compensation: bool,
}

} // verus!
