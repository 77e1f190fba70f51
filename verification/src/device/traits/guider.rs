//! Guider data types.
use vstd::prelude::*;

verus! {

/// Direction of a guide pulse.
#[derive(Debug, Clone, Copy, PartialEq, Eq)]
pub enum GuideDirection {
    North,
    South,
    East,
    West,
}

/// A guide pulse: a direction and a duration in milliseconds.
#[derive(Debug, Clone, Copy)]
pub struct GuidePulse {
    /// Direction of the pulse
    pub direction: GuideDirection,
    /// Duration in milliseconds
    pub duration_ms: u32,
}

impl GuidePulse {
    pub fn new(direction: GuideDirection, duration_ms: u32) -> (r: GuidePulse)
        ensures
            r.direction == direction,
            r.duration_ms == duration_ms,
    {
        GuidePulse { direction, duration_ms }
    }
}

} // verus!
