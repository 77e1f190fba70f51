//! Mount data types.
use vstd::prelude::*;

verus! {

/// Mechanical type of a mount.
#[derive(Debug, Clone, Copy, PartialEq, Eq)]
pub enum MountType {
    Equatorial,
    AltAz,
    Fork,
    Unknown,
}

/// Tracking rate of a mount.
#[derive(Debug, Clone, Copy, PartialEq, Eq)]
pub enum TrackingMode {
    Sidereal,
    Solar,
    Lunar,
    /// Custom rate index
    Custom(u32),
    Off,
}

/// Slew rate of a mount.
#[derive(Debug, Clone, Copy, PartialEq, Eq)]
pub enum SlewRate {
    Guide,
    Centering,
    Find,
    Max,
}

/// An axis of a mount.
#[derive(Debug, Clone, Copy, PartialEq, Eq)]
pub enum MountAxis {
    Primary,
    Secondary,
}

/// Direction of motion along an axis.
#[derive(Debug, Clone, Copy, PartialEq, Eq)]
pub enum AxisDirection {
    Forward,
    Reverse,
}

} // verus!
