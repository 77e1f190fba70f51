//! INDIGO protocol constants: well-known property and item names.
use vstd::prelude::*;

verus! {

/// The name of the property that describes a device.
pub const INFO_PROPERTY: &'static str = "INFO";

/// The name of the property that connects and disconnects a device.
pub const CONNECTION_PROPERTY: &'static str = "CONNECTION";

/// The item of `CONNECTION` that is on while the device is connected.
pub const CONNECTION_CONNECTED_ITEM: &'static str = "CONNECTED";

/// The item of `CONNECTION` that is on while the device is disconnected.
pub const CONNECTION_DISCONNECTED_ITEM: &'static str = "DISCONNECTED";

} // verus!
