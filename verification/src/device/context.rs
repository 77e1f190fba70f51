//! Runtime context for device drivers.
use vstd::prelude::*;
use super::property_manager::{ManagerView, PropertyManager};

verus! {

/// Runtime context passed to device driver callbacks.
///
/// Provides access to the property manager and other runtime services
/// that device drivers need during their lifecycle.
pub struct DeviceContext {
    property_manager: PropertyManager,
    connected: bool,
}

/// What a device context holds.
pub struct ContextView {
    pub properties: ManagerView,
    pub connected: bool,
}

impl View for DeviceContext {
    type V = ContextView;

    closed spec fn view(&self) -> ContextView {
        ContextView { properties: self.property_manager@, connected: self.connected }
    }
}

impl DeviceContext {
    /// Create a new device context: no properties, not connected.
    pub fn new(device_name: &str) -> (r: DeviceContext)
        ensures
            r@ == (ContextView {
                properties: ManagerView {
                    device_name: device_name@,
                    properties: Map::empty(),
                    pending: Seq::empty(),
                },
                connected: false,
            }),
    {
        DeviceContext { property_manager: PropertyManager::new(device_name), connected: false }
    }

    /// Get the property manager
    pub fn property_manager(&mut self) -> (r: &mut PropertyManager)
        ensures
            (*r)@ == old(self)@.properties,
            final(self)@ == (ContextView { properties: (*final(r))@, connected: old(self)@.connected }),
    {
        &mut self.property_manager
    }

    /// Get read-only access to the property manager
    pub fn properties(&self) -> (r: &PropertyManager)
        ensures
            r@ == self@.properties,
    {
        &self.property_manager
    }

    /// Check if the device is currently connected
    pub fn is_connected(&self) -> (r: bool)
        ensures
            r == self@.connected,
    {
        self.connected
    }

    /// Set the connected state (called by the runtime, not usually by drivers directly)
    pub fn set_connected(&mut self, connected: bool)
        ensures
            final(self)@ == (ContextView { connected, ..old(self)@ }),
    {
        self.connected = connected;
    }
}

} // verus!
