//! Device types and information.
use vstd::prelude::*;
use std::collections::HashMap;

verus! {

/// Represents an INDIGO device.
#[derive(Debug, Clone, PartialEq)]
pub struct Device {
    /// Device name (unique identifier).
    pub name: String,
    /// Device information.
    pub info: DeviceInfo,
    /// Device properties (property name -> property).
    pub properties: HashMap<String, ()>,
}

/// Information about a device.
#[derive(Debug, Clone, PartialEq)]
pub struct DeviceInfo {
    /// Device interface bitmap.
    pub interface: u32,
    /// Device version.
    pub version: Option<String>,
    /// Device driver name.
    pub driver_name: Option<String>,
    /// Device driver version.
    pub driver_version: Option<String>,
    /// Device driver interface.
    pub driver_interface: Option<u32>,
}

impl Default for DeviceInfo {
    fn default() -> (r: DeviceInfo)
        ensures
            r.interface == 0,
            r.version is None,
            r.driver_name is None,
            r.driver_version is None,
            r.driver_interface is None,
    {
        DeviceInfo {
            interface: 0,
            version: None,
            driver_name: None,
            driver_version: None,
            driver_interface: None,
        }
    }
}

impl Device {
    /// Creates a new device with the given name.
    pub fn new(name: &str) -> (r: Device)
        ensures
            r.name@ == name@,
            r.info.interface == 0,
            r.info.version is None,
            r.info.driver_name is None,
            r.info.driver_version is None,
            r.info.driver_interface is None,
            r.properties@ == Map::<String, ()>::empty(),
    {
        Device { name: name.to_owned(), info: DeviceInfo::default(), properties: HashMap::new() }
    }

    /// Creates a new device with the given name and info.
    pub fn with_info(name: &str, info: DeviceInfo) -> (r: Device)
        ensures
            r.name@ == name@,
            r.info == info,
            r.properties@ == Map::<String, ()>::empty(),
    {
        Device { name: name.to_owned(), info, properties: HashMap::new() }
    }
}

impl DeviceInfo {
    /// Creates a new device info with the given interface.
    pub fn new(interface: u32) -> (r: DeviceInfo)
        ensures
            r.interface == interface,
            r.version is None,
            r.driver_name is None,
            r.driver_version is None,
            r.driver_interface is None,
    {
        DeviceInfo { interface, ..Default::default() }
    }

    /// Sets the version.
    pub fn with_version(self, version: &str) -> (r: DeviceInfo)
        ensures
            r.version matches Some(v) && v@ == version@,
            r.interface == self.interface,
            r.driver_name == self.driver_name,
            r.driver_version == self.driver_version,
            r.driver_interface == self.driver_interface,
    {
        DeviceInfo { version: Some(version.to_owned()), ..self }
    }

    /// Sets the driver name.
    pub fn with_driver_name(self, driver_name: &str) -> (r: DeviceInfo)
        ensures
            r.driver_name matches Some(v) && v@ == driver_name@,
            r.interface == self.interface,
            r.version == self.version,
            r.driver_version == self.driver_version,
            r.driver_interface == self.driver_interface,
    {
        DeviceInfo { driver_name: Some(driver_name.to_owned()), ..self }
    }

    /// Sets the driver version.
    pub fn with_driver_version(self, driver_version: &str) -> (r: DeviceInfo)
        ensures
            r.driver_version matches Some(v) && v@ == driver_version@,
            r.interface == self.interface,
            r.version == self.version,
            r.driver_name == self.driver_name,
            r.driver_interface == self.driver_interface,
    {
        DeviceInfo { driver_version: Some(driver_version.to_owned()), ..self }
    }

    /// Sets the driver interface.
    pub fn with_driver_interface(self, driver_interface: u32) -> (r: DeviceInfo)
        ensures
            r.driver_interface == Some(driver_interface),
            r.interface == self.interface,
            r.version == self.version,
            r.driver_name == self.driver_name,
            r.driver_version == self.driver_version,
    {
        DeviceInfo { driver_interface: Some(driver_interface), ..self }
    }
}

} // verus!
