//! Data types of the high-level device traits (cameras, filter wheels, focusers,
//! guiders and mounts) and the proxy that caches a device's properties for them.
pub mod camera;
pub mod filter_wheel;
pub mod focuser;
pub mod guider;
pub mod mount;
pub mod proxy;

pub use proxy::DeviceProxy;
