//! Device drivers: their metadata, the INDIGO interfaces they implement, the
//! properties they own and the data types of the high-level device traits.
pub mod context;
pub mod driver;
pub mod property_manager;
pub mod registry;
pub mod traits;

pub use context::DeviceContext;
pub use driver::{DeviceInterface, DriverInfo};
pub use property_manager::{PropertyManager, PropertyUpdate};
pub use registry::DriverRegistry;
