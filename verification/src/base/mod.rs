//! The core device interfaces: errors, devices, host translation, network drivers
//! and the result codes handed to C callers.

pub mod device;
pub mod error;
pub mod ffi;
pub mod host;
pub mod platform;

pub use device::{Device, DeviceStatus, NetworkDevice};
pub use error::{DeviceError, DeviceResult};
pub use host::HostTranslator;
