pub mod device;
pub mod manager;
pub mod network;

pub use device::{Device, DeviceError, DeviceResult, DeviceStatus};
