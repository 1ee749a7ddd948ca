pub mod x86;

use vstd::prelude::*;

use crate::device::{Device, DeviceError, DeviceResult};
use crate::device::network::protocols::HttpClient;

pub use x86::{create_network_manager, create_protocol_registry, HttpProtocolFactory};

verus! {

/// An owned device of any implementation.
pub struct BoxedDevice(pub Box<dyn Device>);

/// A hardware platform that devices run on.
pub trait Platform {
    /// Initializes the platform.
    fn initialize(&mut self) -> DeviceResult<()>;

    /// Shuts the platform down.
    fn shutdown(&mut self) -> DeviceResult<()>;

    /// Creates a device of the named type.
    fn create_device(&self, device_type: &str) -> DeviceResult<BoxedDevice>;
}

/// Creates the platform's HTTP client; no platform provides one here.
pub fn create_http_client() -> (r: DeviceResult<Box<dyn HttpClient>>)
    ensures
        r matches Err(DeviceError::NotSupported),
{
    Err(DeviceError::NotSupported)
}

} // verus!
