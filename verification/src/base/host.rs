use vstd::prelude::*;

use super::error::DeviceResult;

verus! {

/// Translates data between the host machine and the devices.
pub trait HostTranslator {
    /// Initializes the host translator.
    fn initialize(&mut self) -> DeviceResult<()>;

    /// Processes data coming from the host.
    fn process_host_data(&mut self, data: &[u8]) -> DeviceResult<Vec<u8>>;

    /// Processes data going to the host.
    fn process_device_data(&mut self, data: &[u8]) -> DeviceResult<Vec<u8>>;
}

} // verus!
