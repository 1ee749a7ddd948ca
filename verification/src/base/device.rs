use vstd::prelude::*;

use super::error::DeviceResult;

verus! {

/// Status of a device.
#[derive(Debug, Clone, Copy, PartialEq, Eq, Structural)]
pub enum DeviceStatus {
    Ready,
    Busy,
    Error,
    Disconnected,
}

/// A byte- and block-oriented peripheral.
pub trait Device {
    /// Returns the name of the device.
    fn name(&self) -> &str;

    /// Opens the device.
    fn open(&mut self) -> DeviceResult<()>;

    /// Closes the device.
    fn close(&mut self) -> DeviceResult<()>;

    /// Reads bytes from the device.
    fn read_bytes(&mut self, buf: &mut [u8]) -> DeviceResult<usize>;

    /// Writes bytes to the device.
    fn write_bytes(&mut self, buf: &[u8]) -> DeviceResult<usize>;

    /// Reads a block of data from the device.
    fn read_block(&mut self, block: u32, buf: &mut [u8]) -> DeviceResult<usize>;

    /// Writes a block of data to the device.
    fn write_block(&mut self, block: u32, buf: &[u8]) -> DeviceResult<usize>;

    /// Gets the current status of the device.
    fn get_status(&self) -> DeviceResult<DeviceStatus>;
}

/// A device that connects to network endpoints; implementations are expected to
/// be `Device`s as well.
pub trait NetworkDevice {
    /// Connects to a network endpoint.
    fn connect(&mut self, endpoint: &str) -> DeviceResult<()>;

    /// Disconnects from the current endpoint.
    fn disconnect(&mut self) -> DeviceResult<()>;
}

} // verus!
