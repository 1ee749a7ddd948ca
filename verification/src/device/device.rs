use vstd::prelude::*;

verus! {

/// Coarse status of a device as seen by its users.
#[derive(Debug, Clone, Copy, PartialEq, Eq, Structural)]
pub enum DeviceStatus {
    Ready,
    Error,
    Disconnected,
}

/// Error type for device operations.
#[derive(Debug, PartialEq)]
pub enum DeviceError {
    NotSupported,
    NotReady,
    InvalidProtocol,
    InvalidOperation,
    IoError(String),
    NetworkError(String),
    UnsupportedProtocol,
    InvalidUrl,
    InvalidDeviceId,
}

impl Clone for DeviceError {
    fn clone(&self) -> (r: Self)
        ensures
            r == *self,
    {
        match self {
            DeviceError::NotSupported => DeviceError::NotSupported,
            DeviceError::NotReady => DeviceError::NotReady,
            DeviceError::InvalidProtocol => DeviceError::InvalidProtocol,
            DeviceError::InvalidOperation => DeviceError::InvalidOperation,
            DeviceError::IoError(m) => DeviceError::IoError(m.clone()),
            DeviceError::NetworkError(m) => DeviceError::NetworkError(m.clone()),
            DeviceError::UnsupportedProtocol => DeviceError::UnsupportedProtocol,
            DeviceError::InvalidUrl => DeviceError::InvalidUrl,
            DeviceError::InvalidDeviceId => DeviceError::InvalidDeviceId,
        }
    }
}

/// Result type for device operations.
pub type DeviceResult<T> = Result<T, DeviceError>;

/// A byte-oriented peripheral.
///
/// Its spec functions are left unspecified for an implementation that does not
/// define them.
pub trait Device {
    /// The device's name.
    closed spec fn name_spec(&self) -> Seq<char> {
        arbitrary()
    }

    /// What the device reports as its status.
    closed spec fn device_status_spec(&self) -> DeviceResult<DeviceStatus> {
        arbitrary()
    }

    /// Returns the name of the device.
    fn name(&self) -> (r: &str)
        ensures
            r@ == self.name_spec();

    /// Opens the device.
    fn open(&mut self) -> DeviceResult<()>;

    /// Closes the device.
    fn close(&mut self) -> DeviceResult<()>;

    /// Reads bytes from the device.
    fn read_bytes(&mut self, buf: &mut [u8]) -> DeviceResult<usize>;

    /// Writes bytes to the device.
    fn write_bytes(&mut self, buf: &[u8]) -> DeviceResult<usize>;

    /// Reads a block of data from the device.
    fn read_block(&mut self, block: u32, buf: &mut [u8]) -> DeviceResult<usize>;

    /// Writes a block of data to the device.
    fn write_block(&mut self, block: u32, buf: &[u8]) -> DeviceResult<usize>;

    /// Gets the current status of the device.
    fn get_status(&self) -> (r: DeviceResult<DeviceStatus>)
        ensures
            r == self.device_status_spec();
}

} // verus!
