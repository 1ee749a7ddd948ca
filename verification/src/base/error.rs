use vstd::prelude::*;

verus! {

/// Error of a device operation.
#[derive(Debug, PartialEq)]
pub enum DeviceError {
    /// I/O error, with its description.
    Io(String),
    /// The device is not ready.
    NotReady,
    /// The operation is not supported.
    NotSupported,
    /// A parameter was invalid, with its description.
    InvalidParameter(String),
    /// The connection failed, with its description.
    ConnectionError(String),
}

impl Clone for DeviceError {
    fn clone(&self) -> (r: Self)
        ensures
            r == *self,
    {
        match self {
            DeviceError::Io(m) => DeviceError::Io(m.clone()),
            DeviceError::NotReady => DeviceError::NotReady,
            DeviceError::NotSupported => DeviceError::NotSupported,
            DeviceError::InvalidParameter(m) => DeviceError::InvalidParameter(m.clone()),
            DeviceError::ConnectionError(m) => DeviceError::ConnectionError(m.clone()),
        }
    }
}

/// Result of a device operation.
pub type DeviceResult<T> = Result<T, DeviceError>;

} // verus!
