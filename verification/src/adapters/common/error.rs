use vstd::prelude::*;

use crate::device::DeviceError;

verus! {

/// Errors of the adapter layer.
#[derive(Debug)]
pub enum AdapterError {
    /// The device specification was invalid.
    InvalidDeviceSpec,
    /// The requested mode was invalid.
    InvalidMode,
    /// The translation setting was invalid.
    InvalidTranslation,
    /// An error occurred while operating the device.
    DeviceError(DeviceError),
}

impl From<DeviceError> for AdapterError {
    fn from(err: DeviceError) -> (r: Self)
        ensures
            r == AdapterError::DeviceError(err),
    {
        AdapterError::DeviceError(err)
    }
}

impl vstd::std_specs::convert::FromSpecImpl<DeviceError> for AdapterError {
    open spec fn obeys_from_spec() -> bool {
        true
    }

    open spec fn from_spec(v: DeviceError) -> Self {
        AdapterError::DeviceError(v)
    }
}

} // verus!
