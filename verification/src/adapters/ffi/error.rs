use vstd::prelude::*;

use crate::adapters::common::error::AdapterError;
use crate::device::{DeviceError, DeviceResult};

verus! {

/// No error.
pub const FN_ERR_OK: u8 = 0x00;
/// There was an I/O error or issue with the device.
pub const FN_ERR_IO_ERROR: u8 = 0x01;
/// Function called with bad arguments.
pub const FN_ERR_BAD_CMD: u8 = 0x02;
/// The device is offline.
pub const FN_ERR_OFFLINE: u8 = 0x03;
/// Device-specific non-fatal warning.
pub const FN_ERR_WARNING: u8 = 0x04;
/// There is no network device.
pub const FN_ERR_NO_DEVICE: u8 = 0x05;
/// The network layer has not been initialised.
pub const FN_ERR_NOT_INITIALIZED: u8 = 0x06;
/// Device-specific error that was not handled.
pub const FN_ERR_UNKNOWN: u8 = 0xff;

/// The error code of an adapter error: bad command for invalid arguments and
/// unsupported protocols, no device for unknown URLs and unit indices, I/O error
/// for the rest.
pub open spec fn adapter_error_code(e: AdapterError) -> u8 {
    match e {
        AdapterError::InvalidDeviceSpec => FN_ERR_BAD_CMD,
        AdapterError::InvalidMode => FN_ERR_BAD_CMD,
        AdapterError::InvalidTranslation => FN_ERR_BAD_CMD,
        AdapterError::DeviceError(DeviceError::InvalidUrl) => FN_ERR_NO_DEVICE,
        AdapterError::DeviceError(DeviceError::InvalidDeviceId) => FN_ERR_NO_DEVICE,
        AdapterError::DeviceError(DeviceError::UnsupportedProtocol) => FN_ERR_BAD_CMD,
        AdapterError::DeviceError(_) => FN_ERR_IO_ERROR,
    }
}

/// The error code of an adapter result: `FN_ERR_OK` on success.
pub open spec fn adapter_result_code<T>(r: Result<T, AdapterError>) -> u8 {
    match r {
        Ok(_) => FN_ERR_OK,
        Err(e) => adapter_error_code(e),
    }
}

/// Maps a device result to `FN_ERR_OK` or `FN_ERR_IO_ERROR`, whatever the error.
pub fn device_result_to_error<T>(result: DeviceResult<T>) -> (r: u8)
    ensures
        r == (if result is Ok { FN_ERR_OK } else { FN_ERR_IO_ERROR }),
{
    match result {
        Ok(_) => FN_ERR_OK,
        Err(_) => FN_ERR_IO_ERROR,
    }
}

/// Maps an adapter error to its error code.
pub fn adapter_error_to_ffi(error: AdapterError) -> (r: u8)
    ensures
        r == adapter_error_code(error),
{
    match error {
        AdapterError::InvalidDeviceSpec => FN_ERR_BAD_CMD,
        AdapterError::InvalidMode => FN_ERR_BAD_CMD,
        AdapterError::InvalidTranslation => FN_ERR_BAD_CMD,
        AdapterError::DeviceError(device_error) => match device_error {
            DeviceError::InvalidUrl => FN_ERR_NO_DEVICE,
            DeviceError::InvalidDeviceId => FN_ERR_NO_DEVICE,
            DeviceError::UnsupportedProtocol => FN_ERR_BAD_CMD,
            _ => FN_ERR_IO_ERROR,
        },
    }
}

/// Maps an adapter result to its error code.
pub fn adapter_result_to_ffi<T>(result: Result<T, AdapterError>) -> (r: u8)
    ensures
        r == adapter_result_code(result),
{
    match result {
        Ok(_) => FN_ERR_OK,
        Err(e) => adapter_error_to_ffi(e),
    }
}


/// A failure is never reported as success: every adapter error has a nonzero code.
pub proof fn law_errors_are_never_ok(e: AdapterError)
    ensures
        adapter_error_code(e) != FN_ERR_OK,
        adapter_result_code::<()>(Err(e)) != FN_ERR_OK,
{
}

} // verus!
