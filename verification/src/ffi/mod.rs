pub mod platform;

use vstd::prelude::*;

use crate::device::{DeviceError, DeviceResult};

pub use platform::NetworkDeviceManager;

verus! {

/// Result codes of the device, platform and host-translator calls.
#[derive(Debug, Clone, Copy, PartialEq, Eq, Structural)]
pub enum FujiError {
    Success,
    IoError,
    NotReady,
    NotSupported,
    InvalidParameter,
    InvalidProtocol,
    InvalidOperation,
    NetworkError,
}

/// The number a result code is handed to C callers as.
pub open spec fn fuji_error_number(e: FujiError) -> u8 {
    match e {
        FujiError::Success => 0,
        FujiError::IoError => 1,
        FujiError::NotReady => 2,
        FujiError::NotSupported => 3,
        FujiError::InvalidParameter => 4,
        FujiError::InvalidProtocol => 5,
        FujiError::InvalidOperation => 6,
        FujiError::NetworkError => 7,
    }
}

/// The result code a device error is reported as; an unsupported protocol counts
/// as an invalid protocol, a bad URL or unit as an invalid parameter.
pub open spec fn fuji_error_of(err: DeviceError) -> FujiError {
    match err {
        DeviceError::IoError(_) => FujiError::IoError,
        DeviceError::NotReady => FujiError::NotReady,
        DeviceError::NotSupported => FujiError::NotSupported,
        DeviceError::InvalidProtocol => FujiError::InvalidProtocol,
        DeviceError::InvalidOperation => FujiError::InvalidOperation,
        DeviceError::NetworkError(_) => FujiError::NetworkError,
        DeviceError::UnsupportedProtocol => FujiError::InvalidProtocol,
        DeviceError::InvalidUrl => FujiError::InvalidParameter,
        DeviceError::InvalidDeviceId => FujiError::InvalidParameter,
    }
}

impl FujiError {
    /// The number this result code is handed to C callers as.
    pub fn number(&self) -> (r: u8)
        ensures
            r == fuji_error_number(*self),
    {
        match self {
            FujiError::Success => 0,
            FujiError::IoError => 1,
            FujiError::NotReady => 2,
            FujiError::NotSupported => 3,
            FujiError::InvalidParameter => 4,
            FujiError::InvalidProtocol => 5,
            FujiError::InvalidOperation => 6,
            FujiError::NetworkError => 7,
        }
    }
}

impl From<DeviceError> for FujiError {
    fn from(err: DeviceError) -> (r: Self)
        ensures
            r == fuji_error_of(err),
    {
        match err {
            DeviceError::IoError(_) => FujiError::IoError,
            DeviceError::NotReady => FujiError::NotReady,
            DeviceError::NotSupported => FujiError::NotSupported,
            DeviceError::InvalidProtocol => FujiError::InvalidProtocol,
            DeviceError::InvalidOperation => FujiError::InvalidOperation,
            DeviceError::NetworkError(_) => FujiError::NetworkError,
            DeviceError::UnsupportedProtocol => FujiError::InvalidProtocol,
            DeviceError::InvalidUrl => FujiError::InvalidParameter,
            DeviceError::InvalidDeviceId => FujiError::InvalidParameter,
        }
    }
}

impl vstd::std_specs::convert::FromSpecImpl<DeviceError> for FujiError {
    open spec fn obeys_from_spec() -> bool {
        true
    }

    open spec fn from_spec(v: DeviceError) -> Self {
        fuji_error_of(v)
    }
}

/// The error code of a device result: 0 on success, 1 for an I/O error, 3 when
/// the device is not ready, 4 for a network error, 255 for anything else.
pub open spec fn device_error_number(result: DeviceResult<()>) -> u8 {
    match result {
        Ok(_) => 0,
        Err(DeviceError::IoError(_)) => 1,
        Err(DeviceError::NotReady) => 3,
        Err(DeviceError::NetworkError(_)) => 4,
        Err(_) => 255,
    }
}

/// Maps a device result to its error code.
pub fn device_result_to_error(result: DeviceResult<()>) -> (r: u8)
    ensures
        r == device_error_number(result),
{
    match result {
        Ok(_) => 0,
        Err(e) => match e {
            DeviceError::IoError(_) => 1,
            DeviceError::NotReady => 3,
            DeviceError::NetworkError(_) => 4,
            _ => 255,
        },
    }
}

/// The code an HTTP call through the shared client reports: `FN_ERR_NO_DEVICE`
/// (5) when no client is set up, otherwise the code of the client's result with
/// its body dropped.
pub open spec fn client_call_number(reply: Option<DeviceResult<Seq<u8>>>) -> u8 {
    match reply {
        None => 5,
        Some(Ok(_)) => 0,
        Some(Err(e)) => device_error_number(Err(e)),
    }
}

/// The code for a client's reply, `None` when there was no client to ask.
pub fn client_call_code(reply: Option<DeviceResult<Vec<u8>>>) -> (r: u8)
    ensures
        r == client_call_number(
            match reply {
                None => None,
                Some(Ok(b)) => Some(Ok(b@)),
                Some(Err(e)) => Some(Err(e)),
            },
        ),
{
    match reply {
        None => 5,
        Some(Ok(_)) => device_result_to_error(Ok(())),
        Some(Err(e)) => device_result_to_error(Err(e)),
    }
}


/// A failure is never reported as success: every device error has a nonzero code
/// and a result code other than `Success`.
pub proof fn law_device_errors_are_never_ok(e: DeviceError)
    ensures
        device_error_number(Err(e)) != 0,
        fuji_error_of(e) != FujiError::Success,
        fuji_error_number(fuji_error_of(e)) != 0,
{
}

/// The result code of a device, platform or translator call that returns nothing.
pub fn call_code(result: DeviceResult<()>) -> (r: FujiError)
    ensures
        r == match result {
            Ok(()) => FujiError::Success,
            Err(e) => fuji_error_of(e),
        },
{
    match result {
        Ok(()) => FujiError::Success,
        Err(e) => FujiError::from(e),
    }
}

/// The result code of a byte read or write, with the count to hand back when it
/// succeeded.
pub fn count_code(result: DeviceResult<usize>) -> (r: (FujiError, Option<usize>))
    ensures
        r == match result {
            Ok(n) => (FujiError::Success, Some(n)),
            Err(e) => (fuji_error_of(e), None::<usize>),
        },
{
    match result {
        Ok(n) => (FujiError::Success, Some(n)),
        Err(e) => (FujiError::from(e), None),
    }
}

/// The result code of a host-translator call, with the data to hand back when it
/// succeeded.
pub fn translation_code(result: DeviceResult<Vec<u8>>) -> (r: (FujiError, Option<Vec<u8>>))
    ensures
        match result {
            Ok(data) => r.0 == FujiError::Success && (r.1 matches Some(out) && out@ == data@),
            Err(e) => r.0 == fuji_error_of(e) && r.1 is None,
        },
{
    match result {
        Ok(data) => (FujiError::Success, Some(data)),
        Err(e) => (FujiError::from(e), None),
    }
}

/// The code of adding a header through the shared client: 0 when there is a
/// client, 5 (no device) when there is none. The header itself is not recorded.
pub fn header_call_code(has_client: bool) -> (r: u8)
    ensures
        r == (if has_client { 0u8 } else { 5u8 }),
{
    if has_client {
        device_result_to_error(Ok(()))
    } else {
        5
    }
}

} // verus!
