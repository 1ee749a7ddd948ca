use vstd::prelude::*;

use crate::device::DeviceError;
use super::error::{FN_ERR_BAD_CMD, FN_ERR_IO_ERROR, FN_ERR_NO_DEVICE, FN_ERR_OFFLINE, FN_ERR_OK, FN_ERR_WARNING};

verus! {

/// Result codes of the device calls, each standing for one of the error codes.
#[derive(Debug, Clone, Copy, PartialEq, Eq, Structural)]
pub enum FujiError {
    Success,
    IoError,
    NotReady,
    NotSupported,
    InvalidParameter,
    NetworkError,
}

/// The error code a result code stands for.
pub open spec fn fuji_error_code(e: FujiError) -> u8 {
    match e {
        FujiError::Success => FN_ERR_OK,
        FujiError::IoError => FN_ERR_IO_ERROR,
        FujiError::NotReady => FN_ERR_OFFLINE,
        FujiError::NotSupported => FN_ERR_NO_DEVICE,
        FujiError::InvalidParameter => FN_ERR_BAD_CMD,
        FujiError::NetworkError => FN_ERR_WARNING,
    }
}

/// The result code a device error is reported as.
pub open spec fn fuji_error_of(err: DeviceError) -> FujiError {
    match err {
        DeviceError::IoError(_) => FujiError::IoError,
        DeviceError::NotReady => FujiError::NotReady,
        DeviceError::NotSupported => FujiError::NotSupported,
        DeviceError::InvalidProtocol => FujiError::InvalidParameter,
        DeviceError::InvalidOperation => FujiError::InvalidParameter,
        DeviceError::NetworkError(_) => FujiError::NetworkError,
        DeviceError::UnsupportedProtocol => FujiError::InvalidParameter,
        DeviceError::InvalidUrl => FujiError::InvalidParameter,
        DeviceError::InvalidDeviceId => FujiError::InvalidParameter,
    }
}

impl FujiError {
    /// The error code this result code stands for.
    pub fn code(&self) -> (r: u8)
        ensures
            r == fuji_error_code(*self),
    {
        match self {
            FujiError::Success => FN_ERR_OK,
            FujiError::IoError => FN_ERR_IO_ERROR,
            FujiError::NotReady => FN_ERR_OFFLINE,
            FujiError::NotSupported => FN_ERR_NO_DEVICE,
            FujiError::InvalidParameter => FN_ERR_BAD_CMD,
            FujiError::NetworkError => FN_ERR_WARNING,
        }
    }
}

impl From<DeviceError> for FujiError {
    fn from(err: DeviceError) -> (r: Self)
        ensures
            r == fuji_error_of(err),
    {
        match err {
            DeviceError::IoError(_) => FujiError::IoError,
            DeviceError::NotReady => FujiError::NotReady,
            DeviceError::NotSupported => FujiError::NotSupported,
            DeviceError::InvalidProtocol => FujiError::InvalidParameter,
            DeviceError::InvalidOperation => FujiError::InvalidParameter,
            DeviceError::NetworkError(_) => FujiError::NetworkError,
            DeviceError::UnsupportedProtocol => FujiError::InvalidParameter,
            DeviceError::InvalidUrl => FujiError::InvalidParameter,
            DeviceError::InvalidDeviceId => FujiError::InvalidParameter,
        }
    }
}

impl vstd::std_specs::convert::FromSpecImpl<DeviceError> for FujiError {
    open spec fn obeys_from_spec() -> bool {
        true
    }

    open spec fn from_spec(v: DeviceError) -> Self {
        fuji_error_of(v)
    }
}

} // verus!
