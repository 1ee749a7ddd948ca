use vstd::prelude::*;

use super::error::DeviceError;

verus! {

/// Result codes handed to C callers.
#[derive(Debug, Clone, Copy, PartialEq, Eq, Structural)]
pub enum FujiError {
    Success,
    Io,
    NotReady,
    NotSupported,
    InvalidParameter,
    ConnectionError,
}

/// The number a result code is handed to C callers as.
pub open spec fn fuji_error_number(e: FujiError) -> u8 {
    match e {
        FujiError::Success => 0,
        FujiError::Io => 1,
        FujiError::NotReady => 2,
        FujiError::NotSupported => 3,
        FujiError::InvalidParameter => 4,
        FujiError::ConnectionError => 5,
    }
}

/// The result code of each device error.
pub open spec fn fuji_error_of(err: DeviceError) -> FujiError {
    match err {
        DeviceError::Io(_) => FujiError::Io,
        DeviceError::NotReady => FujiError::NotReady,
        DeviceError::NotSupported => FujiError::NotSupported,
        DeviceError::InvalidParameter(_) => FujiError::InvalidParameter,
        DeviceError::ConnectionError(_) => FujiError::ConnectionError,
    }
}

impl FujiError {
    /// The number this result code is handed to C callers as.
    pub fn number(&self) -> (r: u8)
        ensures
            r == fuji_error_number(*self),
    {
        match self {
            FujiError::Success => 0,
            FujiError::Io => 1,
            FujiError::NotReady => 2,
            FujiError::NotSupported => 3,
            FujiError::InvalidParameter => 4,
            FujiError::ConnectionError => 5,
        }
    }
}

impl From<DeviceError> for FujiError {
    fn from(err: DeviceError) -> (r: Self)
        ensures
            r == fuji_error_of(err),
    {
        match err {
            DeviceError::Io(_) => FujiError::Io,
            DeviceError::NotReady => FujiError::NotReady,
            DeviceError::NotSupported => FujiError::NotSupported,
            DeviceError::InvalidParameter(_) => FujiError::InvalidParameter,
            DeviceError::ConnectionError(_) => FujiError::ConnectionError,
        }
    }
}

impl vstd::std_specs::convert::FromSpecImpl<DeviceError> for FujiError {
    open spec fn obeys_from_spec() -> bool {
        true
    }

    open spec fn from_spec(v: DeviceError) -> Self {
        fuji_error_of(v)
    }
}

} // verus!
