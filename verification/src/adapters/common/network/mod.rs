pub mod operations;
pub mod test_mocks;

use vstd::prelude::*;

use crate::adapters::common::error::AdapterError;
use crate::device::DeviceError;
use crate::device::manager::MAX_NETWORK_DEVICES;
use crate::device::network::manager::{parse_device_spec_model, NetworkManager, NetworkManagerImpl};
pub use operations::{DeviceOpenRequest, HttpGetRequest, HttpPostRequest, OperationsContext};

verus! {

/// Opens a network device through a freshly made network manager and returns the
/// unit's index. A spec that does not parse is `InvalidDeviceSpec`; a fresh manager
/// has no protocol registered, so every spec that parses is refused as
/// `UnsupportedProtocol`.
pub fn open_device(request: DeviceOpenRequest) -> (r: Result<usize, AdapterError>)
    ensures
        parse_device_spec_model(request.device_spec@) is Err ==> r == Err::<usize, AdapterError>(AdapterError::InvalidDeviceSpec),
        parse_device_spec_model(request.device_spec@) is Ok ==> r == Err::<usize, AdapterError>(
            AdapterError::DeviceError(DeviceError::UnsupportedProtocol),
        ),
{
    let mut manager = NetworkManagerImpl::new();
    let (device_id, _url) = match manager.parse_device_spec(request.device_spec.as_str()) {
        Ok(p) => p,
        Err(_) => return Err(AdapterError::InvalidDeviceSpec),
    };
    match manager.open_device(request.device_spec.as_str(), request.mode, request.translation) {
        Ok(()) => Ok(device_id),
        Err(e) => Err(AdapterError::from(e)),
    }
}

/// Closes unit `device_id` through a freshly made network manager, which holds no
/// device, so the close always succeeds.
pub fn close_device(device_id: usize) -> (r: Result<(), AdapterError>)
    requires
        device_id < MAX_NETWORK_DEVICES,
    ensures
        r is Ok,
{
    let mut manager = NetworkManagerImpl::new();
    let closed = manager.close_device(device_id);
    match closed {
        Ok(true) => Ok(()),
        Ok(false) => Err(AdapterError::DeviceError(DeviceError::InvalidUrl)),
        Err(e) => Err(AdapterError::DeviceError(e)),
    }
}

} // verus!
