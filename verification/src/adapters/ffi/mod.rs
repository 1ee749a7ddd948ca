pub mod device;
pub mod error;
pub mod network;
pub mod test_operations;

pub use device::FujiError;
pub use error::{
    adapter_error_to_ffi, adapter_result_to_ffi, device_result_to_error, FN_ERR_BAD_CMD, FN_ERR_IO_ERROR,
    FN_ERR_NOT_INITIALIZED, FN_ERR_NO_DEVICE, FN_ERR_OFFLINE, FN_ERR_OK, FN_ERR_UNKNOWN, FN_ERR_WARNING,
};
