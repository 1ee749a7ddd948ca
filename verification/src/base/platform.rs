use vstd::prelude::*;

use crate::device::network::protocols::HeaderMap;
use super::error::{DeviceError, DeviceResult};

verus! {

/// A raw network connection.
pub trait NetworkDriver {
    /// Connects to a network endpoint.
    fn connect(&mut self, endpoint: &str) -> DeviceResult<()>;

    /// Disconnects from the current endpoint.
    fn disconnect(&mut self) -> DeviceResult<()>;

    /// Writes data; returns the number of bytes written.
    fn write(&mut self, data: &[u8]) -> DeviceResult<usize>;

    /// Reads data into `buffer`; returns the number of bytes read.
    fn read(&mut self, buffer: &mut [u8]) -> DeviceResult<usize>;
}

/// An HTTP client.
pub trait HttpClient {
    /// Connects to an endpoint.
    fn connect(&mut self, endpoint: &str) -> DeviceResult<()>;

    /// Disconnects from the current endpoint.
    fn disconnect(&mut self) -> DeviceResult<()>;

    /// Performs a GET request.
    fn get(&mut self, url: &str) -> DeviceResult<Vec<u8>>;

    /// Performs a POST request.
    fn post(&mut self, url: &str, body: &[u8]) -> DeviceResult<Vec<u8>>;

    /// Performs a PUT request.
    fn put(&mut self, url: &str, body: &[u8]) -> DeviceResult<Vec<u8>>;

    /// Performs a DELETE request.
    fn delete(&mut self, url: &str) -> DeviceResult<Vec<u8>>;

    /// Performs a HEAD request.
    fn head(&mut self, url: &str) -> DeviceResult<Vec<u8>>;

    /// Performs a PATCH request.
    fn patch(&mut self, url: &str, body: &[u8]) -> DeviceResult<Vec<u8>>;

    /// Sets a header for subsequent requests.
    fn set_header(&mut self, key: &str, value: &str) -> DeviceResult<()>;

    /// The status code of the last response.
    fn get_status_code(&self) -> DeviceResult<u16>;

    /// The headers of the last response.
    fn get_headers(&self) -> DeviceResult<HeaderMap>;
}

/// Creates the platform's HTTP client; no platform provides one here.
pub fn create_http_client() -> (r: DeviceResult<Box<dyn HttpClient>>)
    ensures
        r matches Err(DeviceError::NotSupported),
{
    Err(DeviceError::NotSupported)
}

} // verus!
