use vstd::prelude::*;

verus! {

/// Request to open a network device.
#[derive(Debug)]
pub struct DeviceOpenRequest {
    /// The device specification (e.g. "N1:http://example.com").
    pub device_spec: String,
    /// The mode for opening the device.
    pub mode: u8,
    /// The translation setting.
    pub translation: u8,
}

/// Request for an HTTP POST.
#[derive(Debug)]
pub struct HttpPostRequest {
    /// The device specification.
    pub device_spec: String,
    /// The unit's index, once known.
    pub device_id: Option<usize>,
    /// The data to POST.
    pub data: Vec<u8>,
}

/// Request for an HTTP GET.
#[derive(Debug)]
pub struct HttpGetRequest {
    /// The device specification.
    pub device_spec: String,
    /// The unit's index, once known.
    pub device_id: Option<usize>,
    /// The buffer that receives the response.
    pub buffer: Vec<u8>,
}

impl HttpGetRequest {
    /// A request whose unit index is not known yet.
    pub fn new(device_spec: String, buffer: Vec<u8>) -> (r: Self)
        ensures
            r.device_spec == device_spec,
            r.device_id is None,
            r.buffer == buffer,
    {
        HttpGetRequest { device_spec, device_id: None, buffer }
    }
}

impl HttpPostRequest {
    /// A request whose unit index is not known yet.
    pub fn new(device_spec: String, data: Vec<u8>) -> (r: Self)
        ensures
            r.device_spec == device_spec,
            r.device_id is None,
            r.data == data,
    {
        HttpPostRequest { device_spec, device_id: None, data }
    }
}

} // verus!
