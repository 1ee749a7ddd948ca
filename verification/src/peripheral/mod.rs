//! Network devices built on a protocol handler, and an HTTP handler that keeps
//! the last response for byte-wise reads.

pub mod http;

use vstd::prelude::*;

use crate::device::{Device, DeviceError, DeviceResult, DeviceStatus};
use crate::device::network::network_device::{device_status_for, device_status_result, status_of_connection};
use crate::device::network::protocols::ProtocolHandler;
use crate::platform::create_http_client;
use crate::device::network::protocols::registry::{http_name, https_name};
use crate::device::network::url::{find_sep, first_sep, has_sep, str_eq};

pub use http::{HttpProtocol, HttpProtocolHandler, HttpRequest, HttpResponse};

verus! {

/// A network device that talks to its endpoint through protocol handler `P`.
pub struct NetworkDevice<P: ProtocolHandler> {
    endpoint: String,
    protocol: P,
}

impl<P: ProtocolHandler> NetworkDevice<P> {
    /// The endpoint the device opens.
    pub closed spec fn endpoint_view(&self) -> Seq<char> {
        self.endpoint@
    }

    /// The protocol handler.
    pub closed spec fn protocol_view(&self) -> P {
        self.protocol
    }

    /// A device for `endpoint` that speaks through `protocol`.
    pub fn new(endpoint: String, protocol: P) -> (r: Self)
        ensures
            r.endpoint_view() == endpoint@,
            r.protocol_view() == protocol,
    {
        NetworkDevice { endpoint, protocol }
    }
}

impl<P: ProtocolHandler> Device for NetworkDevice<P> {
    open spec fn name_spec(&self) -> Seq<char> {
        seq!['n', 'e', 't', 'w', 'o', 'r', 'k']
    }

    open spec fn device_status_spec(&self) -> DeviceResult<DeviceStatus> {
        device_status_result(self.protocol_view().status_spec())
    }

    fn name(&self) -> (r: &str)
        ensures
            r@ == seq!['n', 'e', 't', 'w', 'o', 'r', 'k'],
    {
        let n = "network";
        proof {
            reveal_strlit("network");
        }
        n
    }

    /// Opens the protocol on the endpoint.
    fn open(&mut self) -> (r: DeviceResult<()>)
        ensures
            final(self).endpoint_view() == old(self).endpoint_view(),
            final(self).protocol_view().last_outcome() == Some(r),
            final(self).protocol_view().opened_endpoint() == Some(old(self).endpoint_view()),
            final(self).device_status_spec() == device_status_result(old(self).protocol_view().status_after_open(r)),
            r is Ok ==> final(self).device_status_spec() == Ok::<DeviceStatus, DeviceError>(DeviceStatus::Ready),
    {
        self.protocol.open(self.endpoint.as_str())
    }

    /// Closes the protocol.
    fn close(&mut self) -> (r: DeviceResult<()>)
        ensures
            final(self).endpoint_view() == old(self).endpoint_view(),
            final(self).protocol_view().last_outcome() == Some(r),
            final(self).device_status_spec() == device_status_result(old(self).protocol_view().status_after_close(r)),
            r is Ok ==> final(self).device_status_spec() == Ok::<DeviceStatus, DeviceError>(DeviceStatus::Disconnected),
    {
        self.protocol.close()
    }

    /// Reads through the protocol.
    fn read_bytes(&mut self, buf: &mut [u8]) -> (r: DeviceResult<usize>)
        ensures
            final(self).endpoint_view() == old(self).endpoint_view(),
    {
        self.protocol.read(buf)
    }

    /// Writes through the protocol.
    fn write_bytes(&mut self, buf: &[u8]) -> (r: DeviceResult<usize>)
        ensures
            final(self).endpoint_view() == old(self).endpoint_view(),
    {
        self.protocol.write(buf)
    }

    /// Block reads are not supported.
    fn read_block(&mut self, block: u32, buf: &mut [u8]) -> (r: DeviceResult<usize>)
        ensures
            r == Err::<usize, DeviceError>(DeviceError::NotSupported),
    {
        Err(DeviceError::NotSupported)
    }

    /// Block writes are not supported.
    fn write_block(&mut self, block: u32, buf: &[u8]) -> (r: DeviceResult<usize>)
        ensures
            r == Err::<usize, DeviceError>(DeviceError::NotSupported),
    {
        Err(DeviceError::NotSupported)
    }

    /// The protocol's connection status, as a device status.
    fn get_status(&self) -> (r: DeviceResult<DeviceStatus>)
        ensures
            r == device_status_result(self.protocol_view().status_spec()),
    {
        match self.protocol.status() {
            Ok(c) => Ok(device_status_for(&c)),
            Err(e) => Err(e),
        }
    }
}

/// The scheme of an endpoint: the text before the first "://", or the whole
/// endpoint when it has none.
pub open spec fn endpoint_scheme(endpoint: Seq<char>) -> Seq<char> {
    if has_sep(endpoint) {
        endpoint.take(first_sep(endpoint))
    } else {
        endpoint
    }
}

/// Whether devices can be made for endpoints of `scheme`: exactly "http" and
/// "https".
pub open spec fn is_device_scheme(scheme: Seq<char>) -> bool {
    scheme == http_name() || scheme == https_name()
}

/// Makes the device for `endpoint`: an HTTP network device, not yet opened and
/// without a client, for the schemes "http" and "https"; `InvalidProtocol` for
/// any other scheme.
pub fn new_network_device(endpoint: String) -> (r: DeviceResult<Box<dyn Device>>)
    ensures
        r is Ok <==> is_device_scheme(endpoint_scheme(endpoint@)),
        r matches Err(e) ==> e == DeviceError::InvalidProtocol,
        r matches Ok(d) ==> d.name_spec() == seq!['n', 'e', 't', 'w', 'o', 'r', 'k']
            && d.device_status_spec() == Ok::<DeviceStatus, DeviceError>(DeviceStatus::Disconnected),
{
    let scheme: &str = match find_sep(endpoint.as_str()) {
        Some(i) => endpoint.as_str().substring_char(0, i),
        None => endpoint.as_str(),
    };
    let http = "http";
    let https = "https";
    proof {
        reveal_strlit("http");
        reveal_strlit("https");
        assert(http@ =~= http_name());
        assert(https@ =~= https_name());
        assert(scheme@ =~= endpoint_scheme(endpoint@));
    }
    if str_eq(scheme, http) || str_eq(scheme, https) {
        let device = NetworkDevice::new(endpoint, HttpProtocol::default());
        Ok(Box::new(device))
    } else {
        Err(DeviceError::InvalidProtocol)
    }
}

/// Makes an HTTP protocol handler for `url`: for the schemes "http" and "https" a
/// handler, not yet opened, with the platform's HTTP client, or the error the
/// platform gives when it has no client; `InvalidProtocol` for any other scheme.
pub fn new_http_device(url: String) -> (r: DeviceResult<Box<dyn HttpProtocolHandler>>)
    ensures
        !is_device_scheme(endpoint_scheme(url@)) ==> (r matches Err(e) && e == DeviceError::InvalidProtocol),
        is_device_scheme(endpoint_scheme(url@)) ==> (r matches Err(e) && e == DeviceError::NotSupported),
{
    match new_network_device(url) {
        Err(e) => Err(e),
        Ok(_device) => {
            let client = match create_http_client() {
                Ok(c) => c,
                Err(e) => return Err(e),
            };
            let mut http_protocol = HttpProtocol::default();
            http_protocol.set_http_client(client);
            Ok(Box::new(http_protocol))
        },
    }
}

} // verus!
