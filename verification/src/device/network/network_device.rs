use vstd::prelude::*;

use crate::device::{Device, DeviceError, DeviceResult, DeviceStatus};
use super::protocols::{ConnectionStatus, ProtocolHandler};
use super::protocols::http_client::SentRequest;
use super::url::NetworkUrl;

verus! {

/// A network device: a device whose traffic goes through a protocol handler.
/// Implementations are expected to be `Device`s as well.
pub trait NetworkDevice {
    /// The endpoint the device opens.
    spec fn endpoint_spec(&self) -> Seq<char>;

    /// For a device whose handler is an HTTP handler, the requests that handler
    /// has sent so far; `None` otherwise.
    spec fn handler_sent(&self) -> Option<Seq<SentRequest>>;

    /// What the device's protocol handler reports as its status.
    spec fn handler_status(&self) -> DeviceResult<ConnectionStatus>;

    /// For a device whose handler is an HTTP handler, that handler's answer to its
    /// last request, once there has been one.
    spec fn handler_last_reply(&self) -> Option<DeviceResult<Seq<u8>>>;

    /// The endpoint the device's handler was last opened on, if any.
    spec fn handler_endpoint(&self) -> Option<Seq<char>>;

    /// What the handler's last open or close returned, once there has been one.
    spec fn handler_outcome(&self) -> Option<DeviceResult<()>>;

    /// Connects to a network endpoint; once connected, the handler reports so.
    fn connect(&mut self, endpoint: &str) -> (r: DeviceResult<()>)
        ensures
            final(self).handler_endpoint() == Some(endpoint@),
            final(self).handler_outcome() == Some(r),
            r is Ok ==> final(self).handler_status() == Ok::<ConnectionStatus, DeviceError>(ConnectionStatus::Connected);

    /// Disconnects from the current endpoint; once disconnected, the handler
    /// reports so.
    fn disconnect(&mut self) -> (r: DeviceResult<()>)
        ensures
            final(self).handler_outcome() == Some(r),
            r is Ok ==> final(self).handler_status() == Ok::<ConnectionStatus, DeviceError>(ConnectionStatus::Disconnected);

    /// Opens a connection to the URL, whose scheme selects the protocol; once
    /// connected, the handler reports so.
    fn open_url(&mut self, url: &NetworkUrl) -> (r: DeviceResult<()>)
        ensures
            final(self).handler_endpoint() == Some(url.url@),
            final(self).handler_outcome() == Some(r),
            r is Ok ==> final(self).handler_status() == Ok::<ConnectionStatus, DeviceError>(ConnectionStatus::Connected);

    /// The protocol handler of this device; what is done to it is done to the
    /// device's handler.
    fn protocol_handler(&mut self) -> (r: &mut Box<dyn ProtocolHandler>)
        ensures
            r.http_sent() == old(self).handler_sent(),
            final(self).handler_sent() == final(r).http_sent(),
            final(self).handler_last_reply() == final(r).http_last_reply();
}

/// The device status that a connection status amounts to: only an established
/// connection is ready, a connection being set up counts as disconnected.
pub open spec fn status_of_connection(c: ConnectionStatus) -> DeviceStatus {
    match c {
        ConnectionStatus::Connected => DeviceStatus::Ready,
        ConnectionStatus::Connecting => DeviceStatus::Disconnected,
        ConnectionStatus::Disconnected => DeviceStatus::Disconnected,
        ConnectionStatus::Error(_) => DeviceStatus::Error,
    }
}

/// What a device reports as its status, given what its handler reports.
pub open spec fn device_status_result(c: DeviceResult<ConnectionStatus>) -> DeviceResult<DeviceStatus> {
    match c {
        Ok(s) => Ok(status_of_connection(s)),
        Err(e) => Err(e),
    }
}

/// Maps a connection status to the device status it amounts to.
pub fn device_status_for(c: &ConnectionStatus) -> (r: DeviceStatus)
    ensures
        r == status_of_connection(*c),
{
    match c {
        ConnectionStatus::Connected => DeviceStatus::Ready,
        ConnectionStatus::Connecting => DeviceStatus::Disconnected,
        ConnectionStatus::Disconnected => DeviceStatus::Disconnected,
        ConnectionStatus::Error(_) => DeviceStatus::Error,
    }
}

/// Device `d` records `endpoint` and its handler was last opened on it.
pub open spec fn opened_on(d: NetworkDeviceImpl, endpoint: Seq<char>) -> bool {
    &&& d.endpoint_view() == endpoint
    &&& d.protocol_view().opened_endpoint() == Some(endpoint)
}

/// A network device with an endpoint and a protocol handler.
pub struct NetworkDeviceImpl {
    endpoint: String,
    protocol: Box<dyn ProtocolHandler>,
}

impl NetworkDeviceImpl {
    /// The endpoint the device opens.
    pub closed spec fn endpoint_view(&self) -> Seq<char> {
        self.endpoint@
    }

    /// The protocol handler.
    pub closed spec fn protocol_view(&self) -> &Box<dyn ProtocolHandler + 'static> {
        &self.protocol
    }

    /// A device for `endpoint` that speaks through `protocol`.
    pub fn new(endpoint: String, protocol: Box<dyn ProtocolHandler>) -> (r: Self)
        ensures
            r.endpoint_view() == endpoint@,
            *r.protocol_view() == protocol,
            r.device_status_spec() == device_status_result(protocol.status_spec()),
    {
        // Built around an idle handler that is then swapped for `protocol`: moved
        // through `swap`, the handler stays the very value the caller passed in.
        let mut given = protocol;
        let mut r = NetworkDeviceImpl { endpoint, protocol: Box::new(crate::peripheral::HttpProtocol::default()) };
        std::mem::swap(&mut r.protocol, &mut given);
        r
    }

    /// The protocol handler.
    pub fn protocol(&self) -> (r: &Box<dyn ProtocolHandler>)
        ensures
            r == self.protocol_view(),
    {
        &self.protocol
    }

    /// The protocol handler, for changes: what is done to it is done to the
    /// device's handler.
    pub fn protocol_mut(&mut self) -> (r: &mut Box<dyn ProtocolHandler>)
        ensures
            *r == *old(self).protocol_view(),
            *final(self).protocol_view() == *final(r),
            final(self).endpoint_view() == old(self).endpoint_view(),
    {
        &mut self.protocol
    }
}

impl NetworkDevice for NetworkDeviceImpl {
    open spec fn endpoint_spec(&self) -> Seq<char> {
        self.endpoint_view()
    }

    open spec fn handler_sent(&self) -> Option<Seq<SentRequest>> {
        self.protocol_view().http_sent()
    }

    open spec fn handler_status(&self) -> DeviceResult<ConnectionStatus> {
        self.protocol_view().status_spec()
    }

    open spec fn handler_last_reply(&self) -> Option<DeviceResult<Seq<u8>>> {
        self.protocol_view().http_last_reply()
    }

    open spec fn handler_endpoint(&self) -> Option<Seq<char>> {
        self.protocol_view().opened_endpoint()
    }

    open spec fn handler_outcome(&self) -> Option<DeviceResult<()>> {
        self.protocol_view().last_outcome()
    }

    /// Records `endpoint` and opens the protocol on it.
    fn connect(&mut self, endpoint: &str) -> (r: DeviceResult<()>)
        ensures
            opened_on(*final(self), endpoint@),
            final(self).protocol_view().last_outcome() == Some(r),
    {
        self.endpoint = String::from_str(endpoint);
        self.protocol.open(endpoint)
    }

    /// Closes the protocol.
    fn disconnect(&mut self) -> (r: DeviceResult<()>)
        ensures
            final(self).endpoint_view() == old(self).endpoint_view(),
            final(self).protocol_view().last_outcome() == Some(r),
    {
        self.protocol.close()
    }

    /// Connects to the URL's address.
    fn open_url(&mut self, url: &NetworkUrl) -> (r: DeviceResult<()>)
        ensures
            opened_on(*final(self), url.url@),
            final(self).protocol_view().last_outcome() == Some(r),
    {
        self.connect(url.url.as_str())
    }

    /// The device's handler: what is done to it is done to the device's handler.
    fn protocol_handler(&mut self) -> (r: &mut Box<dyn ProtocolHandler>)
        ensures
            *r == *old(self).protocol_view(),
            *final(self).protocol_view() == *final(r),
            final(self).endpoint_view() == old(self).endpoint_view(),
    {
        &mut self.protocol
    }
}

impl Device for NetworkDeviceImpl {
    open spec fn name_spec(&self) -> Seq<char> {
        seq!['n', 'e', 't', 'w', 'o', 'r', 'k']
    }

    open spec fn device_status_spec(&self) -> DeviceResult<DeviceStatus> {
        device_status_result(self.protocol_view().status_spec())
    }

    fn name(&self) -> (r: &str)
        ensures
            r@ == seq!['n', 'e', 't', 'w', 'o', 'r', 'k'],
    {
        let n = "network";
        proof {
            reveal_strlit("network");
        }
        n
    }

    /// Opens the protocol on the recorded endpoint.
    fn open(&mut self) -> (r: DeviceResult<()>)
        ensures
            opened_on(*final(self), old(self).endpoint_view()),
            final(self).protocol_view().last_outcome() == Some(r),
            final(self).device_status_spec() == device_status_result(old(self).protocol_view().status_after_open(r)),
            r is Ok ==> final(self).device_status_spec() == Ok::<DeviceStatus, DeviceError>(DeviceStatus::Ready),
    {
        self.protocol.open(self.endpoint.as_str())
    }

    fn close(&mut self) -> (r: DeviceResult<()>)
        ensures
            final(self).endpoint_view() == old(self).endpoint_view(),
            final(self).protocol_view().last_outcome() == Some(r),
            final(self).device_status_spec() == device_status_result(old(self).protocol_view().status_after_close(r)),
            r is Ok ==> final(self).device_status_spec() == Ok::<DeviceStatus, DeviceError>(DeviceStatus::Disconnected),
    {
        self.protocol.close()
    }

    fn read_bytes(&mut self, buf: &mut [u8]) -> (r: DeviceResult<usize>)
        ensures
            final(self).endpoint_view() == old(self).endpoint_view(),
    {
        self.protocol.read(buf)
    }

    fn write_bytes(&mut self, buf: &[u8]) -> (r: DeviceResult<usize>)
        ensures
            final(self).endpoint_view() == old(self).endpoint_view(),
    {
        self.protocol.write(buf)
    }

    /// Block reads are not supported.
    fn read_block(&mut self, block: u32, buf: &mut [u8]) -> (r: DeviceResult<usize>)
        ensures
            r == Err::<usize, DeviceError>(DeviceError::InvalidOperation),
    {
        Err(DeviceError::InvalidOperation)
    }

    /// Block writes are not supported.
    fn write_block(&mut self, block: u32, buf: &[u8]) -> (r: DeviceResult<usize>)
        ensures
            r == Err::<usize, DeviceError>(DeviceError::InvalidOperation),
    {
        Err(DeviceError::InvalidOperation)
    }

    /// The protocol's connection status, as a device status.
    fn get_status(&self) -> (r: DeviceResult<DeviceStatus>)
        ensures
            r == device_status_result(self.protocol_view().status_spec()),
    {
        match self.protocol.status() {
            Ok(c) => Ok(device_status_for(&c)),
            Err(e) => Err(e),
        }
    }
}

/// Whatever endpoint a device held before, connecting it to `endpoint` opens its
/// handler on exactly `endpoint`; opening the device again afterwards reopens the
/// handler on that same endpoint, not on one the device held earlier.
pub proof fn law_connect_opens_on_endpoint(
    connected: NetworkDeviceImpl,
    reopened: NetworkDeviceImpl,
    endpoint: Seq<char>,
)
    requires
        opened_on(connected, endpoint),
        opened_on(reopened, connected.endpoint_view()),
    ensures
        connected.protocol_view().opened_endpoint() == Some(endpoint),
        reopened.protocol_view().opened_endpoint() == Some(endpoint),
        reopened.endpoint_view() == endpoint,
{
}

} // verus!
