use vstd::prelude::*;

use crate::device::{Device, DeviceError, DeviceResult, DeviceStatus};
use crate::device::manager::{url_opt_view, DeviceState};
use crate::device::network::manager::NetworkManager;
use crate::device::network::network_device::NetworkDevice;
use crate::device::network::protocols::{ConnectionStatus, HeaderMap, HttpClient, HttpProtocol, ProtocolHandler};
use crate::device::network::protocols::http::HttpMethod;
use crate::device::network::protocols::http_client::{body_view, request_of, SentRequest};
use crate::device::network::url::{parse_spec, str_eq, NetworkUrl, NetworkUrlModel};

verus! {

/// HTTP client stand-in whose POST and GET answers are set in advance; it keeps
/// the headers it is given.
pub struct MockHttpClient {
    /// What a POST reports.
    pub post_result: Result<(), DeviceError>,
    /// What a GET returns.
    pub get_result: DeviceResult<Vec<u8>>,
    /// The headers set so far.
    pub headers: HeaderMap,
    /// The requests received so far.
    pub log: Ghost<Seq<SentRequest>>,
    /// The answer to the last request, once there has been one.
    pub last: Ghost<Option<DeviceResult<Seq<u8>>>>,
}

impl HttpClient for MockHttpClient {
    open spec fn sent(&self) -> Seq<SentRequest> {
        self.log@
    }

    open spec fn last_status(&self) -> u16 {
        200
    }

    open spec fn header_map(&self) -> Map<Seq<char>, Seq<char>> {
        self.headers@
    }

    open spec fn last_reply(&self) -> Option<DeviceResult<Seq<u8>>> {
        self.last@
    }

    fn connect(&mut self, url: &str) -> (r: DeviceResult<()>)
        ensures
            r is Ok,
    {
        Ok(())
    }

    fn disconnect(&mut self) -> (r: DeviceResult<()>)
        ensures
            r is Ok,
    {
        Ok(())
    }

    /// The preset GET answer.
    fn get(&mut self, url: &str) -> (r: DeviceResult<Vec<u8>>)
        ensures
            match (r, old(self).get_result) {
                (Ok(a), Ok(b)) => a@ == b@,
                (Err(a), Err(b)) => a == b,
                _ => false,
            },
    {
        proof {
            self.log@ = self.log@.push(request_of(HttpMethod::Get, url@, Seq::empty()));
        }
        let r = match &self.get_result {
            Ok(body) => Ok(body.clone()),
            Err(e) => Err(e.clone()),
        };
        proof {
            self.last@ = Some(body_view(r));
        }
        r
    }

    /// The preset POST answer, with an empty body.
    fn post(&mut self, url: &str, body: &[u8]) -> (r: DeviceResult<Vec<u8>>)
        ensures
            match (r, old(self).post_result) {
                (Ok(a), Ok(_)) => a@.len() == 0,
                (Err(a), Err(b)) => a == b,
                _ => false,
            },
    {
        proof {
            self.log@ = self.log@.push(request_of(HttpMethod::Post, url@, body@));
        }
        let r = match &self.post_result {
            Ok(()) => Ok(Vec::new()),
            Err(e) => Err(e.clone()),
        };
        proof {
            self.last@ = Some(body_view(r));
        }
        r
    }

    fn put(&mut self, url: &str, body: &[u8]) -> (r: DeviceResult<Vec<u8>>)
        ensures
            r matches Ok(b) && b@.len() == 0,
    {
        proof {
            self.log@ = self.log@.push(request_of(HttpMethod::Put, url@, body@));
        }
        let r = Ok(Vec::new());
        proof {
            self.last@ = Some(body_view(r));
        }
        r
    }

    fn delete(&mut self, url: &str) -> (r: DeviceResult<Vec<u8>>)
        ensures
            r matches Ok(b) && b@.len() == 0,
    {
        proof {
            self.log@ = self.log@.push(request_of(HttpMethod::Delete, url@, Seq::empty()));
        }
        let r = Ok(Vec::new());
        proof {
            self.last@ = Some(body_view(r));
        }
        r
    }

    fn head(&mut self, url: &str) -> (r: DeviceResult<Vec<u8>>)
        ensures
            r matches Ok(b) && b@.len() == 0,
    {
        proof {
            self.log@ = self.log@.push(request_of(HttpMethod::Head, url@, Seq::empty()));
        }
        let r = Ok(Vec::new());
        proof {
            self.last@ = Some(body_view(r));
        }
        r
    }

    fn patch(&mut self, url: &str, body: &[u8]) -> (r: DeviceResult<Vec<u8>>)
        ensures
            r matches Ok(b) && b@.len() == 0,
    {
        proof {
            self.log@ = self.log@.push(request_of(HttpMethod::Patch, url@, body@));
        }
        let r = Ok(Vec::new());
        proof {
            self.last@ = Some(body_view(r));
        }
        r
    }

    fn set_header(&mut self, key: &str, value: &str) {
        self.headers.insert(String::from_str(key), String::from_str(value));
    }

    fn status_code(&self) -> (r: u16)
        ensures
            r == 200,
    {
        200
    }

    fn headers(&self) -> (r: HeaderMap) {
        self.headers.clone()
    }
}

/// An HTTP handler, not yet opened, around `client`, which has sent nothing.
fn fresh_http_handler(client: MockHttpClient) -> (r: HttpProtocol)
    requires
        client.log@ == Seq::<SentRequest>::empty(),
    ensures
        r.sent() == Seq::<SentRequest>::empty(),
{
    // `set_http_client` hands the client over by `swap`, which keeps what is
    // known of it; a stand-in client takes the place it fills.
    let idle = MockHttpClient { post_result: Ok(()), get_result: Ok(Vec::new()), headers: HeaderMap::new(), log: Ghost(Seq::empty()), last: Ghost(None) };
    let mut protocol = HttpProtocol::from_client(Box::new(idle));
    protocol.set_http_client(Box::new(client));
    protocol
}

/// Network manager stand-in: parses only the one spec it was given, and answers
/// opens and closes as it was told.
pub struct TestNetworkManager {
    parse_result: Option<(usize, NetworkUrl)>,
    open_result: bool,
    close_result: bool,
    device: Option<Box<dyn NetworkDevice>>,
    state_id: Option<usize>,
    state: DeviceState,
}

impl TestNetworkManager {
    /// The unit and URL that the accepted spec parses to, if one was given.
    pub closed spec fn parse_view(&self) -> Option<(usize, NetworkUrlModel)> {
        match self.parse_result {
            Some((id, u)) => Some((id, u@)),
            None => None,
        }
    }

    /// Whether opens succeed.
    pub closed spec fn open_view(&self) -> bool {
        self.open_result
    }

    /// What closes report.
    pub closed spec fn close_view(&self) -> bool {
        self.close_result
    }

    /// Whether the manager holds a network device.
    pub closed spec fn has_device(&self) -> bool {
        self.device is Some
    }

    /// The unit whose state is kept, with the URL it records.
    pub closed spec fn state_view(&self) -> Option<(usize, Option<NetworkUrlModel>)> {
        match self.state_id {
            Some(id) => Some((id, url_opt_view(self.state.url))),
            None => None,
        }
    }

    /// A manager that parses nothing, fails opens, reports closes as not done and
    /// holds neither a device nor a unit state.
    pub fn new() -> (r: Self)
        ensures
            r.parse_view() is None,
            !r.open_view(),
            !r.close_view(),
            !r.has_device(),
            r.state_view() is None,
    {
        TestNetworkManager {
            parse_result: None,
            open_result: false,
            close_result: false,
            device: None,
            state_id: None,
            state: DeviceState { mode: 0, trans: 0, url: None, client: None },
        }
    }

    /// Accepts the spec `url` from now on, as unit index `device_id`.
    pub fn with_parse_result(self, device_id: usize, url: &str) -> (r: Self)
        requires
            parse_spec(url@) is Ok,
        ensures
            r.parse_view() == Some((device_id, parse_spec(url@)->Ok_0)),
            r.open_view() == self.open_view(),
            r.close_view() == self.close_view(),
            r.has_device() == self.has_device(),
            r.state_view() == self.state_view(),
    {
        let parsed = match NetworkUrl::parse(url) {
            Ok(u) => u,
            Err(_) => {
                // `url` parses, by the precondition.
                assert(false);
                return self;
            },
        };
        let mut r = self;
        r.parse_result = Some((device_id, parsed));
        r
    }

    /// Holds a device with an HTTP handler whose POSTs report `post_result`.
    pub fn with_http_device(self, post_result: Result<(), DeviceError>) -> (r: Self)
        ensures
            r.parse_view() == self.parse_view(),
            r.open_view() == self.open_view(),
            r.close_view() == self.close_view(),
            r.has_device(),
            r.state_view() == self.state_view(),
            forall|i: usize| #[trigger] r.spec_sent(i) == Some(Seq::<SentRequest>::empty()),
    {
        let client = MockHttpClient { post_result, get_result: Ok(Vec::new()), headers: HeaderMap::new(), log: Ghost(Seq::empty()), last: Ghost(None) };
        let device = MockNetworkDevice { protocol: Box::new(fresh_http_handler(client)) };
        let mut r = self;
        r.device = Some(Box::new(device));
        r
    }

    /// Holds a device with an HTTP handler whose GETs return `get_result`.
    pub fn with_http_device_get(self, get_result: DeviceResult<Vec<u8>>) -> (r: Self)
        ensures
            r.parse_view() == self.parse_view(),
            r.open_view() == self.open_view(),
            r.close_view() == self.close_view(),
            r.has_device(),
            r.state_view() == self.state_view(),
            forall|i: usize| #[trigger] r.spec_sent(i) == Some(Seq::<SentRequest>::empty()),
    {
        let client = MockHttpClient { post_result: Ok(()), get_result, headers: HeaderMap::new(), log: Ghost(Seq::empty()), last: Ghost(None) };
        let device = MockNetworkDevice { protocol: Box::new(fresh_http_handler(client)) };
        let mut r = self;
        r.device = Some(Box::new(device));
        r
    }

    /// Makes opens succeed or fail.
    pub fn with_open_result(self, open_result: bool) -> (r: Self)
        ensures
            r.parse_view() == self.parse_view(),
            r.open_view() == open_result,
            r.close_view() == self.close_view(),
            r.has_device() == self.has_device(),
            r.state_view() == self.state_view(),
    {
        let mut r = self;
        r.open_result = open_result;
        r
    }

    /// Sets what closes report.
    pub fn with_close_result(self, close_result: bool) -> (r: Self)
        ensures
            r.parse_view() == self.parse_view(),
            r.open_view() == self.open_view(),
            r.close_view() == close_result,
            r.has_device() == self.has_device(),
            r.state_view() == self.state_view(),
    {
        let mut r = self;
        r.close_result = close_result;
        r
    }

    /// Keeps a state for unit `device_id` that records `url`.
    pub fn with_device_state(self, device_id: usize, url: NetworkUrl) -> (r: Self)
        ensures
            r.parse_view() == self.parse_view(),
            r.open_view() == self.open_view(),
            r.close_view() == self.close_view(),
            r.has_device() == self.has_device(),
            r.state_view() == Some((device_id, Some(url@))),
    {
        let mut r = self;
        r.state_id = Some(device_id);
        r.state = DeviceState { mode: 0, trans: 0, url: Some(url), client: None };
        r
    }

    /// Keeps a state for unit `device_id` that records no URL.
    pub fn with_device_state_no_url(self, device_id: usize) -> (r: Self)
        ensures
            r.parse_view() == self.parse_view(),
            r.open_view() == self.open_view(),
            r.close_view() == self.close_view(),
            r.has_device() == self.has_device(),
            r.state_view() == Some((device_id, None::<NetworkUrlModel>)),
    {
        let mut r = self;
        r.state_id = Some(device_id);
        r.state = DeviceState { mode: 0, trans: 0, url: None, client: None };
        r
    }
}

impl NetworkManager for TestNetworkManager {
    /// The stand-in addresses any unit index.
    open spec fn spec_unit_in_range(device_id: usize) -> bool {
        true
    }

    open spec fn spec_parse(&self, spec: Seq<char>) -> Result<(usize, NetworkUrlModel), DeviceError> {
        match self.parse_view() {
            Some((id, u)) => if parse_spec(spec) matches Ok(m) && m.url == u.url {
                Ok((id, u))
            } else {
                Err(DeviceError::InvalidUrl)
            },
            None => Err(DeviceError::InvalidUrl),
        }
    }

    open spec fn spec_unit_url(&self, device_id: usize) -> Option<Option<NetworkUrlModel>> {
        match self.state_view() {
            Some((id, u)) => if id == device_id {
                Some(u)
            } else {
                None
            },
            None => None,
        }
    }

    /// Opens leave the stand-in as it was.
    open spec fn spec_open_effect(&self, after: &Self, spec: Seq<char>, mode: u8, trans: u8, r: DeviceResult<()>) -> bool {
        *after == *self
    }

    /// Closes leave the stand-in as it was and report what it was told.
    open spec fn spec_close_effect(&self, after: &Self, device_id: usize, r: DeviceResult<bool>) -> bool {
        *after == *self && r == Ok::<bool, DeviceError>(self.close_view())
    }

    closed spec fn spec_sent(&self, device_id: usize) -> Option<Seq<SentRequest>> {
        match self.device {
            Some(d) => d.handler_sent(),
            None => None,
        }
    }

    closed spec fn spec_last_reply(&self, device_id: usize) -> Option<DeviceResult<Seq<u8>>> {
        match self.device {
            Some(d) => d.handler_last_reply(),
            None => None,
        }
    }

    open spec fn spec_has_network_device(&self, device_id: usize) -> bool {
        self.has_device()
    }

    open spec fn spec_open(&self, spec: Seq<char>) -> Result<(), DeviceError> {
        if self.open_view() {
            Ok(())
        } else {
            Err(DeviceError::InvalidUrl)
        }
    }

    /// Accepts only a spec whose URL is that of the spec it was given.
    fn parse_device_spec(&self, spec: &str) -> (r: DeviceResult<(usize, NetworkUrl)>) {
        if let Some((device_id, url)) = &self.parse_result {
            if let Ok(parsed) = NetworkUrl::parse(spec) {
                if str_eq(parsed.url.as_str(), url.url.as_str()) {
                    return Ok((*device_id, url.clone()));
                }
            }
        }
        Err(DeviceError::InvalidUrl)
    }

    fn open_device(&mut self, spec: &str, mode: u8, trans: u8) -> (r: DeviceResult<()>) {
        if self.open_result {
            Ok(())
        } else {
            Err(DeviceError::InvalidUrl)
        }
    }

    fn find_device(&mut self, spec: &str) -> (r: DeviceResult<Option<(usize, &mut DeviceState)>>)
        ensures
            r matches Ok(None),
    {
        Ok(None)
    }

    fn get_device(&mut self, device_id: usize) -> (r: Option<&mut DeviceState>) {
        match self.state_id {
            Some(id) => if id == device_id {
                Some(&mut self.state)
            } else {
                None
            },
            None => None,
        }
    }

    fn close_device(&mut self, device_id: usize) -> (r: DeviceResult<bool>)
        ensures
            r == Ok::<bool, DeviceError>(old(self).close_view()),
    {
        Ok(self.close_result)
    }

    fn get_network_device(&mut self, device_id: usize) -> (r: Option<&mut Box<dyn NetworkDevice>>) {
        match &mut self.device {
            Some(d) => Some(d),
            None => None,
        }
    }
}

/// Network device stand-in that hands everything to its protocol handler.
pub struct MockNetworkDevice {
    protocol: Box<dyn ProtocolHandler>,
}

impl MockNetworkDevice {
    /// The protocol handler.
    pub closed spec fn protocol_view(&self) -> &Box<dyn ProtocolHandler> {
        &self.protocol
    }
}

impl Device for MockNetworkDevice {
    open spec fn name_spec(&self) -> Seq<char> {
        "mock_network_device"@
    }

    open spec fn device_status_spec(&self) -> DeviceResult<DeviceStatus> {
        Ok(DeviceStatus::Ready)
    }

    fn name(&self) -> (r: &str)
        ensures
            r@ == "mock_network_device"@,
    {
        "mock_network_device"
    }

    fn open(&mut self) -> (r: DeviceResult<()>)
        ensures
            r is Ok,
    {
        Ok(())
    }

    fn close(&mut self) -> (r: DeviceResult<()>)
        ensures
            r is Ok,
    {
        Ok(())
    }

    fn read_bytes(&mut self, buf: &mut [u8]) -> (r: DeviceResult<usize>)
        ensures
            r == Ok::<usize, DeviceError>(0),
    {
        Ok(0)
    }

    fn write_bytes(&mut self, buf: &[u8]) -> (r: DeviceResult<usize>)
        ensures
            r == Ok::<usize, DeviceError>(0),
    {
        Ok(0)
    }

    fn read_block(&mut self, block: u32, buf: &mut [u8]) -> (r: DeviceResult<usize>)
        ensures
            r == Ok::<usize, DeviceError>(0),
    {
        Ok(0)
    }

    fn write_block(&mut self, block: u32, buf: &[u8]) -> (r: DeviceResult<usize>)
        ensures
            r == Ok::<usize, DeviceError>(0),
    {
        Ok(0)
    }

    fn get_status(&self) -> (r: DeviceResult<DeviceStatus>)
        ensures
            r == Ok::<DeviceStatus, DeviceError>(DeviceStatus::Ready),
    {
        Ok(DeviceStatus::Ready)
    }
}

impl NetworkDevice for MockNetworkDevice {
    /// The stand-in keeps no endpoint.
    open spec fn endpoint_spec(&self) -> Seq<char> {
        Seq::empty()
    }

    open spec fn handler_sent(&self) -> Option<Seq<SentRequest>> {
        self.protocol_view().http_sent()
    }

    open spec fn handler_status(&self) -> DeviceResult<ConnectionStatus> {
        self.protocol_view().status_spec()
    }

    open spec fn handler_last_reply(&self) -> Option<DeviceResult<Seq<u8>>> {
        self.protocol_view().http_last_reply()
    }

    open spec fn handler_endpoint(&self) -> Option<Seq<char>> {
        self.protocol_view().opened_endpoint()
    }

    open spec fn handler_outcome(&self) -> Option<DeviceResult<()>> {
        self.protocol_view().last_outcome()
    }

    /// Opens the handler on `endpoint`.
    fn connect(&mut self, endpoint: &str) -> DeviceResult<()> {
        self.protocol.open(endpoint)
    }

    /// Closes the handler.
    fn disconnect(&mut self) -> DeviceResult<()> {
        self.protocol.close()
    }

    /// Opens the handler on the URL.
    fn open_url(&mut self, url: &NetworkUrl) -> DeviceResult<()> {
        self.protocol.open(url.url.as_str())
    }

    /// The device's handler: what is done to it is done to the device's handler.
    fn protocol_handler(&mut self) -> (r: &mut Box<dyn ProtocolHandler>)
        ensures
            *r == *old(self).protocol_view(),
            *final(self).protocol_view() == *final(r),
    {
        &mut self.protocol
    }
}

} // verus!
