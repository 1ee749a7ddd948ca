use std::sync::{Arc, Mutex};

use fujinet::device::manager::DeviceManager;
use fujinet::device::network::manager::{NetworkManager, NetworkManagerImpl};
use fujinet::device::network::network_device::{NetworkDevice, NetworkDeviceImpl};
use fujinet::device::network::protocols::{
    BoxedHttpClient, BoxedProtocolHandler, ConnectionStatus, HeaderMap, HttpClient, HttpClientProvider, HttpProtocol,
    NetworkProtocol, ProtocolFactory, ProtocolHandler, ProtocolHandlerFactory, ProtocolRegistry,
};
use fujinet::device::network::protocols::http::{method_from_name, HttpMethod};
use fujinet::device::network::url::NetworkUrl;
use fujinet::device::{Device, DeviceError, DeviceResult, DeviceStatus};

struct MockProtocol;

impl ProtocolHandler for MockProtocol {
    fn open(&mut self, _: &str) -> DeviceResult<()> {
        Ok(())
    }
    fn close(&mut self) -> DeviceResult<()> {
        Ok(())
    }
    fn read(&mut self, _: &mut [u8]) -> DeviceResult<usize> {
        Ok(0)
    }
    fn write(&mut self, buf: &[u8]) -> DeviceResult<usize> {
        Ok(buf.len())
    }
    fn status(&self) -> DeviceResult<ConnectionStatus> {
        Ok(ConnectionStatus::Connected)
    }
    fn available(&self) -> DeviceResult<usize> {
        Ok(0)
    }
    fn as_http_mut(&mut self) -> Option<&mut HttpProtocol> {
        None
    }
}

struct MockFactory;

impl ProtocolHandlerFactory for MockFactory {
    fn create_handler(&self) -> BoxedProtocolHandler {
        BoxedProtocolHandler(Box::new(MockProtocol))
    }
}

fn setup_mock_registry() -> ProtocolRegistry {
    let mut registry = ProtocolRegistry::new();
    registry.register(NetworkProtocol::Http, Box::new(MockFactory));
    registry
}

#[test]
fn test_protocol_registry() {
    let mut registry = ProtocolRegistry::new();
    registry.register(NetworkProtocol::Http, Box::new(MockFactory));
    assert!(registry.supports_protocol(&NetworkProtocol::Http));
    assert!(!registry.supports_protocol(&NetworkProtocol::Tcp));
    let handler = registry.create_handler(NetworkProtocol::Http);
    assert!(handler.is_ok());
    let handler = registry.create_handler(NetworkProtocol::Tcp);
    assert!(handler.is_err());
    let protocols = registry.supported_protocols();
    assert_eq!(protocols.len(), 1);
    assert_eq!(protocols[0], NetworkProtocol::Http);
}

#[test]
fn test_protocol_factory() {
    let registry = setup_mock_registry();
    let mut factory = ProtocolFactory::new(registry);
    let url = NetworkUrl::parse("N:http://test.com").unwrap();
    let device_id = factory.get_or_create_device(0, NetworkProtocol::Http, &url).unwrap();
    assert_eq!(device_id, 0);
    assert!(factory.get_device(0).is_some());
    factory.close_device(0).unwrap();
    assert!(factory.get_device(0).is_none());
}

#[test]
fn test_device_reuse() {
    let registry = setup_mock_registry();
    let mut factory = ProtocolFactory::new(registry);
    let url = NetworkUrl::parse("N:http://test.com").unwrap();
    let id1 = factory.get_or_create_device(0, NetworkProtocol::Http, &url).unwrap();
    let id2 = factory.get_or_create_device(0, NetworkProtocol::Http, &url).unwrap();
    assert_eq!(id1, id2);
}

#[test]
fn factory_refuses_unregistered_protocol() {
    let mut factory = ProtocolFactory::new(ProtocolRegistry::new());
    let url = NetworkUrl::parse("N:tcp://h:1").unwrap();
    assert!(matches!(factory.get_or_create_device(2, NetworkProtocol::Tcp, &url), Err(DeviceError::UnsupportedProtocol)));
    assert!(factory.get_device(2).is_none());
    assert!(factory.close_device(2).is_ok());
}

#[derive(Default)]
struct TestProtocol {
    status: Arc<Mutex<ConnectionStatus>>,
    write_data: Arc<Mutex<Vec<u8>>>,
    read_data: Arc<Mutex<Vec<u8>>>,
}

impl ProtocolHandler for TestProtocol {
    fn open(&mut self, _endpoint: &str) -> DeviceResult<()> {
        *self.status.lock().unwrap() = ConnectionStatus::Connected;
        Ok(())
    }
    fn close(&mut self) -> DeviceResult<()> {
        *self.status.lock().unwrap() = ConnectionStatus::Disconnected;
        Ok(())
    }
    fn read(&mut self, buf: &mut [u8]) -> DeviceResult<usize> {
        let read_data = self.read_data.lock().unwrap();
        let len = std::cmp::min(buf.len(), read_data.len());
        buf[..len].copy_from_slice(&read_data[..len]);
        Ok(len)
    }
    fn write(&mut self, buf: &[u8]) -> DeviceResult<usize> {
        self.write_data.lock().unwrap().extend_from_slice(buf);
        Ok(buf.len())
    }
    fn status(&self) -> DeviceResult<ConnectionStatus> {
        Ok(self.status.lock().unwrap().clone())
    }
    fn available(&self) -> DeviceResult<usize> {
        Ok(self.read_data.lock().unwrap().len())
    }
    fn as_http_mut(&mut self) -> Option<&mut HttpProtocol> {
        None
    }
}

#[test]
fn test_device_lifecycle() {
    let mut device = NetworkDeviceImpl::new("test://example.com".to_string(), Box::new(TestProtocol::default()));
    assert_eq!(device.name(), "network");
    assert_eq!(device.get_status().unwrap(), DeviceStatus::Disconnected);
    device.open().unwrap();
    assert_eq!(device.get_status().unwrap(), DeviceStatus::Ready);
    device.close().unwrap();
    assert_eq!(device.get_status().unwrap(), DeviceStatus::Disconnected);
}

#[test]
fn test_device_io() {
    let mut device = NetworkDeviceImpl::new("test://example.com".to_string(), Box::new(TestProtocol::default()));
    device.open().unwrap();
    let test_data = b"Hello, World!".to_vec();
    assert_eq!(device.write_bytes(&test_data).unwrap(), test_data.len());
    let mut buf = vec![0u8; 100];
    let read_len = device.read_bytes(&mut buf).unwrap();
    assert_eq!(read_len, 0);
    device.close().unwrap();
}

#[test]
fn test_block_operations_not_supported() {
    let mut device = NetworkDeviceImpl::new("test://example.com".to_string(), Box::new(TestProtocol::default()));
    let mut buf = vec![0u8; 100];
    let test_data = vec![1u8; 100];
    assert!(device.read_block(0, &mut buf).is_err());
    assert!(device.write_block(0, &test_data).is_err());
}

#[test]
fn network_device_connect_and_url() {
    let mut device = NetworkDeviceImpl::new("e".to_string(), Box::new(TestProtocol::default()));
    device.connect("other").unwrap();
    assert_eq!(device.get_status().unwrap(), DeviceStatus::Ready);
    device.disconnect().unwrap();
    assert_eq!(device.get_status().unwrap(), DeviceStatus::Disconnected);
    device.open_url(&NetworkUrl::parse("N:http://a").unwrap()).unwrap();
    assert_eq!(device.protocol().status().unwrap(), ConnectionStatus::Connected);
    assert_eq!(device.protocol_mut().available().unwrap(), 0);
}

#[derive(Debug, Clone, PartialEq)]
struct RequestRecord {
    method: String,
    url: String,
    body: Vec<u8>,
}

#[derive(Clone, Default)]
struct TestHttpClient {
    is_connected: bool,
    headers: HeaderMap,
    recorded_requests: Arc<Mutex<Vec<RequestRecord>>>,
}

impl TestHttpClient {
    fn record(&mut self, method: &str, url: &str, body: &[u8], reply: &[u8]) -> DeviceResult<Vec<u8>> {
        if !self.is_connected {
            return Err(DeviceError::NotReady);
        }
        self.recorded_requests.lock().unwrap().push(RequestRecord {
            method: method.to_string(),
            url: url.to_string(),
            body: body.to_vec(),
        });
        Ok(reply.to_vec())
    }
}

impl HttpClient for TestHttpClient {
    fn connect(&mut self, _url: &str) -> DeviceResult<()> {
        self.is_connected = true;
        Ok(())
    }
    fn disconnect(&mut self) -> DeviceResult<()> {
        self.is_connected = false;
        Ok(())
    }
    fn get(&mut self, url: &str) -> DeviceResult<Vec<u8>> {
        self.record("GET", url, &[], b"test response")
    }
    fn post(&mut self, url: &str, body: &[u8]) -> DeviceResult<Vec<u8>> {
        self.record("POST", url, body, b"test response")
    }
    fn put(&mut self, url: &str, body: &[u8]) -> DeviceResult<Vec<u8>> {
        self.record("PUT", url, body, b"test response")
    }
    fn delete(&mut self, url: &str) -> DeviceResult<Vec<u8>> {
        self.record("DELETE", url, &[], b"")
    }
    fn head(&mut self, url: &str) -> DeviceResult<Vec<u8>> {
        self.record("HEAD", url, &[], b"")
    }
    fn patch(&mut self, url: &str, body: &[u8]) -> DeviceResult<Vec<u8>> {
        self.record("PATCH", url, body, b"test response")
    }
    fn set_header(&mut self, key: &str, value: &str) {
        self.headers.insert(key.to_string(), value.to_string());
    }
    fn status_code(&self) -> u16 {
        200
    }
    fn headers(&self) -> HeaderMap {
        self.headers.clone()
    }
}

#[derive(Default)]
struct TestHttpClientProvider {
    client: TestHttpClient,
}

impl HttpClientProvider for TestHttpClientProvider {
    fn create_http_client(&self) -> BoxedHttpClient {
        BoxedHttpClient(Box::new(self.client.clone()))
    }
}

#[test]
fn http_test_protocol_lifecycle() {
    let provider = Arc::new(TestHttpClientProvider::default());
    let mut protocol = HttpProtocol::new(provider);
    assert_eq!(protocol.status().unwrap(), ConnectionStatus::Disconnected);
    protocol.open("http://test.com").unwrap();
    assert_eq!(protocol.status().unwrap(), ConnectionStatus::Connected);
    protocol.close().unwrap();
    assert_eq!(protocol.status().unwrap(), ConnectionStatus::Disconnected);
}

#[test]
fn test_http_operations() {
    let provider = Arc::new(TestHttpClientProvider::default());
    let mut protocol = HttpProtocol::new(provider.clone());
    protocol.open("http://test.com").unwrap();

    let response = protocol.get("http://test.com/api").unwrap();
    assert_eq!(response, b"test response");
    let post_data = b"test data";
    let response = protocol.post("http://test.com/api", post_data).unwrap();
    assert_eq!(response, b"test response");
    let put_data = b"updated data";
    let response = protocol.put("http://test.com/api", put_data).unwrap();
    assert_eq!(response, b"test response");
    let response = protocol.delete("http://test.com/api").unwrap();
    assert_eq!(response, Vec::<u8>::new());
    let response = protocol.head("http://test.com/api").unwrap();
    assert_eq!(response, Vec::<u8>::new());
    let patch_data = b"patch data";
    let response = protocol.patch("http://test.com/api", patch_data).unwrap();
    assert_eq!(response, b"test response");

    protocol.set_header("Content-Type", "application/json");
    assert_eq!(protocol.headers().get("Content-Type").unwrap(), "application/json");

    let client = provider.client.clone();
    let recorded_requests = client.recorded_requests.lock().unwrap();
    let expected_requests = vec![
        RequestRecord { method: "GET".to_string(), url: "http://test.com/api".to_string(), body: Vec::new() },
        RequestRecord { method: "POST".to_string(), url: "http://test.com/api".to_string(), body: post_data.to_vec() },
        RequestRecord { method: "PUT".to_string(), url: "http://test.com/api".to_string(), body: put_data.to_vec() },
        RequestRecord { method: "DELETE".to_string(), url: "http://test.com/api".to_string(), body: Vec::new() },
        RequestRecord { method: "HEAD".to_string(), url: "http://test.com/api".to_string(), body: Vec::new() },
        RequestRecord { method: "PATCH".to_string(), url: "http://test.com/api".to_string(), body: patch_data.to_vec() },
    ];
    assert_eq!(*recorded_requests, expected_requests, "Recorded requests don't match expected requests");
}

#[test]
fn test_error_handling() {
    let provider = Arc::new(TestHttpClientProvider::default());
    let mut protocol = HttpProtocol::new(provider);
    assert!(matches!(protocol.get("http://test.com/api"), Err(DeviceError::NotReady)));
    assert!(matches!(protocol.post("http://test.com/api", b"test"), Err(DeviceError::NotReady)));
}

#[test]
fn http_send_request_by_method_name() {
    let provider = Arc::new(TestHttpClientProvider::default());
    let mut protocol = HttpProtocol::new(provider.clone());
    protocol.open("http://x").unwrap();
    assert_eq!(protocol.send_request("get", "http://x/a", b"").unwrap(), b"test response");
    assert_eq!(protocol.send_request("pAtCh", "http://x/b", b"z").unwrap(), b"test response");
    assert!(matches!(protocol.send_request("FETCH", "http://x/c", b""), Err(DeviceError::InvalidOperation)));
    assert_eq!(protocol.url(), Some("http://x"));
    assert_eq!(protocol.status_code(), 200);
    assert!(protocol.as_http_mut().is_some());
    assert!(matches!(protocol.read(&mut [0u8; 4]), Err(DeviceError::NotSupported)));
    assert!(matches!(protocol.write(b"ab"), Err(DeviceError::NotSupported)));
    assert_eq!(protocol.available().unwrap(), 0);
    let recorded = provider.client.recorded_requests.lock().unwrap();
    assert_eq!(recorded.len(), 2);
    assert_eq!(recorded[0].method, "GET");
    assert_eq!(recorded[1].method, "PATCH");
}

#[test]
fn method_names_upper_case_first() {
    assert_eq!(method_from_name("delete"), Some(HttpMethod::Delete));
    assert_eq!(method_from_name("HeAd"), Some(HttpMethod::Head));
    assert_eq!(method_from_name("\u{17F}et"), None);
    assert_eq!(method_from_name("po\u{17F}t"), Some(HttpMethod::Post));
    assert_eq!(method_from_name("pu"), None);
}

#[test]
fn manager_open_find_validate_close() {
    let provider = TestHttpClientProvider::default();
    let mut registry = ProtocolRegistry::new();
    registry.register(NetworkProtocol::Http, Box::new(MockFactory));
    let _ = provider;
    let mut manager = NetworkManagerImpl::with_registry(registry);

    assert!(matches!(manager.open_device("N2:tcp://h:1", 1, 2), Err(DeviceError::UnsupportedProtocol)));
    assert!(manager.open_device("N2:http://h/x", 3, 4).is_ok());
    let (id, url) = manager.parse_device_spec("N2:http://h/x").unwrap();
    assert_eq!(id, 1);
    assert_eq!(url.url, "http://h/x");
    match manager.find_device("N2:http://h/x").unwrap() {
        Some((i, state)) => {
            assert_eq!(i, 1);
            assert_eq!(state.mode, 3);
            assert_eq!(state.trans, 4);
        },
        None => panic!("opened unit not found"),
    }
    assert!(manager.get_network_device(1).is_some());
    assert!(manager.find_device("N3:http://h/x").unwrap().is_none());
    assert!(matches!(manager.find_device("bad"), Err(DeviceError::InvalidUrl)));
    assert!(manager.close_device(1).unwrap());
    assert!(manager.find_device("N2:http://h/x").unwrap().is_none());
    let state = manager.get_device(1).unwrap();
    assert!(state.url.is_none());
    assert_eq!(state.mode, 0);
    assert!(manager.get_device(8).is_none());
}

#[test]
fn device_manager_state() {
    let mut manager = DeviceManager::new();
    assert!(manager.set_device_state(3, 1, 2, NetworkUrl::parse("N4:http://a").unwrap()));
    assert!(!manager.set_device_state(8, 1, 2, NetworkUrl::parse("N4:http://a").unwrap()));
    let state = manager.get_device(3).unwrap();
    assert_eq!(state.mode, 1);
    assert_eq!(state.trans, 2);
    assert_eq!(state.url.as_ref().unwrap().url, "http://a");
    assert!(state.client.is_none());
    assert!(manager.set_device_client(3, Box::new(TestHttpClient::default())));
    assert!(!manager.set_device_client(9, Box::new(TestHttpClient::default())));
    assert!(manager.get_device(3).unwrap().client.is_some());
}

#[derive(Default)]
struct MockState {
    endpoint: String,
    is_connected: bool,
    data: Vec<u8>,
    read_pos: usize,
}

struct StatefulProtocol {
    state: Arc<Mutex<MockState>>,
}

impl StatefulProtocol {
    fn new() -> Self {
        Self { state: Arc::new(Mutex::new(MockState::default())) }
    }
}

impl ProtocolHandler for StatefulProtocol {
    fn open(&mut self, endpoint: &str) -> DeviceResult<()> {
        let mut state = self.state.lock().unwrap();
        state.endpoint = endpoint.to_string();
        state.is_connected = true;
        Ok(())
    }
    fn close(&mut self) -> DeviceResult<()> {
        self.state.lock().unwrap().is_connected = false;
        Ok(())
    }
    fn read(&mut self, buf: &mut [u8]) -> DeviceResult<usize> {
        let state = self.state.lock().unwrap();
        if !state.is_connected {
            return Err(DeviceError::NotReady);
        }
        let remaining = state.data.len() - state.read_pos;
        let to_read = std::cmp::min(remaining, buf.len());
        if to_read > 0 {
            buf[..to_read].copy_from_slice(&state.data[state.read_pos..state.read_pos + to_read]);
        }
        Ok(to_read)
    }
    fn write(&mut self, buf: &[u8]) -> DeviceResult<usize> {
        let mut state = self.state.lock().unwrap();
        if !state.is_connected {
            return Err(DeviceError::NotReady);
        }
        state.data.extend_from_slice(buf);
        Ok(buf.len())
    }
    fn status(&self) -> DeviceResult<ConnectionStatus> {
        let state = self.state.lock().unwrap();
        Ok(if state.is_connected { ConnectionStatus::Connected } else { ConnectionStatus::Disconnected })
    }
    fn available(&self) -> DeviceResult<usize> {
        let state = self.state.lock().unwrap();
        if !state.is_connected {
            return Err(DeviceError::NotReady);
        }
        Ok(state.data.len() - state.read_pos)
    }
    fn as_http_mut(&mut self) -> Option<&mut HttpProtocol> {
        None
    }
}

#[test]
fn protocol_handler_test_protocol_lifecycle() {
    let mut protocol = StatefulProtocol::new();
    assert!(matches!(protocol.status().unwrap(), ConnectionStatus::Disconnected));
    protocol.open("test://endpoint").unwrap();
    assert!(matches!(protocol.status().unwrap(), ConnectionStatus::Connected));
    assert_eq!(protocol.state.lock().unwrap().endpoint, "test://endpoint");
    let test_data = b"Hello, World!";
    let written = protocol.write(test_data).unwrap();
    assert_eq!(written, test_data.len());
    let mut read_buf = vec![0; test_data.len()];
    let read = protocol.read(&mut read_buf).unwrap();
    assert_eq!(read, test_data.len());
    assert_eq!(&read_buf, test_data);
    protocol.close().unwrap();
    assert!(matches!(protocol.status().unwrap(), ConnectionStatus::Disconnected));
    assert!(matches!(protocol.write(b"test"), Err(DeviceError::NotReady)));
    assert!(matches!(protocol.read(&mut read_buf), Err(DeviceError::NotReady)));
    assert!(matches!(protocol.available(), Err(DeviceError::NotReady)));
}

#[test]
fn test_protocol_any_casting() {
    let mut protocol = StatefulProtocol::new();
    assert!(protocol.as_http_mut().is_none());
    let mut handler: Box<dyn ProtocolHandler> =
        Box::new(HttpProtocol::new(Arc::new(TestHttpClientProvider::default())));
    assert!(handler.as_http_mut().is_some());
}

#[test]
fn stand_in_client_keeps_headers_set_through_the_handler() {
    let mut manager = fujinet::adapters::common::network::test_mocks::TestNetworkManager::new().with_http_device(Ok(()));
    let device = manager.get_network_device(0).unwrap();
    let http = device.protocol_handler().as_http_mut().unwrap();
    http.set_header("Content-Type", "application/json");
    assert_eq!(http.headers().get("Content-Type"), Some(&"application/json".to_string()));
    assert!(http.post("", b"x").is_ok());
    assert_eq!(http.headers().get("Content-Type"), Some(&"application/json".to_string()));
}
