use std::sync::{Arc, Mutex};

use fujinet::base;
use fujinet::device::network::manager::NetworkManager;
use fujinet::device::network::protocols::{
    BoxedHttpClient, ConnectionStatus, HeaderMap, HttpClient, HttpClientProvider, NetworkProtocol, ProtocolHandler,
};
use fujinet::device::{Device, DeviceError, DeviceResult, DeviceStatus};
use fujinet::ffi::{client_call_code, device_result_to_error, FujiError, NetworkDeviceManager};
use fujinet::host::{HostTranslator, X86HostTranslator};
use fujinet::peripheral::http::drain_into;
use fujinet::peripheral::{new_http_device, new_network_device, HttpProtocol, HttpProtocolHandler, NetworkDevice};
use fujinet::platform::{create_http_client, create_network_manager, create_protocol_registry};

#[derive(Clone, Default)]
struct ScriptedClient {
    connected: bool,
    reply: Vec<u8>,
    fail: bool,
    calls: Arc<Mutex<Vec<String>>>,
}

impl ScriptedClient {
    fn answer(&mut self, what: &str) -> DeviceResult<Vec<u8>> {
        self.calls.lock().unwrap().push(what.to_string());
        if self.fail {
            Err(DeviceError::NetworkError("down".to_string()))
        } else {
            Ok(self.reply.clone())
        }
    }
}

impl HttpClient for ScriptedClient {
    fn connect(&mut self, _: &str) -> DeviceResult<()> {
        self.connected = true;
        Ok(())
    }
    fn disconnect(&mut self) -> DeviceResult<()> {
        self.connected = false;
        Ok(())
    }
    fn get(&mut self, url: &str) -> DeviceResult<Vec<u8>> {
        self.answer(&format!("GET {}", url))
    }
    fn post(&mut self, url: &str, body: &[u8]) -> DeviceResult<Vec<u8>> {
        self.answer(&format!("POST {} {}", url, body.len()))
    }
    fn put(&mut self, url: &str, _: &[u8]) -> DeviceResult<Vec<u8>> {
        self.answer(&format!("PUT {}", url))
    }
    fn delete(&mut self, url: &str) -> DeviceResult<Vec<u8>> {
        self.answer(&format!("DELETE {}", url))
    }
    fn head(&mut self, url: &str) -> DeviceResult<Vec<u8>> {
        self.answer(&format!("HEAD {}", url))
    }
    fn patch(&mut self, url: &str, _: &[u8]) -> DeviceResult<Vec<u8>> {
        self.answer(&format!("PATCH {}", url))
    }
    fn set_header(&mut self, key: &str, _: &str) {
        self.calls.lock().unwrap().push(format!("HEADER {}", key));
    }
    fn status_code(&self) -> u16 {
        204
    }
    fn headers(&self) -> HeaderMap {
        HeaderMap::new()
    }
}

struct ScriptedProvider {
    client: ScriptedClient,
}

impl HttpClientProvider for ScriptedProvider {
    fn create_http_client(&self) -> BoxedHttpClient {
        BoxedHttpClient(Box::new(self.client.clone()))
    }
}

#[test]
fn hal_fuji_error_numbers_and_mapping() {
    let all = [
        (FujiError::Success, 0u8),
        (FujiError::IoError, 1),
        (FujiError::NotReady, 2),
        (FujiError::NotSupported, 3),
        (FujiError::InvalidParameter, 4),
        (FujiError::InvalidProtocol, 5),
        (FujiError::InvalidOperation, 6),
        (FujiError::NetworkError, 7),
    ];
    for (e, n) in all {
        assert_eq!(e.number(), n);
    }
    assert_eq!(FujiError::from(DeviceError::IoError("x".to_string())), FujiError::IoError);
    assert_eq!(FujiError::from(DeviceError::NotReady), FujiError::NotReady);
    assert_eq!(FujiError::from(DeviceError::NotSupported), FujiError::NotSupported);
    assert_eq!(FujiError::from(DeviceError::InvalidProtocol), FujiError::InvalidProtocol);
    assert_eq!(FujiError::from(DeviceError::InvalidOperation), FujiError::InvalidOperation);
    assert_eq!(FujiError::from(DeviceError::NetworkError("x".to_string())), FujiError::NetworkError);
    assert_eq!(FujiError::from(DeviceError::UnsupportedProtocol), FujiError::InvalidProtocol);
    assert_eq!(FujiError::from(DeviceError::InvalidUrl), FujiError::InvalidParameter);
    assert_eq!(FujiError::from(DeviceError::InvalidDeviceId), FujiError::InvalidParameter);
}

#[test]
fn hal_device_result_codes() {
    assert_eq!(device_result_to_error(Ok(())), 0);
    assert_eq!(device_result_to_error(Err(DeviceError::IoError("x".to_string()))), 1);
    assert_eq!(device_result_to_error(Err(DeviceError::NotReady)), 3);
    assert_eq!(device_result_to_error(Err(DeviceError::NetworkError("x".to_string()))), 4);
    assert_eq!(device_result_to_error(Err(DeviceError::InvalidUrl)), 255);
    assert_eq!(client_call_code(None), 5);
    assert_eq!(client_call_code(Some(Ok(vec![1, 2]))), 0);
    assert_eq!(client_call_code(Some(Err(DeviceError::NotReady))), 3);
}

#[test]
fn unit_manager_open() {
    let provider = ScriptedProvider { client: ScriptedClient::default() };
    let mut manager = NetworkDeviceManager::new();
    assert_eq!(manager.open(None, 0, 0, &provider), 2);
    assert_eq!(manager.open(Some("bad"), 0, 0, &provider), 2);
    assert_eq!(manager.open(Some("N2:ftp://x"), 0, 0, &provider), 2);
    assert_eq!(manager.open(Some("N2:tcp://x:1"), 0, 0, &provider), 2);
    assert!(manager.get_device(1).unwrap().url.is_none());
    assert_eq!(manager.open(Some("N2:https://x/y"), 5, 6, &provider), 0);
    let unit = manager.get_device(1).unwrap();
    assert_eq!(unit.mode, 5);
    assert_eq!(unit.trans, 6);
    assert_eq!(unit.url.as_ref().unwrap().url, "https://x/y");
    assert!(unit.client.is_some());
    assert!(manager.get_device(0).unwrap().url.is_none());
    assert!(manager.get_device(8).is_none());
}

#[test]
fn host_translator_passes_data_through() {
    let mut translator = X86HostTranslator::new();
    assert!(translator.initialize().is_ok());
    assert_eq!(translator.process_host_data(b"abc").unwrap(), b"abc".to_vec());
    assert_eq!(translator.process_device_data(&[]).unwrap(), Vec::<u8>::new());
}

#[test]
fn platform_factories() {
    assert!(matches!(create_http_client(), Err(DeviceError::NotSupported)));
    let registry = create_protocol_registry(Box::new(ScriptedProvider { client: ScriptedClient::default() }));
    assert!(registry.supports_protocol(&NetworkProtocol::Http));
    assert!(!registry.supports_protocol(&NetworkProtocol::Tcp));
    let calls = Arc::new(Mutex::new(Vec::new()));
    let client = ScriptedClient { calls: calls.clone(), ..ScriptedClient::default() };
    let mut manager = create_network_manager(Box::new(ScriptedProvider { client }));
    assert!(manager.open_device("N1:http://example.com/a", 0, 0).is_ok());
    let device = manager.get_network_device(0).unwrap();
    let handler = device.protocol_handler();
    let http = handler.as_http_mut().unwrap();
    assert!(http.get("").is_ok());
    assert_eq!(calls.lock().unwrap().last().unwrap(), "GET ");
}

#[test]
fn test_network_device_error_handling() {
    let mut device = NetworkDevice::new("http://example.com".to_string(), HttpProtocol::default());
    let mut buffer = vec![0u8; 1024];
    assert!(device.read_bytes(&mut buffer).is_err());
    assert!(device.write_bytes(b"test").is_err());
    assert!(device.close().is_err());
}

#[test]
fn buffered_http_write_then_read_in_pieces() {
    let calls = Arc::new(Mutex::new(Vec::new()));
    let client = ScriptedClient { reply: b"0123456789".to_vec(), calls: calls.clone(), ..ScriptedClient::default() };
    let mut protocol = HttpProtocol::default();
    protocol.set_http_client(Box::new(client));
    assert!(protocol.close().is_err());
    protocol.open("http://e/x").unwrap();
    assert_eq!(protocol.status().unwrap(), ConnectionStatus::Connected);
    assert_eq!(protocol.write(b"abc").unwrap(), 3);
    let mut a = [0u8; 4];
    assert_eq!(protocol.read(&mut a).unwrap(), 4);
    assert_eq!(&a, b"0123");
    let mut b = [9u8; 8];
    assert_eq!(protocol.read(&mut b).unwrap(), 6);
    assert_eq!(&b, b"456789\x09\x09");
    assert_eq!(protocol.read(&mut b).unwrap(), 0);
    assert_eq!(calls.lock().unwrap().as_slice(), &["POST http://e/x 3".to_string()]);
    protocol.close().unwrap();
    assert_eq!(protocol.status().unwrap(), ConnectionStatus::Disconnected);
}

#[test]
fn buffered_http_read_gets_when_empty() {
    let calls = Arc::new(Mutex::new(Vec::new()));
    let client = ScriptedClient { reply: b"hi".to_vec(), calls: calls.clone(), ..ScriptedClient::default() };
    let mut protocol = HttpProtocol::default();
    protocol.set_http_client(Box::new(client));
    protocol.open("http://e").unwrap();
    let mut a = [0u8; 8];
    assert_eq!(protocol.read(&mut a).unwrap(), 2);
    assert_eq!(&a[..2], b"hi");
    assert_eq!(calls.lock().unwrap().as_slice(), &["GET http://e".to_string()]);
    let failing = ScriptedClient { fail: true, ..ScriptedClient::default() };
    let mut protocol = HttpProtocol::default();
    protocol.set_http_client(Box::new(failing));
    assert!(matches!(protocol.read(&mut a), Err(DeviceError::NetworkError(_))));
    assert!(matches!(protocol.write(b"x"), Err(DeviceError::NetworkError(_))));
}

#[test]
fn buffered_http_requests_and_headers() {
    let calls = Arc::new(Mutex::new(Vec::new()));
    let client = ScriptedClient { calls: calls.clone(), ..ScriptedClient::default() };
    let mut protocol = HttpProtocol::default();
    assert!(matches!(protocol.send_request("GET", "u", b""), Err(DeviceError::NotReady)));
    assert!(matches!(protocol.add_header("k", "v"), Err(DeviceError::NotReady)));
    assert!(matches!(protocol.get_status_code(), Err(DeviceError::NotReady)));
    assert!(protocol.get_headers().is_err());
    assert!(matches!(protocol.open("x"), Err(DeviceError::NotReady)));
    assert_eq!(protocol.status().unwrap(), ConnectionStatus::Connecting);
    protocol.set_http_client(Box::new(client));
    assert!(matches!(protocol.send_request("FETCH", "u", b""), Err(DeviceError::InvalidOperation)));
    protocol.get("u1").unwrap();
    protocol.post("u2", b"ab").unwrap();
    protocol.put("u3", b"").unwrap();
    protocol.delete("u4").unwrap();
    protocol.head("u5").unwrap();
    protocol.patch("u6", b"").unwrap();
    protocol.add_header("Accept", "x").unwrap();
    assert_eq!(protocol.get_status_code().unwrap(), 204);
    assert!(protocol.get_headers().unwrap().is_empty());
    assert_eq!(
        calls.lock().unwrap().as_slice(),
        &[
            "GET u1".to_string(),
            "POST u2 2".to_string(),
            "PUT u3".to_string(),
            "DELETE u4".to_string(),
            "HEAD u5".to_string(),
            "PATCH u6".to_string(),
            "HEADER Accept".to_string(),
        ]
    );
    let copy = protocol.clone();
    assert_eq!(copy.status().unwrap(), ConnectionStatus::Connecting);
    assert!(matches!(copy.get_status_code(), Err(DeviceError::NotReady)));
}

#[test]
fn network_device_factories() {
    let device = new_network_device("http://example.com".to_string()).unwrap();
    assert_eq!(device.name(), "network");
    assert_eq!(device.get_status().unwrap(), DeviceStatus::Disconnected);
    assert!(new_network_device("https://example.com".to_string()).is_ok());
    assert!(matches!(new_network_device("ftp://example.com".to_string()), Err(DeviceError::InvalidProtocol)));
    assert!(matches!(new_network_device("HTTP://example.com".to_string()), Err(DeviceError::InvalidProtocol)));
    assert!(matches!(new_network_device("http".to_string()), Ok(_)));
    assert!(matches!(new_http_device("http://example.com".to_string()), Err(DeviceError::NotSupported)));
    assert!(matches!(new_http_device("https://example.com".to_string()), Err(DeviceError::NotSupported)));
    assert!(matches!(new_http_device("ftp://example.com".to_string()), Err(DeviceError::InvalidProtocol)));
}

#[test]
fn drain_copies_what_fits() {
    let buffer = vec![1u8, 2, 3];
    let mut d = [9u8; 2];
    assert_eq!(drain_into(&buffer, 1, &mut d), 2);
    assert_eq!(d, [2, 3]);
    let mut e = [9u8; 4];
    assert_eq!(drain_into(&buffer, 2, &mut e), 1);
    assert_eq!(e, [3, 9, 9, 9]);
    assert_eq!(drain_into(&buffer, 3, &mut e), 0);
    assert_eq!(drain_into(&buffer, 7, &mut e), 0);
}

#[test]
fn core_codes_and_errors() {
    let cases = [
        (base::DeviceError::Io("x".to_string()), base::ffi::FujiError::Io, 1u8),
        (base::DeviceError::NotReady, base::ffi::FujiError::NotReady, 2),
        (base::DeviceError::NotSupported, base::ffi::FujiError::NotSupported, 3),
        (base::DeviceError::InvalidParameter("p".to_string()), base::ffi::FujiError::InvalidParameter, 4),
        (base::DeviceError::ConnectionError("c".to_string()), base::ffi::FujiError::ConnectionError, 5),
    ];
    for (err, code, n) in cases {
        let copy = err.clone();
        assert_eq!(copy, err);
        let mapped = base::ffi::FujiError::from(err);
        assert_eq!(mapped, code);
        assert_eq!(mapped.number(), n);
    }
    assert_eq!(base::ffi::FujiError::Success.number(), 0);
    assert!(matches!(base::platform::create_http_client(), Err(base::DeviceError::NotSupported)));
    assert_ne!(base::DeviceStatus::Busy, base::DeviceStatus::Ready);
}

#[test]
fn default_registry_makes_disconnected_http_handlers() {
    let registry = create_protocol_registry(Box::new(ScriptedProvider { client: ScriptedClient::default() }));
    let mut handler = registry.create_handler(NetworkProtocol::Http).unwrap();
    assert_eq!(handler.status().unwrap(), ConnectionStatus::Disconnected);
    assert!(handler.as_http_mut().is_some());
    assert!(matches!(registry.create_handler(NetworkProtocol::Tcp), Err(DeviceError::UnsupportedProtocol)));
}
