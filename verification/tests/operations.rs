use fujinet::adapters::common::error::AdapterError;
use fujinet::adapters::common::network::operations::{DeviceOpenRequest, HttpGetRequest, HttpPostRequest, OperationsContext};
use fujinet::adapters::common::network::test_mocks::TestNetworkManager;
use fujinet::adapters::common::network::{close_device, open_device};
use fujinet::device::network::url::NetworkUrl;
use fujinet::device::DeviceError;

fn open_request(spec: &str) -> DeviceOpenRequest {
    DeviceOpenRequest { device_spec: spec.to_string(), mode: 0, translation: 0 }
}

#[test]
fn base_test_open_device_success() {
    let manager = TestNetworkManager::new()
        .with_parse_result(1, "N1:http://test.com")
        .with_open_result(true);
    let mut context = OperationsContext::new(manager);
    let result = context.open_device(open_request("N1:http://test.com"));
    assert!(result.is_ok());
    assert_eq!(result.unwrap(), 1);
}

#[test]
fn base_test_open_device_invalid_spec() {
    let manager = TestNetworkManager::new();
    let mut context = OperationsContext::new(manager);
    let result = context.open_device(open_request("invalid"));
    assert!(result.is_err());
    assert!(matches!(result.unwrap_err(), AdapterError::InvalidDeviceSpec));
}

#[test]
fn base_test_open_device_open_error() {
    let manager = TestNetworkManager::new()
        .with_parse_result(1, "N1:http://test.com")
        .with_open_result(false);
    let mut context = OperationsContext::new(manager);
    let result = context.open_device(open_request("N1:http://test.com"));
    assert!(result.is_err());
    assert!(matches!(result.unwrap_err(), AdapterError::DeviceError(DeviceError::InvalidUrl)));
}

#[test]
fn base_test_close_device_success() {
    let manager = TestNetworkManager::new().with_close_result(true);
    let mut context = OperationsContext::new(manager);
    let result = context.close_device(1);
    assert!(result.is_ok());
}

#[test]
fn base_test_close_device_failure() {
    let manager = TestNetworkManager::new().with_close_result(false);
    let mut context = OperationsContext::new(manager);
    let result = context.close_device(1);
    assert!(result.is_err());
    if let AdapterError::DeviceError(DeviceError::IoError(msg)) = result.unwrap_err() {
        assert_eq!(msg, "Failed to close device");
    } else {
        panic!("Expected IoError");
    }
}

#[test]
fn test_validate_device_spec_success() {
    let manager = TestNetworkManager::new()
        .with_parse_result(1, "N1:http://test.com")
        .with_device_state(1, NetworkUrl::parse("N1:http://test.com").unwrap());
    let mut context = OperationsContext::new(manager);
    let result = context.validate_device_spec("N1:http://test.com");
    assert!(result.is_ok());
    assert_eq!(result.unwrap(), 1);
}

#[test]
fn test_validate_device_spec_invalid_spec() {
    let manager = TestNetworkManager::new();
    let mut context = OperationsContext::new(manager);
    let result = context.validate_device_spec("invalid");
    assert!(result.is_err());
    assert!(matches!(result.unwrap_err(), AdapterError::InvalidDeviceSpec));
}

#[test]
fn test_validate_device_spec_device_not_found() {
    let manager = TestNetworkManager::new().with_parse_result(1, "N1:http://test.com");
    let mut context = OperationsContext::new(manager);
    let result = context.validate_device_spec("N1:http://test.com");
    assert!(result.is_err());
    assert!(matches!(result.unwrap_err(), AdapterError::DeviceError(DeviceError::InvalidUrl)));
}

#[test]
fn test_validate_device_spec_url_mismatch() {
    let manager = TestNetworkManager::new()
        .with_parse_result(1, "N1:http://test.com")
        .with_device_state(1, NetworkUrl::parse("N1:http://different.com").unwrap());
    let mut context = OperationsContext::new(manager);
    let result = context.validate_device_spec("N1:http://test.com");
    assert!(result.is_err());
    assert!(matches!(result.unwrap_err(), AdapterError::DeviceError(DeviceError::InvalidUrl)));
}

#[test]
fn test_validate_device_spec_no_url() {
    let manager = TestNetworkManager::new()
        .with_parse_result(1, "N1:http://test.com")
        .with_device_state_no_url(1);
    let mut context = OperationsContext::new(manager);
    let result = context.validate_device_spec("N1:http://test.com");
    assert!(result.is_err());
    assert!(matches!(result.unwrap_err(), AdapterError::DeviceError(DeviceError::NotReady)));
}

#[test]
fn http_test_http_post_device_not_found() {
    let manager = TestNetworkManager::new().with_parse_result(1, "N1:http://test.com");
    let mut context = OperationsContext::new(manager);
    let request = HttpPostRequest::new("N1:http://test.com".to_string(), vec![1, 2, 3]);
    let result = context.http_post(request);
    assert!(result.is_err());
    assert!(matches!(result.unwrap_err(), AdapterError::DeviceError(DeviceError::InvalidUrl)));
}

#[test]
fn http_test_http_post_success() {
    let manager = TestNetworkManager::new()
        .with_parse_result(1, "N1:http://test.com")
        .with_http_device(Ok(()));
    let mut context = OperationsContext::new(manager);
    let mut request = HttpPostRequest::new("N1:http://test.com".to_string(), vec![1, 2, 3]);
    request.device_id = Some(1);
    let result = context.http_post(request);
    assert!(result.is_ok());
}

#[test]
fn http_test_http_get_device_not_found() {
    let manager = TestNetworkManager::new().with_parse_result(1, "N1:http://test.com");
    let mut context = OperationsContext::new(manager);
    let mut request = HttpGetRequest::new("N1:http://test.com".to_string(), vec![0; 1024]);
    let result = context.http_get(&mut request);
    assert!(result.is_err());
    assert!(matches!(result.unwrap_err(), AdapterError::DeviceError(DeviceError::InvalidUrl)));
}

#[test]
fn http_test_http_get_success() {
    let test_response = b"Hello, World!".to_vec();
    let url = "N1:http://test.com";
    let manager = TestNetworkManager::new()
        .with_parse_result(1, url)
        .with_device_state(1, NetworkUrl::parse(url).unwrap())
        .with_http_device_get(Ok(test_response.clone()));
    let mut context = OperationsContext::new(manager);
    let mut request = HttpGetRequest::new(url.to_string(), vec![0; 1024]);
    request.device_id = Some(1);
    let result = context.http_get(&mut request);
    assert!(result.is_ok());
    assert_eq!(result.unwrap(), test_response.len());
    assert_eq!(&request.buffer[..test_response.len()], test_response.as_slice());
}

#[test]
fn test_http_get_with_different_path() {
    let test_response = b"Hello, World!".to_vec();
    let base_url = "N1:http://192.168.1.100:8085/";
    let request_url = "N1:http://192.168.1.100:8085/get?a=1&b=2";
    let manager = TestNetworkManager::new()
        .with_parse_result(1, base_url)
        .with_parse_result(1, request_url)
        .with_device_state(1, NetworkUrl::parse(base_url).unwrap())
        .with_http_device_get(Ok(test_response.clone()));
    let mut context = OperationsContext::new(manager);
    let mut request = HttpGetRequest::new(request_url.to_string(), vec![0; 1024]);
    request.device_id = Some(1);
    let result = context.http_get(&mut request);
    assert!(result.is_ok(), "GET request with different path should succeed");
    assert_eq!(result.unwrap(), test_response.len());
}

#[test]
fn operations_test_http_post_device_not_found() {
    let manager = TestNetworkManager::new().with_parse_result(1, "N1:http://test.com");
    let mut context = OperationsContext::new(manager);
    let request = HttpPostRequest { device_spec: "N1:http://test.com".to_string(), device_id: None, data: vec![1, 2, 3] };
    let result = context.http_post(request);
    assert!(result.is_err());
    assert!(matches!(result.unwrap_err(), AdapterError::DeviceError(DeviceError::InvalidUrl)));
}

#[test]
fn operations_test_http_post_success() {
    let manager = TestNetworkManager::new()
        .with_parse_result(1, "N1:http://test.com")
        .with_http_device(Ok(()));
    let mut context = OperationsContext::new(manager);
    let request = HttpPostRequest { device_spec: "N1:http://test.com".to_string(), device_id: None, data: vec![1, 2, 3] };
    let result = context.http_post(request);
    assert!(result.is_ok());
}

#[test]
fn test_http_post_network_error() {
    let manager = TestNetworkManager::new()
        .with_parse_result(1, "N1:http://test.com")
        .with_http_device(Err(DeviceError::NetworkError("test error".to_string())));
    let mut context = OperationsContext::new(manager);
    let request = HttpPostRequest { device_spec: "N1:http://test.com".to_string(), device_id: None, data: vec![1, 2, 3] };
    let result = context.http_post(request);
    assert!(result.is_err());
    if let AdapterError::DeviceError(DeviceError::NetworkError(msg)) = result.unwrap_err() {
        assert_eq!(msg, "test error");
    } else {
        panic!("Expected NetworkError");
    }
}

#[test]
fn operations_test_open_device_success() {
    let manager = TestNetworkManager::new()
        .with_parse_result(1, "N1:http://test.com")
        .with_open_result(true);
    let mut context = OperationsContext::new(manager);
    let result = context.open_device(open_request("N1:http://test.com"));
    assert!(result.is_ok());
    assert_eq!(result.unwrap(), 1);
}

#[test]
fn operations_test_open_device_invalid_spec() {
    let manager = TestNetworkManager::new();
    let mut context = OperationsContext::new(manager);
    let result = context.open_device(open_request("invalid"));
    assert!(result.is_err());
    assert!(matches!(result.unwrap_err(), AdapterError::InvalidDeviceSpec));
}

#[test]
fn operations_test_open_device_open_error() {
    let manager = TestNetworkManager::new()
        .with_parse_result(1, "N1:http://test.com")
        .with_open_result(false);
    let mut context = OperationsContext::new(manager);
    let result = context.open_device(open_request("N1:http://test.com"));
    assert!(result.is_err());
    assert!(matches!(result.unwrap_err(), AdapterError::DeviceError(DeviceError::InvalidUrl)));
}

#[test]
fn operations_test_close_device_success() {
    let manager = TestNetworkManager::new().with_close_result(true);
    let mut context = OperationsContext::new(manager);
    let result = context.close_device(1);
    assert!(result.is_ok());
}

#[test]
fn http_get_rejects_other_host_and_small_buffer_truncates() {
    let response = b"Hello, World!".to_vec();
    let manager = TestNetworkManager::new()
        .with_parse_result(1, "N1:http://a.com/x")
        .with_device_state(1, NetworkUrl::parse("N1:http://b.com/x").unwrap())
        .with_http_device_get(Ok(response.clone()));
    let mut context = OperationsContext::new(manager);
    let mut request = HttpGetRequest::new("N1:http://a.com/x".to_string(), vec![7; 4]);
    let result = context.http_get(&mut request);
    assert!(matches!(result, Err(AdapterError::DeviceError(DeviceError::InvalidUrl))));
    assert_eq!(request.device_id, Some(1));
    assert_eq!(request.buffer, vec![7; 4]);

    let manager = TestNetworkManager::new()
        .with_parse_result(1, "N1:http://a.com/x")
        .with_device_state(1, NetworkUrl::parse("N1:http://a.com/y").unwrap())
        .with_http_device_get(Ok(response.clone()));
    let mut context = OperationsContext::new(manager);
    let mut request = HttpGetRequest::new("N1:http://a.com/x".to_string(), vec![7; 4]);
    assert_eq!(context.http_get(&mut request).unwrap(), 4);
    assert_eq!(request.buffer, b"Hell".to_vec());
}

#[test]
fn http_get_not_ready_and_network_error() {
    let manager = TestNetworkManager::new()
        .with_parse_result(1, "N1:http://a.com")
        .with_device_state_no_url(1);
    let mut context = OperationsContext::new(manager);
    let mut request = HttpGetRequest::new("N1:http://a.com".to_string(), vec![0; 8]);
    assert!(matches!(context.http_get(&mut request), Err(AdapterError::DeviceError(DeviceError::NotReady))));

    let manager = TestNetworkManager::new()
        .with_parse_result(1, "N1:http://a.com")
        .with_device_state(1, NetworkUrl::parse("N1:http://a.com").unwrap())
        .with_http_device_get(Err(DeviceError::NetworkError("down".to_string())));
    let mut context = OperationsContext::new(manager);
    let mut request = HttpGetRequest::new("N1:http://a.com".to_string(), vec![0; 8]);
    match context.http_get(&mut request) {
        Err(AdapterError::DeviceError(DeviceError::NetworkError(m))) => assert_eq!(m, "down"),
        other => panic!("unexpected {:?}", other),
    }
    assert_eq!(request.buffer, vec![0; 8]);
}

#[test]
fn http_get_invalid_spec_leaves_request() {
    let manager = TestNetworkManager::new();
    let mut context = OperationsContext::new(manager);
    let mut request = HttpGetRequest::new("nope".to_string(), vec![1, 2]);
    assert!(matches!(context.http_get(&mut request), Err(AdapterError::InvalidDeviceSpec)));
    assert_eq!(request.device_id, None);
    assert_eq!(request.buffer, vec![1, 2]);
}

#[test]
fn parse_device_spec_through_context() {
    let manager = TestNetworkManager::new().with_parse_result(3, "N4:http://x.org");
    let context = OperationsContext::new(manager);
    assert_eq!(context.parse_device_spec("N4:http://x.org").unwrap(), 3);
    assert!(matches!(context.parse_device_spec("N4:http://y.org"), Err(AdapterError::InvalidDeviceSpec)));
}

#[test]
fn fresh_manager_open_and_close() {
    assert!(matches!(open_device(open_request("bad")), Err(AdapterError::InvalidDeviceSpec)));
    assert!(matches!(
        open_device(open_request("N1:http://test.com")),
        Err(AdapterError::DeviceError(DeviceError::UnsupportedProtocol))
    ));
    assert!(close_device(0).is_ok());
    assert!(close_device(7).is_ok());
}

#[test]
fn adapter_error_from_device_error() {
    let e: AdapterError = DeviceError::NotReady.into();
    assert!(matches!(e, AdapterError::DeviceError(DeviceError::NotReady)));
}

#[test]
fn test_manager_accepts_any_unit_index() {
    let manager = TestNetworkManager::new()
        .with_parse_result(12, "N1:http://test.com")
        .with_open_result(true)
        .with_close_result(true);
    let mut context = OperationsContext::new(manager);
    assert_eq!(context.open_device(open_request("N1:http://test.com")).unwrap(), 12);
    assert!(context.close_device(12).is_ok());
}
