use fujinet::device::network::url::NetworkUrl;
use fujinet::device::network::protocols::{is_protocol_supported, NetworkProtocol};
use fujinet::device::DeviceError;

#[test]
fn test_network_url_parse_default_unit() {
    let url = NetworkUrl::parse("N:http://ficticious_example.madeup").unwrap();
    assert_eq!(url.unit, 1);
    assert_eq!(url.url, "http://ficticious_example.madeup");

    let url = NetworkUrl::parse("n:http://ficticious_example.madeup").unwrap();
    assert_eq!(url.unit, 1);
    assert_eq!(url.url, "http://ficticious_example.madeup");
}

#[test]
fn test_network_url_parse_specific_unit() {
    let url = NetworkUrl::parse("N2:http://ficticious_example.madeup").unwrap();
    assert_eq!(url.unit, 2);
    assert_eq!(url.url, "http://ficticious_example.madeup");

    let url = NetworkUrl::parse("n3:http://ficticious_example.madeup").unwrap();
    assert_eq!(url.unit, 3);
    assert_eq!(url.url, "http://ficticious_example.madeup");

    for unit in 1..=8 {
        let url = format!("N{}:http://test.com", unit);
        let parsed = NetworkUrl::parse(&url).unwrap();
        assert_eq!(parsed.unit, unit as u8);
        assert_eq!(parsed.url, "http://test.com");
    }
}

#[test]
fn test_network_url_parse_invalid_cases() {
    assert!(matches!(NetworkUrl::parse("http://ficticious_example.madeup"), Err(DeviceError::InvalidUrl)));
    assert!(matches!(NetworkUrl::parse("N0:http://ficticious_example.madeup"), Err(DeviceError::InvalidUrl)));
    assert!(matches!(NetworkUrl::parse("N9:http://ficticious_example.madeup"), Err(DeviceError::InvalidUrl)));
    assert!(matches!(NetworkUrl::parse("n0:http://ficticious_example.madeup"), Err(DeviceError::InvalidUrl)));
    assert!(matches!(NetworkUrl::parse("Nx:http://ficticious_example.madeup"), Err(DeviceError::InvalidUrl)));
    assert!(matches!(NetworkUrl::parse("N1http://ficticious_example.madeup"), Err(DeviceError::InvalidUrl)));
    assert!(matches!(NetworkUrl::parse("N:example.com"), Err(DeviceError::InvalidUrl)));
    assert!(matches!(NetworkUrl::parse("N:ftp://example.com"), Err(DeviceError::UnsupportedProtocol)));
}

#[test]
fn test_network_url_scheme() {
    let url = NetworkUrl::parse("N:http://ficticious_example.madeup").unwrap();
    assert_eq!(url.scheme().unwrap(), "http");

    let url = NetworkUrl::parse("N:https://example.com").unwrap();
    assert_eq!(url.scheme().unwrap(), "https");

    let url = NetworkUrl::parse("N:tcp://192.168.1.1:8080").unwrap();
    assert_eq!(url.scheme().unwrap(), "tcp");

    assert!(matches!(NetworkUrl::parse("N:example.com"), Err(DeviceError::InvalidUrl)));
}

#[test]
fn test_has_same_base_url() {
    let base_url = NetworkUrl::parse("N1:http://192.168.1.100:8085/").unwrap();
    let request_url = NetworkUrl::parse("N1:http://192.168.1.100:8085/get?a=1&b=2").unwrap();
    assert!(base_url.has_same_base_url(&request_url), "URLs with same base but different paths should match");

    let no_slash = NetworkUrl::parse("N1:http://192.168.1.100:8085").unwrap();
    assert!(base_url.has_same_base_url(&no_slash), "URLs with/without trailing slash should match");

    let different_host = NetworkUrl::parse("N1:http://192.168.1.101:8085/").unwrap();
    assert!(!base_url.has_same_base_url(&different_host), "URLs with different hosts should not match");

    let different_port = NetworkUrl::parse("N1:http://192.168.1.100:8086/").unwrap();
    assert!(!base_url.has_same_base_url(&different_port), "URLs with different ports should not match");
}

#[test]
fn url_protocol_follows_scheme_in_any_case() {
    assert_eq!(NetworkUrl::parse("N:HTTP://a").unwrap().protocol(), NetworkProtocol::Http);
    assert_eq!(NetworkUrl::parse("N:Https://a").unwrap().protocol(), NetworkProtocol::Http);
    assert_eq!(NetworkUrl::parse("N:TCP://a:1").unwrap().protocol(), NetworkProtocol::Tcp);
    assert_eq!(NetworkUrl::parse("N:HTTP://a").unwrap().scheme().unwrap(), "HTTP");
}

#[test]
fn url_indicator_case_and_default_unit_agree() {
    let lower = NetworkUrl::parse("n:http://x.y/z").unwrap();
    let upper = NetworkUrl::parse("N:http://x.y/z").unwrap();
    let one = NetworkUrl::parse("N1:http://x.y/z").unwrap();
    assert_eq!(lower, upper);
    assert_eq!(upper, one);
}

#[test]
fn url_same_base_ignores_path_and_differs_on_scheme() {
    let a = NetworkUrl::parse("N1:http://host:80/a/b").unwrap();
    let b = NetworkUrl::parse("N2:http://host:80/c").unwrap();
    let c = NetworkUrl::parse("N1:tcp://host:80/a/b").unwrap();
    assert!(a.has_same_base_url(&b));
    assert!(b.has_same_base_url(&a));
    assert!(a.has_same_base_url(&a));
    assert!(!a.has_same_base_url(&c));
}

#[test]
fn url_edge_cases() {
    assert!(matches!(NetworkUrl::parse(""), Err(DeviceError::InvalidUrl)));
    assert!(matches!(NetworkUrl::parse("N"), Err(DeviceError::InvalidUrl)));
    assert!(matches!(NetworkUrl::parse("X1:http://a"), Err(DeviceError::InvalidUrl)));
    let url = NetworkUrl::parse("N8:http://").unwrap();
    assert_eq!(url.unit, 8);
    assert_eq!(url.url, "http://");
}

#[test]
fn scheme_without_separator_is_invalid_protocol() {
    let mut url = NetworkUrl::parse("N:http://x").unwrap();
    url.url = "example.com".to_string();
    assert!(matches!(url.scheme(), Err(DeviceError::InvalidProtocol)));
}

#[test]
fn only_http_is_supported_by_name() {
    assert!(is_protocol_supported("http"));
    assert!(is_protocol_supported("HTTPS"));
    assert!(!is_protocol_supported("tcp"));
    assert!(!is_protocol_supported("ftp"));
}
