//! Phone-number validation, response classification, configuration checks
//! and the gateway address preference.

use phoneconnect::{
    classify_call_response, classify_devices_response, pick_gateway_addr, validate_phone, Config,
    DialError, NetAddr,
};

#[test]
fn valid_phone_numbers_pass() {
    assert!(validate_phone("+919876543210").is_ok());
    assert!(validate_phone("9876543210").is_ok());
    assert!(validate_phone("1234567").is_ok());
    assert!(validate_phone("123456789012345").is_ok());
}

#[test]
fn invalid_phone_numbers_are_rejected() {
    for bad in ["", "+", "123456", "1234567890123456", "12345a7", "+91 98765", "++1234567"] {
        match validate_phone(bad) {
            Err(DialError::InvalidPhoneNumber(s)) => assert_eq!(s, bad),
            other => panic!("{:?} accepted {:?}", other, bad),
        }
    }
}

#[test]
fn call_response_ok_takes_reported_ids() {
    let r = classify_call_response(
        200,
        Some("cmd-7".to_string()),
        Some("android_1".to_string()),
        "android_fallback",
        None,
    );
    let c = r.expect("200 yields a result");
    assert_eq!(c.device_id, "android_1");
    assert_eq!(c.command_id, "cmd-7");
}

#[test]
fn call_response_ok_falls_back_to_requested_device() {
    let r = classify_call_response(200, None, None, "android_fd9de1fb", None);
    let c = r.expect("200 yields a result");
    assert_eq!(c.device_id, "android_fd9de1fb");
    assert_eq!(c.command_id, "");
}

#[test]
fn call_response_errors_by_status() {
    assert_eq!(
        classify_call_response(401, None, None, "d", None),
        Err(DialError::Unauthorized),
    );
    assert_eq!(
        classify_call_response(404, None, None, "android_1", None),
        Err(DialError::DeviceOffline { device_id: "android_1".to_string() }),
    );
    assert_eq!(
        classify_call_response(503, None, None, "d", Some("busy".to_string())),
        Err(DialError::GatewayError { status: 503, body: "busy".to_string() }),
    );
    assert_eq!(
        classify_call_response(500, None, None, "d", None),
        Err(DialError::GatewayError { status: 500, body: "Unknown error".to_string() }),
    );
}

#[test]
fn devices_response_by_status() {
    assert!(classify_devices_response(200, String::new()).is_ok());
    assert_eq!(
        classify_devices_response(401, String::new()),
        Err(DialError::Unauthorized),
    );
    assert_eq!(
        classify_devices_response(418, "teapot".to_string()),
        Err(DialError::GatewayError { status: 418, body: "teapot".to_string() }),
    );
}

fn config(url: &str, token: &str) -> Config {
    Config { server_url: url.to_string(), token: token.to_string(), bt_mac: None }
}

#[test]
fn placeholder_and_blank_urls_trigger_discovery() {
    assert!(config("http://10.61.214.187:3000", "t").is_placeholder());
    assert!(config("", "t").is_placeholder());
    assert!(config("   ", "t").is_placeholder());
    assert!(!config("http://192.168.1.20:3000", "t").is_placeholder());
}

#[test]
fn blank_tokens_are_rejected() {
    assert_eq!(config("u", "  ").validate(), Err(DialError::Unauthorized));
    assert!(config("u", "some-token").validate().is_ok());
}

fn v4(a: u8, b: u8, c: u8, d: u8) -> NetAddr {
    NetAddr::V4 { octets: [a, b, c, d] }
}

#[test]
fn routable_ipv4_is_preferred() {
    let addrs = vec![
        NetAddr::V6 { segments: [0x2001, 0xdb8, 0, 0, 0, 0, 0, 1] },
        v4(169, 254, 3, 4),
        v4(127, 0, 0, 1),
        v4(192, 168, 1, 20),
    ];
    assert_eq!(pick_gateway_addr(&addrs), Some(3));
}

#[test]
fn non_loopback_fallback_when_no_routable_ipv4() {
    let addrs = vec![
        v4(127, 0, 0, 1),
        NetAddr::V6 { segments: [0x2001, 0xdb8, 0, 0, 0, 0, 0, 1] },
    ];
    assert_eq!(pick_gateway_addr(&addrs), Some(1));
    let link_local_only = vec![v4(127, 0, 0, 1), v4(169, 254, 9, 9)];
    assert_eq!(pick_gateway_addr(&link_local_only), Some(1));
}

#[test]
fn loopback_is_better_than_nothing() {
    assert_eq!(pick_gateway_addr(&vec![v4(127, 0, 0, 1)]), Some(0));
    assert_eq!(pick_gateway_addr(&Vec::new()), None);
}
