use maas_power_unifi::error::UnifiError;
use maas_power_unifi::models::{AuthData, MacAddr, PoeMode, Port};
use maas_power_unifi::protocol::{
    devices_call, login_call, login_outcome, override_body_text, port_override_call, CallKind,
    Event, Method,
};
use maas_power_unifi::text::decimal_text;

#[test]
fn override_body_sets_port_to_auto() {
    assert_eq!(
        override_body_text(1, PoeMode::Auto),
        r#"{"port_overrides":[{"port_idx":1,"poe_mode":"auto"}]}"#
    );
    assert_eq!(
        override_body_text(48, PoeMode::Off),
        r#"{"port_overrides":[{"port_idx":48,"poe_mode":"off"}]}"#
    );
}

#[test]
fn override_call_targets_the_device() {
    let call = port_override_call("5f3e", 12, PoeMode::Auto);
    assert_eq!(call.kind, CallKind::PortOverride);
    assert_eq!(call.method, Method::Post);
    assert_eq!(call.path, "/api/s/default/rest/device/5f3e");
    assert_eq!(
        call.body.as_deref(),
        Some(r#"{"port_overrides":[{"port_idx":12,"poe_mode":"auto"}]}"#)
    );
}

#[test]
fn listing_call_is_a_get() {
    let call = devices_call();
    assert_eq!(call.kind, CallKind::ListDevices);
    assert_eq!(call.method, Method::Get);
    assert_eq!(call.path, "/api/s/default/stat/device");
    assert!(call.body.is_none());
}

#[test]
fn login_call_posts_credentials() {
    let auth = AuthData::new("admin".to_owned(), "pw".to_owned());
    assert_eq!(auth.username_str(), "admin");
    assert_eq!(auth.password_str(), "pw");
    let call = login_call(r#"{"username":"admin"}"#.to_owned());
    assert_eq!(call.kind, CallKind::Login);
    assert_eq!(call.method, Method::Post);
    assert_eq!(call.path, "/api/login");
    assert_eq!(call.body.as_deref(), Some(r#"{"username":"admin"}"#));
}

#[test]
fn login_succeeds_on_success_status_only() {
    assert!(login_outcome(&Event::Answered(200)).is_ok());
    match login_outcome(&Event::Answered(403)) {
        Err(UnifiError::AuthError(detail)) => assert_eq!(detail, "HTTP status 403"),
        other => panic!("{:?}", other),
    }
    match login_outcome(&Event::CallFailed("connection refused".to_owned())) {
        Err(UnifiError::AuthError(detail)) => assert_eq!(detail, "connection refused"),
        other => panic!("{:?}", other),
    }
}

#[test]
fn decimal_text_writes_digits() {
    assert_eq!(decimal_text(0), "0");
    assert_eq!(decimal_text(7), "7");
    assert_eq!(decimal_text(10), "10");
    assert_eq!(decimal_text(65535), "65535");
    assert_eq!(decimal_text(usize::MAX), usize::MAX.to_string());
}

#[test]
fn mac_text_is_upper_case_hex_with_colons() {
    let mac = MacAddr::parse("01-23-45-67-89-ab").unwrap();
    assert_eq!(mac.bytes, [0x01, 0x23, 0x45, 0x67, 0x89, 0xAB]);
    assert_eq!(mac.to_string(), "01:23:45:67:89:AB");
    assert_eq!(MacAddr::new([0, 10, 255, 1, 2, 3]).to_string(), "00:0A:FF:01:02:03");
}

#[test]
fn mac_parse_refuses_malformed_text() {
    assert!(MacAddr::parse("xx:xx:xx:xx:xx:xx").is_none());
    assert!(MacAddr::parse("80:FA:5B:41").is_none());
    assert_eq!(
        MacAddr::parse("4827e24425d8").unwrap().bytes,
        [0x48, 0x27, 0xE2, 0x44, 0x25, 0xD8]
    );
}

#[test]
fn mac_addresses_compare_by_bytes() {
    assert!(MacAddr::new([1, 2, 3, 4, 5, 6]) == MacAddr::parse("01:02:03:04:05:06").unwrap());
    assert!(MacAddr::new([1, 2, 3, 4, 5, 6]) != MacAddr::new([1, 2, 3, 4, 5, 7]));
}

#[test]
fn port_status_follows_poe_mode() {
    let auto = Port {
        port_idx: 1,
        poe_mode: Some(PoeMode::Auto),
    };
    let off = Port {
        port_idx: 2,
        poe_mode: Some(PoeMode::Off),
    };
    let unknown = Port {
        port_idx: 3,
        poe_mode: None,
    };
    assert_eq!(auto.power_status().unwrap().status, "running");
    assert_eq!(off.power_status().unwrap().status, "stopped");
    assert!(unknown.power_status().is_none());
}
