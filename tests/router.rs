use maas_power_unifi::config::{self, Config, Machine};
use maas_power_unifi::error::UnifiError;
use maas_power_unifi::exchange::{Exchange, Operation, Outcome, Step};
use maas_power_unifi::models::{Device, DeviceId, MacAddr, Meta, PoeMode, Port, UnifiResponse};
use maas_power_unifi::protocol::{CallKind, Event, HttpCall, Method};

const UNIFI_DEVICE_MAC: &str = "00-00-00-00-00-00";
const MAAS_SYSTEM_ID: &str = "system-id";
const MACHINE_PORT: usize = 1;

fn fleet() -> Config {
    Config {
        url: "".to_owned(),
        devices: vec![config::Device {
            mac: MacAddr::parse(UNIFI_DEVICE_MAC).unwrap(),
            machines: vec![Machine {
                maas_id: MAAS_SYSTEM_ID.to_owned(),
                port_id: MACHINE_PORT,
            }],
        }],
    }
}

/// The controller's device listing: one device whose port `port` has `mode`.
fn listing(port: usize, mode: Option<PoeMode>) -> Event {
    Event::DevicesListed(
        200,
        Ok(UnifiResponse {
            meta: Meta { rc: "".to_owned() },
            data: vec![Device {
                mac: MacAddr::parse(UNIFI_DEVICE_MAC).unwrap(),
                device_id: DeviceId::new(MAAS_SYSTEM_ID),
                port_table: vec![Port {
                    port_idx: port,
                    poe_mode: mode,
                }],
            }],
        }),
    )
}

/// Runs a request against replies given in order; returns its calls and result.
fn run(
    config: &Config,
    operation: Operation,
    id: &str,
    mut replies: Vec<Event>,
) -> (Vec<HttpCall>, Result<Outcome, UnifiError>) {
    let mut calls = Vec::new();
    let mut step = Exchange::begin(config, operation, id);
    replies.reverse();
    loop {
        match step {
            Step::Call(x, call) => {
                calls.push(call);
                let event = replies.pop().expect("a reply for each call");
                step = x.step(event);
            }
            Step::Done(result) => return (calls, result),
        }
    }
}

#[test]
fn should_get_power_status() {
    let (calls, result) = run(
        &fleet(),
        Operation::PowerStatus,
        MAAS_SYSTEM_ID,
        vec![
            listing(MACHINE_PORT, Some(PoeMode::Auto)),
            listing(MACHINE_PORT, Some(PoeMode::Auto)),
        ],
    );
    assert_eq!(calls.len(), 2);
    assert!(calls.iter().all(|c| c.method == Method::Get));
    let power_status = match result {
        Ok(Outcome::Status(s)) => s,
        other => panic!("{:?}", other),
    };
    assert_eq!(power_status.status, "running");
}

#[test]
fn router_should_power_on() {
    let (calls, result) = run(
        &fleet(),
        Operation::PowerOn,
        MAAS_SYSTEM_ID,
        vec![listing(MACHINE_PORT, Some(PoeMode::Auto)), Event::Answered(200)],
    );
    assert!(matches!(result, Ok(Outcome::PoweredOn)));
    assert_eq!(calls.len(), 2);
    assert_eq!(calls[0].kind, CallKind::ListDevices);
    assert_eq!(calls[0].path, "/api/s/default/stat/device");
    assert_eq!(calls[1].kind, CallKind::PortOverride);
    assert_eq!(calls[1].method, Method::Post);
    assert_eq!(calls[1].path, "/api/s/default/rest/device/system-id");
    assert_eq!(
        calls[1].body.as_deref(),
        Some(r#"{"port_overrides":[{"port_idx":1,"poe_mode":"auto"}]}"#)
    );
}

#[test]
fn stopped_port_reports_stopped() {
    let (_, result) = run(
        &fleet(),
        Operation::PowerStatus,
        MAAS_SYSTEM_ID,
        vec![
            listing(MACHINE_PORT, Some(PoeMode::Off)),
            listing(MACHINE_PORT, Some(PoeMode::Off)),
        ],
    );
    match result {
        Ok(Outcome::Status(s)) => assert_eq!(s.status, "stopped"),
        other => panic!("{:?}", other),
    }
}

#[test]
fn listing_timeout_is_a_device_list_error() {
    let (calls, result) = run(
        &fleet(),
        Operation::PowerStatus,
        MAAS_SYSTEM_ID,
        vec![Event::CallFailed("operation timed out".to_owned())],
    );
    assert_eq!(calls.len(), 1);
    match result {
        Err(UnifiError::DeviceListError(detail)) => assert_eq!(detail, "operation timed out"),
        other => panic!("{:?}", other),
    }
}

#[test]
fn listing_error_status_is_a_device_list_error() {
    let (_, result) = run(
        &fleet(),
        Operation::PowerStatus,
        MAAS_SYSTEM_ID,
        vec![Event::DevicesListed(401, Err("not json".to_owned()))],
    );
    match result {
        Err(UnifiError::DeviceListError(detail)) => assert_eq!(detail, "HTTP status 401"),
        other => panic!("{:?}", other),
    }
}

#[test]
fn undecodable_listing_is_a_device_list_error() {
    let (_, result) = run(
        &fleet(),
        Operation::PowerOn,
        MAAS_SYSTEM_ID,
        vec![Event::DevicesListed(200, Err("expected value".to_owned()))],
    );
    match result {
        Err(UnifiError::DeviceListError(detail)) => assert_eq!(detail, "expected value"),
        other => panic!("{:?}", other),
    }
}

#[test]
fn power_on_unknown_id_is_machine_not_found() {
    let (calls, result) = run(&fleet(), Operation::PowerOn, "unknown-id", vec![]);
    assert!(calls.is_empty());
    match result {
        Err(UnifiError::MachineNotFound(id)) => assert_eq!(id, "unknown-id"),
        other => panic!("{:?}", other),
    }
}

#[test]
fn power_status_unknown_id_is_machine_not_found() {
    let empty = Config {
        url: String::new(),
        devices: vec![],
    };
    let (calls, result) = run(&empty, Operation::PowerStatus, "unknown-id", vec![]);
    assert!(calls.is_empty());
    assert!(matches!(result, Err(UnifiError::MachineNotFound(_))));
}

#[test]
fn missing_port_is_port_id_incorrect() {
    let (_, result) = run(
        &fleet(),
        Operation::PowerStatus,
        MAAS_SYSTEM_ID,
        vec![listing(4, Some(PoeMode::Auto)), listing(4, Some(PoeMode::Auto))],
    );
    match result {
        Err(UnifiError::MachinePortIdIncorrect(p)) => assert_eq!(p, MACHINE_PORT),
        other => panic!("{:?}", other),
    }
}

#[test]
fn port_without_poe_mode_is_device_not_found() {
    let (_, result) = run(
        &fleet(),
        Operation::PowerStatus,
        MAAS_SYSTEM_ID,
        vec![listing(MACHINE_PORT, None), listing(MACHINE_PORT, None)],
    );
    match result {
        Err(UnifiError::DeviceNotFound(text)) => assert_eq!(text, ""),
        other => panic!("{:?}", other),
    }
}

#[test]
fn switch_missing_from_controller_is_device_not_found() {
    let elsewhere = Event::DevicesListed(
        200,
        Ok(UnifiResponse {
            meta: Meta { rc: "ok".to_owned() },
            data: vec![Device {
                mac: MacAddr::new([0x80, 0xfa, 0x5b, 0x41, 0x10, 0x6b]),
                device_id: DeviceId::new("x"),
                port_table: vec![],
            }],
        }),
    );
    let (calls, result) = run(&fleet(), Operation::PowerOn, MAAS_SYSTEM_ID, vec![elsewhere]);
    assert_eq!(calls.len(), 1);
    match result {
        Err(UnifiError::DeviceNotFound(text)) => assert_eq!(text, "00:00:00:00:00:00"),
        other => panic!("{:?}", other),
    }
}

#[test]
fn device_gone_by_second_listing_is_device_not_found() {
    let gone = Event::DevicesListed(
        200,
        Ok(UnifiResponse {
            meta: Meta { rc: "ok".to_owned() },
            data: vec![],
        }),
    );
    let (_, result) = run(
        &fleet(),
        Operation::PowerStatus,
        MAAS_SYSTEM_ID,
        vec![listing(MACHINE_PORT, Some(PoeMode::Auto)), gone],
    );
    match result {
        Err(UnifiError::DeviceNotFound(text)) => assert_eq!(text, MAAS_SYSTEM_ID),
        other => panic!("{:?}", other),
    }
}
