use maas_power_unifi::config::{Config, Device, Machine};
use maas_power_unifi::models::MacAddr;

const MAAS_ID: &str = "maas_id";
const PORT_ID: usize = 2;
const UNIFI_DEVICE_MAC: &str = "AA:BB:CC:DD:EE:FF";

fn example_config() -> Config {
    Config {
        url: "https://localhost:8443".to_owned(),
        devices: vec![
            Device {
                mac: MacAddr::parse("11:22:33:44:55:66").unwrap(),
                machines: vec![Machine {
                    maas_id: "other".to_owned(),
                    port_id: 7,
                }],
            },
            Device {
                mac: MacAddr::parse(UNIFI_DEVICE_MAC).unwrap(),
                machines: vec![Machine {
                    maas_id: MAAS_ID.to_owned(),
                    port_id: PORT_ID,
                }],
            },
        ],
    }
}

#[test]
fn should_return_mac_addr_of_unifi_device() {
    let config = example_config();
    assert!(config.owning_device_mac(MAAS_ID).is_some());
    assert_eq!(
        config.owning_device_mac(MAAS_ID).unwrap().to_string(),
        UNIFI_DEVICE_MAC
    );
}

#[test]
fn should_get_machine_matching_id() {
    let expected_machine = Machine {
        maas_id: MAAS_ID.to_owned(),
        port_id: PORT_ID,
    };
    let config = example_config();
    assert!(config.machine(MAAS_ID).is_some());
    assert_eq!(config.machine(MAAS_ID).unwrap(), expected_machine);
}

#[test]
fn unknown_machine_resolves_to_nothing() {
    let config = example_config();
    assert!(config.owning_device_mac("unknown-id").is_none());
    assert!(config.machine("unknown-id").is_none());
}

#[test]
fn machine_of_a_shared_switch_is_its_first_entry() {
    let config = Config {
        url: String::new(),
        devices: vec![Device {
            mac: MacAddr::new([1, 2, 3, 4, 5, 6]),
            machines: vec![
                Machine {
                    maas_id: "first".to_owned(),
                    port_id: 3,
                },
                Machine {
                    maas_id: "second".to_owned(),
                    port_id: 4,
                },
            ],
        }],
    };
    let m = config.machine("second").unwrap();
    assert_eq!(m.maas_id, "first");
    assert_eq!(m.port_id, 3);
    assert_eq!(
        config.owning_device_mac("second").unwrap().bytes,
        [1, 2, 3, 4, 5, 6]
    );
}

#[test]
fn first_switch_listing_an_id_wins() {
    let config = Config {
        url: String::new(),
        devices: vec![
            Device {
                mac: MacAddr::new([9, 9, 9, 9, 9, 9]),
                machines: vec![],
            },
            Device {
                mac: MacAddr::new([1, 1, 1, 1, 1, 1]),
                machines: vec![Machine {
                    maas_id: "dup".to_owned(),
                    port_id: 1,
                }],
            },
            Device {
                mac: MacAddr::new([2, 2, 2, 2, 2, 2]),
                machines: vec![Machine {
                    maas_id: "dup".to_owned(),
                    port_id: 2,
                }],
            },
        ],
    };
    assert_eq!(config.owning_device_mac("dup").unwrap().bytes, [1; 6]);
    assert_eq!(config.machine("dup").unwrap().port_id, 1);
}
