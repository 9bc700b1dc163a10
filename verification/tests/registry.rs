use wrtcli::commands::{add_device, find_device, format_uptime, list_devices, CommandError};
use wrtcli::config::ConfigManager;
use wrtcli::models::{Device, MemoryStatus};
use wrtcli::registry::Config;
use wrtcli::text::{catenate, decimal_string, same_text};

fn device(name: &str, ip: &str) -> Device {
    Device::new(name.to_string(), ip.to_string(), "root".to_string(), "secret".to_string())
}

#[test]
fn device_keeps_what_it_was_made_of() {
    let d = Device::new(
        "router1".to_string(),
        "10.0.0.1".to_string(),
        "root".to_string(),
        "secret".to_string(),
    );
    assert_eq!(d.name, "router1");
    assert_eq!(d.ip, "10.0.0.1");
    assert_eq!(d.user, "root");
    assert_eq!(d.password, "secret");
    let copy = d.clone();
    assert_eq!(copy.name, "router1");
    assert_eq!(copy.ip, "10.0.0.1");
    assert_eq!(copy.user, "root");
    assert_eq!(copy.password, "secret");
}

#[test]
fn device_urls() {
    let d = device("router1", "10.0.0.1");
    assert_eq!(d.ubus_url(), "http://10.0.0.1/ubus");
    assert_eq!(d.luci_url(), "http://10.0.0.1");
    let empty = device("x", "");
    assert_eq!(empty.ubus_url(), "http:///ubus");
    assert_eq!(empty.luci_url(), "http://");
}

#[test]
fn empty_registry_knows_no_device() {
    let config = Config::new();
    assert!(config.get_device("router1").is_none());
    assert!(config.devices().is_empty());
}

#[test]
fn registered_device_is_found_by_name() {
    let mut config = Config::new();
    config.add_device(device("router1", "10.0.0.1"));
    config.add_device(device("router2", "10.0.0.2"));
    assert_eq!(config.get_device("router1").unwrap().ip, "10.0.0.1");
    assert_eq!(config.get_device("router2").unwrap().ip, "10.0.0.2");
    assert!(config.get_device("router3").is_none());
    assert!(config.get_device("").is_none());
}

#[test]
fn registering_a_taken_name_replaces_the_device() {
    let mut config = Config::new();
    config.add_device(device("router1", "10.0.0.1"));
    config.add_device(device("router2", "10.0.0.2"));
    config.add_device(device("router1", "192.168.1.1"));
    assert_eq!(config.get_device("router1").unwrap().ip, "192.168.1.1");
    let all = config.devices();
    assert_eq!(all.len(), 2);
    assert_eq!(all[0].name, "router1");
    assert_eq!(all[0].ip, "192.168.1.1");
    assert_eq!(all[1].name, "router2");
}

#[test]
fn manager_registers_and_finds_devices() {
    let manager = ConfigManager::new();
    let mut config = manager.load_config(None);
    assert!(manager.get_device(&config, "router1").is_none());
    manager.add_device(&mut config, "router1", "10.0.0.1", "root", "secret");
    let found = manager.get_device(&config, "router1").unwrap();
    assert_eq!(found.name, "router1");
    assert_eq!(found.ip, "10.0.0.1");
    assert_eq!(found.user, "root");
    assert_eq!(found.password, "secret");
    manager.add_device(&mut config, "router2", "10.0.0.2", "admin", "pw");
    let all = manager.get_all_devices(&config);
    assert_eq!(all.len(), 2);
    assert_eq!(all[0].name, "router1");
    assert_eq!(all[1].name, "router2");
    assert_eq!(all[1].user, "admin");
    let again = manager.load_config(Some(config));
    assert_eq!(again.get_device("router2").unwrap().password, "pw");
}

#[test]
fn devices_are_listed_with_their_addresses() {
    let mut config = Config::new();
    assert_eq!(
        list_devices(&config),
        vec!["No devices registered. Use 'wrtcli add' to add a device.".to_string()]
    );
    config.add_device(device("router1", "10.0.0.1"));
    config.add_device(device("attic", "10.0.0.7"));
    assert_eq!(
        list_devices(&config),
        vec![
            "Registered OpenWrt devices:".to_string(),
            "---------------------------".to_string(),
            "\u{1F4F1} router1 (10.0.0.1)".to_string(),
            "\u{1F4F1} attic (10.0.0.7)".to_string(),
        ]
    );
}

#[test]
fn adding_a_device_registers_it_and_says_so() {
    let manager = ConfigManager::new();
    let mut config = Config::new();
    let message = add_device(&manager, &mut config, "router1", "10.0.0.1", "root", "secret");
    assert_eq!(message, "\u{2705} Device 'router1' added successfully");
    let found = config.get_device("router1").unwrap();
    assert_eq!(found.ip, "10.0.0.1");
    assert_eq!(found.user, "root");
    assert_eq!(found.password, "secret");
    add_device(&manager, &mut config, "router1", "10.0.0.9", "admin", "pw");
    assert_eq!(config.devices().len(), 1);
    assert_eq!(config.get_device("router1").unwrap().ip, "10.0.0.9");
}

#[test]
fn unknown_device_is_reported_by_name() {
    let mut config = Config::new();
    config.add_device(device("router1", "10.0.0.1"));
    assert_eq!(find_device(&config, "router1").unwrap().ip, "10.0.0.1");
    match find_device(&config, "cellar") {
        Err(e) => {
            assert!(matches!(&e, CommandError::DeviceNotFound { name } if name == "cellar"));
            assert_eq!(e.message(), "Device 'cellar' not found");
        }
        Ok(_) => panic!("no device is registered as cellar"),
    }
}

#[test]
fn memory_status_is_plain_data() {
    let m = MemoryStatus { total: 128000, free: 64000, buffered: 10, cached: 20 };
    let copy = m;
    assert_eq!(m, copy);
    assert_eq!(copy.total, 128000);
    assert_eq!(copy.free, 64000);
    assert_eq!(copy.buffered, 10);
    assert_eq!(copy.cached, 20);
}

#[test]
fn numbers_in_decimal() {
    assert_eq!(decimal_string(0), "0");
    assert_eq!(decimal_string(7), "7");
    assert_eq!(decimal_string(9), "9");
    assert_eq!(decimal_string(10), "10");
    assert_eq!(decimal_string(1234567890), "1234567890");
    assert_eq!(decimal_string(u64::MAX), "18446744073709551615");
}

#[test]
fn text_helpers() {
    assert_eq!(catenate("abc", "def"), "abcdef");
    assert_eq!(catenate("", ""), "");
    assert!(same_text("router", "router"));
    assert!(!same_text("router", "Router"));
    assert!(!same_text("router", "router1"));
    assert!(same_text("", ""));
}

#[test]
fn uptime_names_only_what_is_not_zero() {
    assert_eq!(format_uptime(0), "0 seconds");
    assert_eq!(format_uptime(1), "1 seconds");
    assert_eq!(format_uptime(59), "59 seconds");
    assert_eq!(format_uptime(60), "1 minutes");
    assert_eq!(format_uptime(61), "1 minutes, 1 seconds");
    assert_eq!(format_uptime(3600), "1 hours");
    assert_eq!(format_uptime(3661), "1 hours, 1 minutes, 1 seconds");
    assert_eq!(format_uptime(86400), "1 days");
    assert_eq!(format_uptime(86401), "1 days, 1 seconds");
    assert_eq!(format_uptime(90061), "1 days, 1 hours, 1 minutes, 1 seconds");
    assert_eq!(format_uptime(172800 + 7200), "2 days, 2 hours");
    assert_eq!(
        format_uptime(u64::MAX),
        "213503982334601 days, 7 hours, 15 seconds"
    );
}
