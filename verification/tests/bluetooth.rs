use azalea_shell::bluetooth::{
    connect_report, property_report, BluetoothDeviceMenu, Device, DeviceMenus, MenuInput, MenuOutput, PropertyChange,
    ServiceInput, ServiceOutput,
};

fn device(address: &str, name: Option<&str>, connected: bool) -> Device {
    Device { address: address.to_string(), name: name.map(|n| n.to_string()), is_connected: connected }
}

#[test]
fn menu_entry_flips_connection() {
    let mut entry = BluetoothDeviceMenu::init_model(device("AA", Some("Headset"), false));
    assert_eq!(entry.label(), "Headset");
    match entry.update(MenuInput::Connect) {
        Some(MenuOutput::Connect(d, connect)) => {
            assert_eq!(d.address, "AA");
            assert!(connect);
        }
        None => panic!("expected a request"),
    }
    assert!(entry.update(MenuInput::Connected(true)).is_none());
    assert!(entry.shows_connected());
    match entry.update(MenuInput::Connect) {
        Some(MenuOutput::Connect(_, connect)) => assert!(!connect),
        None => panic!("expected a request"),
    }
    let unnamed = BluetoothDeviceMenu::init_model(Device::default());
    assert_eq!(unnamed.label(), "unknown");
    assert_eq!(unnamed.device.address, "");
}

#[test]
fn device_menus_follow_reports() {
    let mut menus = DeviceMenus::new();
    menus.set_devices(vec![
        ("AA".to_string(), device("AA", Some("A"), false)),
        ("BB".to_string(), device("BB", None, true)),
    ]);
    assert!(!menus.get("AA").unwrap().device.is_connected);
    menus.set_connected("AA", true);
    assert!(menus.get("AA").unwrap().device.is_connected);
    assert!(menus.get("BB").unwrap().device.is_connected);
    menus.set_connected("CC", true);
    assert!(menus.get("CC").is_none());
    menus.set_devices(vec![("CC".to_string(), device("CC", None, false))]);
    assert!(menus.get("AA").is_none());
    assert!(menus.get("CC").is_some());
    let req = DeviceMenus::connect_request(MenuOutput::Connect(device("CC", None, false), true));
    assert!(matches!(req, ServiceInput::Connect(ref a, true) if a == "CC"));
}

#[test]
fn later_device_with_same_address_wins() {
    let mut menus = DeviceMenus::new();
    menus.set_devices(vec![
        ("AA".to_string(), device("AA", Some("old"), false)),
        ("AA".to_string(), device("AA", Some("new"), true)),
    ]);
    assert_eq!(menus.get("AA").unwrap().label(), "new");
}

#[test]
fn service_reports() {
    assert!(matches!(property_report("AA".to_string(), PropertyChange::Connected(true)), Some(ServiceOutput::Connected(ref a, true)) if a == "AA"));
    assert!(property_report("AA".to_string(), PropertyChange::Other).is_none());
    assert!(matches!(connect_report("BB".to_string(), false, true), Some(ServiceOutput::Connected(ref a, false)) if a == "BB"));
    assert!(connect_report("BB".to_string(), true, false).is_none());
}
