use azalea_shell::network::{
    activation_arguments, device_label, network_icon, Connection, ConnectionInput, Input, Model,
    NMConnectivityState, NMDeviceState, NMDeviceType, NMState, ServiceInput, ServiceOutput, WifiIcon,
};

#[test]
fn state_codes_round_trip() {
    for code in 0u32..200 {
        if let Some(s) = NMState::from_code(code) {
            assert_eq!(s.code(), code);
        }
        if let Some(s) = NMConnectivityState::from_code(code) {
            assert_eq!(s.code(), code);
        }
        if let Some(s) = NMDeviceState::from_code(code) {
            assert_eq!(s.code(), code);
        }
        if let Some(s) = NMDeviceType::from_code(code) {
            assert_eq!(s.code(), code);
        }
    }
    assert_eq!(NMState::from_code(70), Some(NMState::NMStateConnectedGlobal));
    assert_eq!(NMState::from_code(71), None);
    assert_eq!(NMConnectivityState::from_code(0), None);
    assert_eq!(NMDeviceType::from_code(14), Some(NMDeviceType::NMDeviceTypeGeneric));
    assert_eq!(NMDeviceState::NMDeviceStateFailed.code(), 120);
}

#[test]
fn defaults_are_unknown() {
    assert_eq!(NMState::default(), NMState::NMStateUnknown);
    assert_eq!(NMConnectivityState::default().code(), 1);
    assert_eq!(NMDeviceState::default().code(), 0);
    assert_eq!(NMDeviceType::default(), NMDeviceType::NMDeviceTypeUnknown);
}

#[test]
fn icons() {
    assert_eq!(network_icon(NMState::NMStateUnknown, NMConnectivityState::NMConnectivityFull), WifiIcon::QuestionMark);
    assert_eq!(network_icon(NMState::NMStateAsleep, NMConnectivityState::NMConnectivityFull), WifiIcon::Sleep);
    assert_eq!(network_icon(NMState::NMStateDisconnected, NMConnectivityState::NMConnectivityNone), WifiIcon::X);
    assert_eq!(network_icon(NMState::NMStateConnecting, NMConnectivityState::NMConnectivityNone), WifiIcon::Dots);
    assert_eq!(network_icon(NMState::NMStateConnectedSite, NMConnectivityState::NMConnectivityFull), WifiIcon::NoSignal);
    assert_eq!(network_icon(NMState::NMStateConnectedGlobal, NMConnectivityState::NMConnectivityFull), WifiIcon::Full);
    assert_eq!(network_icon(NMState::NMStateConnectedGlobal, NMConnectivityState::NMConnectivityLimited), WifiIcon::Limited);
    assert_eq!(network_icon(NMState::NMStateConnectedGlobal, NMConnectivityState::NMConnectivityPortal), WifiIcon::Weak);
}

#[test]
fn widget_updates() {
    let (mut m, first) = Model::new();
    assert!(matches!(first, ServiceInput::Update));
    assert!(m.enabled);
    assert_eq!(m.icon(), WifiIcon::QuestionMark);
    assert!(matches!(m.update(Input::Enable(false)), Some(ServiceInput::Enable(false))));
    assert!(m.enabled);
    assert!(m.update(Input::NetworkManager(ServiceOutput::NetworkingEnabledChanged(false))).is_none());
    assert!(!m.enabled);
    m.update(Input::NetworkManager(ServiceOutput::StateChanged(NMState::NMStateConnectedGlobal)));
    m.update(Input::NetworkManager(ServiceOutput::ConnectivityChanged(NMConnectivityState::NMConnectivityLimited)));
    assert_eq!(m.icon(), WifiIcon::Limited);
    m.update(Input::NetworkManager(ServiceOutput::Devices(vec!["/d/1".to_string(), "/d/2".to_string()])));
    assert_eq!(m.devices, vec!["/d/1".to_string(), "/d/2".to_string()]);
}

#[test]
fn activation_defaults_to_root_path() {
    let (c, d, o) = activation_arguments(Some("/c".to_string()), None, None);
    assert_eq!((c.as_str(), d.as_str(), o.as_str()), ("/c", "/", "/"));
    let (c, d, o) = activation_arguments(None, Some("/d".to_string()), Some("/o".to_string()));
    assert_eq!((c.as_str(), d.as_str(), o.as_str()), ("/", "/d", "/o"));
}

#[test]
fn connection_entries() {
    let c = Connection::init_model("/s/1".to_string(), None, Some("\"Home Wifi\"".to_string()));
    assert_eq!(c.name, "Home Wifi");
    assert!(!c.is_active());
    match c.update(ConnectionInput::Toggle) {
        Some(ServiceInput::ActivateConnection { connection, device, specific_object }) => {
            assert_eq!(connection.as_deref(), Some("/s/1"));
            assert!(device.is_none() && specific_object.is_none());
        }
        other => panic!("unexpected {other:?}"),
    }
    assert!(c.update(ConnectionInput::Disconnect).is_none());
    let c = Connection::init_model("/s/2".to_string(), Some("/a/7".to_string()), None);
    assert_eq!(c.name, "unknown");
    match c.update(ConnectionInput::Toggle) {
        Some(ServiceInput::DeactivateConnection { active_connection }) => assert_eq!(active_connection, "/a/7"),
        other => panic!("unexpected {other:?}"),
    }
    assert!(matches!(c.update(ConnectionInput::Connect), Some(ServiceInput::ActivateConnection { .. })));
}

#[test]
fn device_labels() {
    assert_eq!(device_label(Some("wlan0".to_string())), "wlan0");
    assert_eq!(device_label(None), "unknown");
}
