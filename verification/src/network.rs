//! NetworkManager: its state enumerations with their D-Bus numbers, the
//! taskbar network widget, and the saved-connection menu entries.
use vstd::prelude::*;

use crate::text::{chars_of, remove_char, remove_char_spec, string_of};

verus! {

/// NMState values indicate the current overall networking state.
#[derive(Clone, Copy, Debug, PartialEq, Eq, Structural)]
pub enum NMState {
    /// Networking state is unknown
    NMStateUnknown,
    /// Networking is not enabled
    NMStateAsleep,
    /// There is no active network connection
    NMStateDisconnected,
    /// Network connections are being cleaned up
    NMStateDisconnecting,
    /// A network connection is being started
    NMStateConnecting,
    /// There is only local IPv4 and/or IPv6 connectivity
    NMStateConnectedLocal,
    /// There is only site-wide IPv4 and/or IPv6 connectivity
    NMStateConnectedSite,
    /// There is global IPv4 and/or IPv6 Internet connectivity
    NMStateConnectedGlobal,
}

/// The number NetworkManager uses for each NMState value.
pub open spec fn state_code(s: NMState) -> u32 {
    match s {
        NMState::NMStateUnknown => 0,
        NMState::NMStateAsleep => 10,
        NMState::NMStateDisconnected => 20,
        NMState::NMStateDisconnecting => 30,
        NMState::NMStateConnecting => 40,
        NMState::NMStateConnectedLocal => 50,
        NMState::NMStateConnectedSite => 60,
        NMState::NMStateConnectedGlobal => 70,
    }
}

/// The NMState value NetworkManager means by a number, if any.
pub open spec fn state_from_code(c: u32) -> Option<NMState> {
    if c == 0 {
        Some(NMState::NMStateUnknown)
    } else if c == 10 {
        Some(NMState::NMStateAsleep)
    } else if c == 20 {
        Some(NMState::NMStateDisconnected)
    } else if c == 30 {
        Some(NMState::NMStateDisconnecting)
    } else if c == 40 {
        Some(NMState::NMStateConnecting)
    } else if c == 50 {
        Some(NMState::NMStateConnectedLocal)
    } else if c == 60 {
        Some(NMState::NMStateConnectedSite)
    } else if c == 70 {
        Some(NMState::NMStateConnectedGlobal)
    } else {
        None
    }
}

impl NMState {
    /// The number NetworkManager uses for this value.
    pub fn code(&self) -> (r: u32)
        ensures
            r == state_code(*self),
    {
        match self {
            NMState::NMStateUnknown => 0,
            NMState::NMStateAsleep => 10,
            NMState::NMStateDisconnected => 20,
            NMState::NMStateDisconnecting => 30,
            NMState::NMStateConnecting => 40,
            NMState::NMStateConnectedLocal => 50,
            NMState::NMStateConnectedSite => 60,
            NMState::NMStateConnectedGlobal => 70,
        }
    }

    /// The value NetworkManager means by a number, or `None` for an unknown number.
    pub fn from_code(c: u32) -> (r: Option<NMState>)
        ensures
            r == state_from_code(c),
    {
        if c == 0 {
            Some(NMState::NMStateUnknown)
        } else if c == 10 {
            Some(NMState::NMStateAsleep)
        } else if c == 20 {
            Some(NMState::NMStateDisconnected)
        } else if c == 30 {
            Some(NMState::NMStateDisconnecting)
        } else if c == 40 {
            Some(NMState::NMStateConnecting)
        } else if c == 50 {
            Some(NMState::NMStateConnectedLocal)
        } else if c == 60 {
            Some(NMState::NMStateConnectedSite)
        } else if c == 70 {
            Some(NMState::NMStateConnectedGlobal)
        } else {
            None
        }
    }
}

impl Default for NMState {
    fn default() -> (r: Self)
        ensures
            r == NMState::NMStateUnknown,
    {
        NMState::NMStateUnknown
    }
}

/// The numbers of the networking states are NetworkManager's `NMState` values.
pub proof fn law_state_codes()
    ensures
        state_code(NMState::NMStateUnknown) == 0,
        state_from_code(0) == Some(NMState::NMStateUnknown),
        state_code(NMState::NMStateAsleep) == 10,
        state_from_code(10) == Some(NMState::NMStateAsleep),
        state_code(NMState::NMStateDisconnected) == 20,
        state_from_code(20) == Some(NMState::NMStateDisconnected),
        state_code(NMState::NMStateDisconnecting) == 30,
        state_from_code(30) == Some(NMState::NMStateDisconnecting),
        state_code(NMState::NMStateConnecting) == 40,
        state_from_code(40) == Some(NMState::NMStateConnecting),
        state_code(NMState::NMStateConnectedLocal) == 50,
        state_from_code(50) == Some(NMState::NMStateConnectedLocal),
        state_code(NMState::NMStateConnectedSite) == 60,
        state_from_code(60) == Some(NMState::NMStateConnectedSite),
        state_code(NMState::NMStateConnectedGlobal) == 70,
        state_from_code(70) == Some(NMState::NMStateConnectedGlobal),
{
}

/// Decoding a value's number gives the value back, and a number decodes only
/// to the value that has it.
pub proof fn law_state_code_round_trip(s: NMState, c: u32)
    ensures
        state_from_code(state_code(s)) == Some(s),
        state_from_code(c) matches Some(t) ==> state_code(t) == c,
{
}

/// NMConnectivityState values indicate the connectivity state.
#[derive(Clone, Copy, Debug, PartialEq, Eq, Structural)]
pub enum NMConnectivityState {
    /// Network connectivity is unknown.
    NMConnectivityUnknown,
    /// The host is not connected to any network.
    NMConnectivityNone,
    /// The host is behind a captive portal and cannot reach the full Internet.
    NMConnectivityPortal,
    /// The host is connected to a network, but does not appear to be able to reach the full Internet.
    NMConnectivityLimited,
    /// The host is connected to a network, and appears to be able to reach the full Internet.
    NMConnectivityFull,
}

/// The number NetworkManager uses for each NMConnectivityState value.
pub open spec fn connectivity_code(s: NMConnectivityState) -> u32 {
    match s {
        NMConnectivityState::NMConnectivityUnknown => 1,
        NMConnectivityState::NMConnectivityNone => 2,
        NMConnectivityState::NMConnectivityPortal => 3,
        NMConnectivityState::NMConnectivityLimited => 4,
        NMConnectivityState::NMConnectivityFull => 5,
    }
}

/// The NMConnectivityState value NetworkManager means by a number, if any.
pub open spec fn connectivity_from_code(c: u32) -> Option<NMConnectivityState> {
    if c == 1 {
        Some(NMConnectivityState::NMConnectivityUnknown)
    } else if c == 2 {
        Some(NMConnectivityState::NMConnectivityNone)
    } else if c == 3 {
        Some(NMConnectivityState::NMConnectivityPortal)
    } else if c == 4 {
        Some(NMConnectivityState::NMConnectivityLimited)
    } else if c == 5 {
        Some(NMConnectivityState::NMConnectivityFull)
    } else {
        None
    }
}

impl NMConnectivityState {
    /// The number NetworkManager uses for this value.
    pub fn code(&self) -> (r: u32)
        ensures
            r == connectivity_code(*self),
    {
        match self {
            NMConnectivityState::NMConnectivityUnknown => 1,
            NMConnectivityState::NMConnectivityNone => 2,
            NMConnectivityState::NMConnectivityPortal => 3,
            NMConnectivityState::NMConnectivityLimited => 4,
            NMConnectivityState::NMConnectivityFull => 5,
        }
    }

    /// The value NetworkManager means by a number, or `None` for an unknown number.
    pub fn from_code(c: u32) -> (r: Option<NMConnectivityState>)
        ensures
            r == connectivity_from_code(c),
    {
        if c == 1 {
            Some(NMConnectivityState::NMConnectivityUnknown)
        } else if c == 2 {
            Some(NMConnectivityState::NMConnectivityNone)
        } else if c == 3 {
            Some(NMConnectivityState::NMConnectivityPortal)
        } else if c == 4 {
            Some(NMConnectivityState::NMConnectivityLimited)
        } else if c == 5 {
            Some(NMConnectivityState::NMConnectivityFull)
        } else {
            None
        }
    }
}

impl Default for NMConnectivityState {
    fn default() -> (r: Self)
        ensures
            r == NMConnectivityState::NMConnectivityUnknown,
    {
        NMConnectivityState::NMConnectivityUnknown
    }
}

/// The numbers of the connectivity states are NetworkManager's `NMConnectivityState` values.
pub proof fn law_connectivity_codes()
    ensures
        connectivity_code(NMConnectivityState::NMConnectivityUnknown) == 1,
        connectivity_from_code(1) == Some(NMConnectivityState::NMConnectivityUnknown),
        connectivity_code(NMConnectivityState::NMConnectivityNone) == 2,
        connectivity_from_code(2) == Some(NMConnectivityState::NMConnectivityNone),
        connectivity_code(NMConnectivityState::NMConnectivityPortal) == 3,
        connectivity_from_code(3) == Some(NMConnectivityState::NMConnectivityPortal),
        connectivity_code(NMConnectivityState::NMConnectivityLimited) == 4,
        connectivity_from_code(4) == Some(NMConnectivityState::NMConnectivityLimited),
        connectivity_code(NMConnectivityState::NMConnectivityFull) == 5,
        connectivity_from_code(5) == Some(NMConnectivityState::NMConnectivityFull),
{
}

/// Decoding a value's number gives the value back, and a number decodes only
/// to the value that has it.
pub proof fn law_connectivity_code_round_trip(s: NMConnectivityState, c: u32)
    ensures
        connectivity_from_code(connectivity_code(s)) == Some(s),
        connectivity_from_code(c) matches Some(t) ==> connectivity_code(t) == c,
{
}

/// NMDeviceState values indicate the device state.
#[derive(Clone, Copy, Debug, PartialEq, Eq, Structural)]
pub enum NMDeviceState {
    /// The device's state is unknown
    NMDeviceStateUnknown,
    /// The device is recognized, but not managed by networkmanager
    NMDeviceStateUnmanaged,
    /// The device is managed by networkmanager, but is not available for use
    NMDeviceStateUnavailable,
    /// The device can be activated, but is currently idle and not connected to a network.
    NMDeviceStateDisconnected,
    /// The device is preparing the connection to the network.
    NMDeviceStatePrepare,
    /// The device is connecting to the requested network.
    NMDeviceStateConfig,
    /// The device requires more information to continue connecting to the requested network.
    NMDeviceStateNeedAuth,
    /// The device is requesting ipv4 and/or ipv6 addresses and routing information from the network.
    NMDeviceStateIpConfig,
    /// The device is checking whether further action is required for the requested network connection.
    NMDeviceStateIpCheck,
    /// The device is waiting for a secondary connection (like a vpn) which must activated before the device can be activated
    NMDeviceStateSecondaries,
    /// The device has a network connection, either local or global.
    NMDeviceStateActivated,
    /// A disconnection from the current network connection was requested, and the device is cleaning up resources used for that connection.
    NMDeviceStateDeactivating,
    /// The device failed to connect to the requested network and is cleaning up the connection request
    NMDeviceStateFailed,
}

/// The number NetworkManager uses for each NMDeviceState value.
pub open spec fn device_state_code(s: NMDeviceState) -> u32 {
    match s {
        NMDeviceState::NMDeviceStateUnknown => 0,
        NMDeviceState::NMDeviceStateUnmanaged => 10,
        NMDeviceState::NMDeviceStateUnavailable => 20,
        NMDeviceState::NMDeviceStateDisconnected => 30,
        NMDeviceState::NMDeviceStatePrepare => 40,
        NMDeviceState::NMDeviceStateConfig => 50,
        NMDeviceState::NMDeviceStateNeedAuth => 60,
        NMDeviceState::NMDeviceStateIpConfig => 70,
        NMDeviceState::NMDeviceStateIpCheck => 80,
        NMDeviceState::NMDeviceStateSecondaries => 90,
        NMDeviceState::NMDeviceStateActivated => 100,
        NMDeviceState::NMDeviceStateDeactivating => 110,
        NMDeviceState::NMDeviceStateFailed => 120,
    }
}

/// The NMDeviceState value NetworkManager means by a number, if any.
pub open spec fn device_state_from_code(c: u32) -> Option<NMDeviceState> {
    if c == 0 {
        Some(NMDeviceState::NMDeviceStateUnknown)
    } else if c == 10 {
        Some(NMDeviceState::NMDeviceStateUnmanaged)
    } else if c == 20 {
        Some(NMDeviceState::NMDeviceStateUnavailable)
    } else if c == 30 {
        Some(NMDeviceState::NMDeviceStateDisconnected)
    } else if c == 40 {
        Some(NMDeviceState::NMDeviceStatePrepare)
    } else if c == 50 {
        Some(NMDeviceState::NMDeviceStateConfig)
    } else if c == 60 {
        Some(NMDeviceState::NMDeviceStateNeedAuth)
    } else if c == 70 {
        Some(NMDeviceState::NMDeviceStateIpConfig)
    } else if c == 80 {
        Some(NMDeviceState::NMDeviceStateIpCheck)
    } else if c == 90 {
        Some(NMDeviceState::NMDeviceStateSecondaries)
    } else if c == 100 {
        Some(NMDeviceState::NMDeviceStateActivated)
    } else if c == 110 {
        Some(NMDeviceState::NMDeviceStateDeactivating)
    } else if c == 120 {
        Some(NMDeviceState::NMDeviceStateFailed)
    } else {
        None
    }
}

impl NMDeviceState {
    /// The number NetworkManager uses for this value.
    pub fn code(&self) -> (r: u32)
        ensures
            r == device_state_code(*self),
    {
        match self {
            NMDeviceState::NMDeviceStateUnknown => 0,
            NMDeviceState::NMDeviceStateUnmanaged => 10,
            NMDeviceState::NMDeviceStateUnavailable => 20,
            NMDeviceState::NMDeviceStateDisconnected => 30,
            NMDeviceState::NMDeviceStatePrepare => 40,
            NMDeviceState::NMDeviceStateConfig => 50,
            NMDeviceState::NMDeviceStateNeedAuth => 60,
            NMDeviceState::NMDeviceStateIpConfig => 70,
            NMDeviceState::NMDeviceStateIpCheck => 80,
            NMDeviceState::NMDeviceStateSecondaries => 90,
            NMDeviceState::NMDeviceStateActivated => 100,
            NMDeviceState::NMDeviceStateDeactivating => 110,
            NMDeviceState::NMDeviceStateFailed => 120,
        }
    }

    /// The value NetworkManager means by a number, or `None` for an unknown number.
    pub fn from_code(c: u32) -> (r: Option<NMDeviceState>)
        ensures
            r == device_state_from_code(c),
    {
        if c == 0 {
            Some(NMDeviceState::NMDeviceStateUnknown)
        } else if c == 10 {
            Some(NMDeviceState::NMDeviceStateUnmanaged)
        } else if c == 20 {
            Some(NMDeviceState::NMDeviceStateUnavailable)
        } else if c == 30 {
            Some(NMDeviceState::NMDeviceStateDisconnected)
        } else if c == 40 {
            Some(NMDeviceState::NMDeviceStatePrepare)
        } else if c == 50 {
            Some(NMDeviceState::NMDeviceStateConfig)
        } else if c == 60 {
            Some(NMDeviceState::NMDeviceStateNeedAuth)
        } else if c == 70 {
            Some(NMDeviceState::NMDeviceStateIpConfig)
        } else if c == 80 {
            Some(NMDeviceState::NMDeviceStateIpCheck)
        } else if c == 90 {
            Some(NMDeviceState::NMDeviceStateSecondaries)
        } else if c == 100 {
            Some(NMDeviceState::NMDeviceStateActivated)
        } else if c == 110 {
            Some(NMDeviceState::NMDeviceStateDeactivating)
        } else if c == 120 {
            Some(NMDeviceState::NMDeviceStateFailed)
        } else {
            None
        }
    }
}

impl Default for NMDeviceState {
    fn default() -> (r: Self)
        ensures
            r == NMDeviceState::NMDeviceStateUnknown,
    {
        NMDeviceState::NMDeviceStateUnknown
    }
}

/// The numbers of the device states are NetworkManager's `NMDeviceState` values.
pub proof fn law_device_state_codes()
    ensures
        device_state_code(NMDeviceState::NMDeviceStateUnknown) == 0,
        device_state_from_code(0) == Some(NMDeviceState::NMDeviceStateUnknown),
        device_state_code(NMDeviceState::NMDeviceStateUnmanaged) == 10,
        device_state_from_code(10) == Some(NMDeviceState::NMDeviceStateUnmanaged),
        device_state_code(NMDeviceState::NMDeviceStateUnavailable) == 20,
        device_state_from_code(20) == Some(NMDeviceState::NMDeviceStateUnavailable),
        device_state_code(NMDeviceState::NMDeviceStateDisconnected) == 30,
        device_state_from_code(30) == Some(NMDeviceState::NMDeviceStateDisconnected),
        device_state_code(NMDeviceState::NMDeviceStatePrepare) == 40,
        device_state_from_code(40) == Some(NMDeviceState::NMDeviceStatePrepare),
        device_state_code(NMDeviceState::NMDeviceStateConfig) == 50,
        device_state_from_code(50) == Some(NMDeviceState::NMDeviceStateConfig),
        device_state_code(NMDeviceState::NMDeviceStateNeedAuth) == 60,
        device_state_from_code(60) == Some(NMDeviceState::NMDeviceStateNeedAuth),
        device_state_code(NMDeviceState::NMDeviceStateIpConfig) == 70,
        device_state_from_code(70) == Some(NMDeviceState::NMDeviceStateIpConfig),
        device_state_code(NMDeviceState::NMDeviceStateIpCheck) == 80,
        device_state_from_code(80) == Some(NMDeviceState::NMDeviceStateIpCheck),
        device_state_code(NMDeviceState::NMDeviceStateSecondaries) == 90,
        device_state_from_code(90) == Some(NMDeviceState::NMDeviceStateSecondaries),
        device_state_code(NMDeviceState::NMDeviceStateActivated) == 100,
        device_state_from_code(100) == Some(NMDeviceState::NMDeviceStateActivated),
        device_state_code(NMDeviceState::NMDeviceStateDeactivating) == 110,
        device_state_from_code(110) == Some(NMDeviceState::NMDeviceStateDeactivating),
        device_state_code(NMDeviceState::NMDeviceStateFailed) == 120,
        device_state_from_code(120) == Some(NMDeviceState::NMDeviceStateFailed),
{
}

/// Decoding a value's number gives the value back, and a number decodes only
/// to the value that has it.
pub proof fn law_device_state_code_round_trip(s: NMDeviceState, c: u32)
    ensures
        device_state_from_code(device_state_code(s)) == Some(s),
        device_state_from_code(c) matches Some(t) ==> device_state_code(t) == c,
{
}

/// NMDeviceType indicates the type of device, e.g.: wifi, ethernet, bluetooth, etc.
#[derive(Clone, Copy, Debug, PartialEq, Eq, Structural)]
pub enum NMDeviceType {
    NMDeviceTypeUnknown,
    NMDeviceTypeGeneric,
    NMDeviceTypeEthernet,
    NMDeviceTypeWifi,
    NMDeviceTypeUnused1,
    NMDeviceTypeUnused2,
    NMDeviceTypeBt,
    NMDeviceTypeOlpcMesh,
    NMDeviceTypeWimax,
    NMDeviceTypeModem,
    NMDeviceTypeInfiniband,
    NMDeviceTypeBond,
    NMDeviceTypeVlan,
    NMDeviceTypeAdsl,
    NMDeviceTypeBridge,
    NMDeviceTypeTeam,
    NMDeviceTypeTun,
    NMDeviceTypeIpTunnel,
    NMDeviceTypeMacvlan,
    NMDeviceTypeVxlan,
    NMDeviceTypeVeth,
}

/// The number NetworkManager uses for each NMDeviceType value.
pub open spec fn device_type_code(s: NMDeviceType) -> u32 {
    match s {
        NMDeviceType::NMDeviceTypeUnknown => 0,
        NMDeviceType::NMDeviceTypeGeneric => 14,
        NMDeviceType::NMDeviceTypeEthernet => 1,
        NMDeviceType::NMDeviceTypeWifi => 2,
        NMDeviceType::NMDeviceTypeUnused1 => 3,
        NMDeviceType::NMDeviceTypeUnused2 => 4,
        NMDeviceType::NMDeviceTypeBt => 5,
        NMDeviceType::NMDeviceTypeOlpcMesh => 6,
        NMDeviceType::NMDeviceTypeWimax => 7,
        NMDeviceType::NMDeviceTypeModem => 8,
        NMDeviceType::NMDeviceTypeInfiniband => 9,
        NMDeviceType::NMDeviceTypeBond => 10,
        NMDeviceType::NMDeviceTypeVlan => 11,
        NMDeviceType::NMDeviceTypeAdsl => 12,
        NMDeviceType::NMDeviceTypeBridge => 13,
        NMDeviceType::NMDeviceTypeTeam => 15,
        NMDeviceType::NMDeviceTypeTun => 16,
        NMDeviceType::NMDeviceTypeIpTunnel => 17,
        NMDeviceType::NMDeviceTypeMacvlan => 18,
        NMDeviceType::NMDeviceTypeVxlan => 19,
        NMDeviceType::NMDeviceTypeVeth => 20,
    }
}

/// The NMDeviceType value NetworkManager means by a number, if any.
pub open spec fn device_type_from_code(c: u32) -> Option<NMDeviceType> {
    if c == 0 {
        Some(NMDeviceType::NMDeviceTypeUnknown)
    } else if c == 14 {
        Some(NMDeviceType::NMDeviceTypeGeneric)
    } else if c == 1 {
        Some(NMDeviceType::NMDeviceTypeEthernet)
    } else if c == 2 {
        Some(NMDeviceType::NMDeviceTypeWifi)
    } else if c == 3 {
        Some(NMDeviceType::NMDeviceTypeUnused1)
    } else if c == 4 {
        Some(NMDeviceType::NMDeviceTypeUnused2)
    } else if c == 5 {
        Some(NMDeviceType::NMDeviceTypeBt)
    } else if c == 6 {
        Some(NMDeviceType::NMDeviceTypeOlpcMesh)
    } else if c == 7 {
        Some(NMDeviceType::NMDeviceTypeWimax)
    } else if c == 8 {
        Some(NMDeviceType::NMDeviceTypeModem)
    } else if c == 9 {
        Some(NMDeviceType::NMDeviceTypeInfiniband)
    } else if c == 10 {
        Some(NMDeviceType::NMDeviceTypeBond)
    } else if c == 11 {
        Some(NMDeviceType::NMDeviceTypeVlan)
    } else if c == 12 {
        Some(NMDeviceType::NMDeviceTypeAdsl)
    } else if c == 13 {
        Some(NMDeviceType::NMDeviceTypeBridge)
    } else if c == 15 {
        Some(NMDeviceType::NMDeviceTypeTeam)
    } else if c == 16 {
        Some(NMDeviceType::NMDeviceTypeTun)
    } else if c == 17 {
        Some(NMDeviceType::NMDeviceTypeIpTunnel)
    } else if c == 18 {
        Some(NMDeviceType::NMDeviceTypeMacvlan)
    } else if c == 19 {
        Some(NMDeviceType::NMDeviceTypeVxlan)
    } else if c == 20 {
        Some(NMDeviceType::NMDeviceTypeVeth)
    } else {
        None
    }
}

impl NMDeviceType {
    /// The number NetworkManager uses for this value.
    pub fn code(&self) -> (r: u32)
        ensures
            r == device_type_code(*self),
    {
        match self {
            NMDeviceType::NMDeviceTypeUnknown => 0,
            NMDeviceType::NMDeviceTypeGeneric => 14,
            NMDeviceType::NMDeviceTypeEthernet => 1,
            NMDeviceType::NMDeviceTypeWifi => 2,
            NMDeviceType::NMDeviceTypeUnused1 => 3,
            NMDeviceType::NMDeviceTypeUnused2 => 4,
            NMDeviceType::NMDeviceTypeBt => 5,
            NMDeviceType::NMDeviceTypeOlpcMesh => 6,
            NMDeviceType::NMDeviceTypeWimax => 7,
            NMDeviceType::NMDeviceTypeModem => 8,
            NMDeviceType::NMDeviceTypeInfiniband => 9,
            NMDeviceType::NMDeviceTypeBond => 10,
            NMDeviceType::NMDeviceTypeVlan => 11,
            NMDeviceType::NMDeviceTypeAdsl => 12,
            NMDeviceType::NMDeviceTypeBridge => 13,
            NMDeviceType::NMDeviceTypeTeam => 15,
            NMDeviceType::NMDeviceTypeTun => 16,
            NMDeviceType::NMDeviceTypeIpTunnel => 17,
            NMDeviceType::NMDeviceTypeMacvlan => 18,
            NMDeviceType::NMDeviceTypeVxlan => 19,
            NMDeviceType::NMDeviceTypeVeth => 20,
        }
    }

    /// The value NetworkManager means by a number, or `None` for an unknown number.
    pub fn from_code(c: u32) -> (r: Option<NMDeviceType>)
        ensures
            r == device_type_from_code(c),
    {
        if c == 0 {
            Some(NMDeviceType::NMDeviceTypeUnknown)
        } else if c == 14 {
            Some(NMDeviceType::NMDeviceTypeGeneric)
        } else if c == 1 {
            Some(NMDeviceType::NMDeviceTypeEthernet)
        } else if c == 2 {
            Some(NMDeviceType::NMDeviceTypeWifi)
        } else if c == 3 {
            Some(NMDeviceType::NMDeviceTypeUnused1)
        } else if c == 4 {
            Some(NMDeviceType::NMDeviceTypeUnused2)
        } else if c == 5 {
            Some(NMDeviceType::NMDeviceTypeBt)
        } else if c == 6 {
            Some(NMDeviceType::NMDeviceTypeOlpcMesh)
        } else if c == 7 {
            Some(NMDeviceType::NMDeviceTypeWimax)
        } else if c == 8 {
            Some(NMDeviceType::NMDeviceTypeModem)
        } else if c == 9 {
            Some(NMDeviceType::NMDeviceTypeInfiniband)
        } else if c == 10 {
            Some(NMDeviceType::NMDeviceTypeBond)
        } else if c == 11 {
            Some(NMDeviceType::NMDeviceTypeVlan)
        } else if c == 12 {
            Some(NMDeviceType::NMDeviceTypeAdsl)
        } else if c == 13 {
            Some(NMDeviceType::NMDeviceTypeBridge)
        } else if c == 15 {
            Some(NMDeviceType::NMDeviceTypeTeam)
        } else if c == 16 {
            Some(NMDeviceType::NMDeviceTypeTun)
        } else if c == 17 {
            Some(NMDeviceType::NMDeviceTypeIpTunnel)
        } else if c == 18 {
            Some(NMDeviceType::NMDeviceTypeMacvlan)
        } else if c == 19 {
            Some(NMDeviceType::NMDeviceTypeVxlan)
        } else if c == 20 {
            Some(NMDeviceType::NMDeviceTypeVeth)
        } else {
            None
        }
    }
}

impl Default for NMDeviceType {
    fn default() -> (r: Self)
        ensures
            r == NMDeviceType::NMDeviceTypeUnknown,
    {
        NMDeviceType::NMDeviceTypeUnknown
    }
}

/// The numbers of the device types are NetworkManager's `NMDeviceType` values.
pub proof fn law_device_type_codes()
    ensures
        device_type_code(NMDeviceType::NMDeviceTypeUnknown) == 0,
        device_type_from_code(0) == Some(NMDeviceType::NMDeviceTypeUnknown),
        device_type_code(NMDeviceType::NMDeviceTypeGeneric) == 14,
        device_type_from_code(14) == Some(NMDeviceType::NMDeviceTypeGeneric),
        device_type_code(NMDeviceType::NMDeviceTypeEthernet) == 1,
        device_type_from_code(1) == Some(NMDeviceType::NMDeviceTypeEthernet),
        device_type_code(NMDeviceType::NMDeviceTypeWifi) == 2,
        device_type_from_code(2) == Some(NMDeviceType::NMDeviceTypeWifi),
        device_type_code(NMDeviceType::NMDeviceTypeUnused1) == 3,
        device_type_from_code(3) == Some(NMDeviceType::NMDeviceTypeUnused1),
        device_type_code(NMDeviceType::NMDeviceTypeUnused2) == 4,
        device_type_from_code(4) == Some(NMDeviceType::NMDeviceTypeUnused2),
        device_type_code(NMDeviceType::NMDeviceTypeBt) == 5,
        device_type_from_code(5) == Some(NMDeviceType::NMDeviceTypeBt),
        device_type_code(NMDeviceType::NMDeviceTypeOlpcMesh) == 6,
        device_type_from_code(6) == Some(NMDeviceType::NMDeviceTypeOlpcMesh),
        device_type_code(NMDeviceType::NMDeviceTypeWimax) == 7,
        device_type_from_code(7) == Some(NMDeviceType::NMDeviceTypeWimax),
        device_type_code(NMDeviceType::NMDeviceTypeModem) == 8,
        device_type_from_code(8) == Some(NMDeviceType::NMDeviceTypeModem),
        device_type_code(NMDeviceType::NMDeviceTypeInfiniband) == 9,
        device_type_from_code(9) == Some(NMDeviceType::NMDeviceTypeInfiniband),
        device_type_code(NMDeviceType::NMDeviceTypeBond) == 10,
        device_type_from_code(10) == Some(NMDeviceType::NMDeviceTypeBond),
        device_type_code(NMDeviceType::NMDeviceTypeVlan) == 11,
        device_type_from_code(11) == Some(NMDeviceType::NMDeviceTypeVlan),
        device_type_code(NMDeviceType::NMDeviceTypeAdsl) == 12,
        device_type_from_code(12) == Some(NMDeviceType::NMDeviceTypeAdsl),
        device_type_code(NMDeviceType::NMDeviceTypeBridge) == 13,
        device_type_from_code(13) == Some(NMDeviceType::NMDeviceTypeBridge),
        device_type_code(NMDeviceType::NMDeviceTypeTeam) == 15,
        device_type_from_code(15) == Some(NMDeviceType::NMDeviceTypeTeam),
        device_type_code(NMDeviceType::NMDeviceTypeTun) == 16,
        device_type_from_code(16) == Some(NMDeviceType::NMDeviceTypeTun),
        device_type_code(NMDeviceType::NMDeviceTypeIpTunnel) == 17,
        device_type_from_code(17) == Some(NMDeviceType::NMDeviceTypeIpTunnel),
        device_type_code(NMDeviceType::NMDeviceTypeMacvlan) == 18,
        device_type_from_code(18) == Some(NMDeviceType::NMDeviceTypeMacvlan),
        device_type_code(NMDeviceType::NMDeviceTypeVxlan) == 19,
        device_type_from_code(19) == Some(NMDeviceType::NMDeviceTypeVxlan),
        device_type_code(NMDeviceType::NMDeviceTypeVeth) == 20,
        device_type_from_code(20) == Some(NMDeviceType::NMDeviceTypeVeth),
{
}

/// Decoding a value's number gives the value back, and a number decodes only
/// to the value that has it.
pub proof fn law_device_type_code_round_trip(s: NMDeviceType, c: u32)
    ensures
        device_type_from_code(device_type_code(s)) == Some(s),
        device_type_from_code(c) matches Some(t) ==> device_type_code(t) == c,
{
}

/// The icons the network widget shows.
#[derive(Clone, Copy, Debug, PartialEq, Eq, Structural)]
pub enum WifiIcon {
    QuestionMark,
    Sleep,
    X,
    Dots,
    NoSignal,
    Full,
    Limited,
    Weak,
}

/// The icon for a networking state and connectivity.
pub open spec fn icon_for(state: NMState, connectivity: NMConnectivityState) -> WifiIcon {
    match state {
        NMState::NMStateUnknown => WifiIcon::QuestionMark,
        NMState::NMStateAsleep => WifiIcon::Sleep,
        NMState::NMStateDisconnected => WifiIcon::X,
        NMState::NMStateDisconnecting => WifiIcon::Dots,
        NMState::NMStateConnecting => WifiIcon::Dots,
        NMState::NMStateConnectedLocal => WifiIcon::NoSignal,
        NMState::NMStateConnectedSite => WifiIcon::NoSignal,
        NMState::NMStateConnectedGlobal => match connectivity {
            NMConnectivityState::NMConnectivityFull => WifiIcon::Full,
            NMConnectivityState::NMConnectivityLimited => WifiIcon::Limited,
            _ => WifiIcon::Weak,
        },
    }
}

/// Picks the widget's icon.
pub fn network_icon(state: NMState, connectivity: NMConnectivityState) -> (r: WifiIcon)
    ensures
        r == icon_for(state, connectivity),
{
    match state {
        NMState::NMStateUnknown => WifiIcon::QuestionMark,
        NMState::NMStateAsleep => WifiIcon::Sleep,
        NMState::NMStateDisconnected => WifiIcon::X,
        NMState::NMStateDisconnecting => WifiIcon::Dots,
        NMState::NMStateConnecting => WifiIcon::Dots,
        NMState::NMStateConnectedLocal => WifiIcon::NoSignal,
        NMState::NMStateConnectedSite => WifiIcon::NoSignal,
        NMState::NMStateConnectedGlobal => match connectivity {
            NMConnectivityState::NMConnectivityFull => WifiIcon::Full,
            NMConnectivityState::NMConnectivityLimited => WifiIcon::Limited,
            _ => WifiIcon::Weak,
        },
    }
}

/// The widget's icon: the full-signal icon only for global connectivity
/// that is full; below global connectivity the icon follows the state alone
/// (question mark when unknown, sleep when asleep, a cross when disconnected,
/// dots while connecting or disconnecting, no signal with only local or
/// site-wide connectivity); globally connected, limited connectivity shows the
/// limited icon and any other connectivity the weak icon.
pub proof fn law_icon_for_state(s: NMState, c: NMConnectivityState)
    ensures
        icon_for(s, c) == WifiIcon::Full <==> (s == NMState::NMStateConnectedGlobal && c
            == NMConnectivityState::NMConnectivityFull),
        icon_for(NMState::NMStateUnknown, c) == WifiIcon::QuestionMark,
        icon_for(NMState::NMStateAsleep, c) == WifiIcon::Sleep,
        icon_for(NMState::NMStateDisconnected, c) == WifiIcon::X,
        icon_for(NMState::NMStateDisconnecting, c) == WifiIcon::Dots,
        icon_for(NMState::NMStateConnecting, c) == WifiIcon::Dots,
        icon_for(NMState::NMStateConnectedLocal, c) == WifiIcon::NoSignal,
        icon_for(NMState::NMStateConnectedSite, c) == WifiIcon::NoSignal,
        icon_for(NMState::NMStateConnectedGlobal, NMConnectivityState::NMConnectivityLimited)
            == WifiIcon::Limited,
        c != NMConnectivityState::NMConnectivityFull && c != NMConnectivityState::NMConnectivityLimited
            ==> icon_for(NMState::NMStateConnectedGlobal, c) == WifiIcon::Weak,
        s != NMState::NMStateConnectedGlobal ==> forall|d: NMConnectivityState|
            #[trigger] icon_for(s, d) == icon_for(s, c),
{
}

/// Requests to the NetworkManager service.
#[derive(Debug)]
pub enum ServiceInput {
    GetDevices,
    Update,
    Enable(bool),
    ActivateConnection {
        connection: Option<String>,
        device: Option<String>,
        specific_object: Option<String>,
    },
    DeactivateConnection { active_connection: String },
}

/// Reports of the NetworkManager service; object paths are given as strings.
#[derive(Debug)]
pub enum ServiceOutput {
    Devices(Vec<String>),
    NetworkingEnabledChanged(bool),
    StateChanged(NMState),
    ConnectivityChanged(NMConnectivityState),
}

/// The object path NetworkManager reads as "none given".
pub open spec fn root_path() -> Seq<char> {
    seq!['/']
}

/// The arguments of `ActivateConnection`: a missing connection, device or
/// specific object is passed as the root path `/`.
pub fn activation_arguments(
    connection: Option<String>,
    device: Option<String>,
    specific_object: Option<String>,
) -> (r: (String, String, String))
    ensures
        r.0@ == (match connection {
            Some(c) => c@,
            None => root_path(),
        }),
        r.1@ == (match device {
            Some(d) => d@,
            None => root_path(),
        }),
        r.2@ == (match specific_object {
            Some(o) => o@,
            None => root_path(),
        }),
{
    proof {
        reveal_strlit("/");
    }
    let c = match connection {
        Some(c) => c,
        None => "/".to_owned(),
    };
    let d = match device {
        Some(d) => d,
        None => "/".to_owned(),
    };
    let o = match specific_object {
        Some(o) => o,
        None => "/".to_owned(),
    };
    (c, d, o)
}

/// A message of the network widget.
#[derive(Debug)]
pub enum Input {
    Enable(bool),
    NetworkManager(ServiceOutput),
}

/// The network widget's model.
pub struct Model {
    pub enabled: bool,
    pub state: NMState,
    pub connectivity: NMConnectivityState,
    /// The object paths of the devices listed in the menu.
    pub devices: Vec<String>,
}

impl Model {
    /// A widget that assumes networking is on and knows nothing else yet,
    /// together with the request it sends at start.
    pub fn new() -> (r: (Model, ServiceInput))
        ensures
            r.0.enabled,
            r.0.state == NMState::NMStateUnknown,
            r.0.connectivity == NMConnectivityState::NMConnectivityUnknown,
            r.0.devices@.len() == 0,
            r.1 is Update,
    {
        (
            Model {
                enabled: true,
                state: NMState::NMStateUnknown,
                connectivity: NMConnectivityState::NMConnectivityUnknown,
                devices: Vec::new(),
            },
            ServiceInput::Update,
        )
    }

    /// The icon the widget shows.
    pub fn icon(&self) -> (r: WifiIcon)
        ensures
            r == icon_for(self.state, self.connectivity),
    {
        network_icon(self.state, self.connectivity)
    }

    /// Handles one message; a switch toggle becomes a request to the service.
    pub fn update(&mut self, input: Input) -> (r: Option<ServiceInput>)
        ensures
            match input {
                Input::Enable(on) => r == Some(ServiceInput::Enable(on)) && *final(self) == *old(self),
                Input::NetworkManager(out) => r is None && match out {
                    ServiceOutput::NetworkingEnabledChanged(on) => *final(self) == Model {
                        enabled: on,
                        ..*old(self)
                    },
                    ServiceOutput::StateChanged(s) => *final(self) == Model { state: s, ..*old(self) },
                    ServiceOutput::ConnectivityChanged(c) => *final(self) == Model {
                        connectivity: c,
                        ..*old(self)
                    },
                    ServiceOutput::Devices(d) => final(self).devices@ == d@ && final(self).enabled
                        == old(self).enabled && final(self).state == old(self).state
                        && final(self).connectivity == old(self).connectivity,
                },
            },
    {
        match input {
            Input::Enable(on) => Some(ServiceInput::Enable(on)),
            Input::NetworkManager(out) => {
                match out {
                    ServiceOutput::NetworkingEnabledChanged(on) => self.enabled = on,
                    ServiceOutput::StateChanged(s) => self.state = s,
                    ServiceOutput::ConnectivityChanged(c) => self.connectivity = c,
                    ServiceOutput::Devices(d) => self.devices = d,
                }
                None
            },
        }
    }
}

/// The label of a saved connection: its `connection.id` setting as printed by
/// D-Bus (with the quotes removed), or `unknown`.
pub open spec fn connection_label(printed_id: Option<Seq<char>>) -> Seq<char> {
    match printed_id {
        Some(p) => remove_char_spec(p, '"'),
        None => "unknown"@,
    }
}

/// A message of a saved-connection menu entry.
#[derive(Clone, Copy, Debug, PartialEq, Eq, Structural)]
pub enum ConnectionInput {
    Toggle,
    Connect,
    Disconnect,
}

/// A saved-connection menu entry.
pub struct Connection {
    /// Object path of the connection's settings.
    pub settings: String,
    pub name: String,
    /// Object path of the active connection, when it is active.
    pub active_connection: Option<String>,
}

impl Connection {
    /// An entry for the settings at `settings`; `printed_id` is the printed
    /// `connection.id` setting, when it could be read.
    pub fn init_model(settings: String, active_connection: Option<String>, printed_id: Option<String>) -> (r: Connection)
        ensures
            r.settings == settings,
            r.active_connection == active_connection,
            r.name@ == connection_label(match printed_id {
                Some(p) => Some(p@),
                None => None,
            }),
    {
        proof {
            reveal_strlit("unknown");
        }
        let name = match printed_id {
            Some(p) => string_of(&remove_char(&chars_of(p.as_str()), '"')),
            None => "unknown".to_owned(),
        };
        Connection { settings, name, active_connection }
    }

    /// Whether the entry shows the connected icon.
    pub fn is_active(&self) -> (r: bool)
        ensures
            r == self.active_connection is Some,
    {
        self.active_connection.is_some()
    }

    /// The request an entry sends for a message: toggling disconnects an
    /// active connection and connects an inactive one.
    pub fn update(&self, input: ConnectionInput) -> (r: Option<ServiceInput>)
        ensures
            ({
                let disconnect = input == ConnectionInput::Disconnect || (input == ConnectionInput::Toggle
                    && self.active_connection is Some);
                if disconnect {
                    match self.active_connection {
                        Some(a) => r matches Some(ServiceInput::DeactivateConnection {
                            active_connection,
                        }) && active_connection@ == a@,
                        None => r is None,
                    }
                } else {
                    r matches Some(ServiceInput::ActivateConnection {
                        connection,
                        device,
                        specific_object,
                    }) && connection matches Some(c) && c@ == self.settings@ && device is None
                        && specific_object is None
                }
            }),
    {
        let disconnect = match input {
            ConnectionInput::Disconnect => true,
            ConnectionInput::Connect => false,
            ConnectionInput::Toggle => self.active_connection.is_some(),
        };
        if disconnect {
            match &self.active_connection {
                Some(a) => Some(ServiceInput::DeactivateConnection { active_connection: a.clone() }),
                None => None,
            }
        } else {
            Some(
                ServiceInput::ActivateConnection {
                    connection: Some(self.settings.clone()),
                    device: None,
                    specific_object: None,
                },
            )
        }
    }
}

/// The label of a network device: its interface name, or `unknown`.
pub fn device_label(interface: Option<String>) -> (r: String)
    ensures
        r@ == (match interface {
            Some(i) => i@,
            None => "unknown"@,
        }),
{
    proof {
        reveal_strlit("unknown");
    }
    match interface {
        Some(i) => i,
        None => "unknown".to_owned(),
    }
}

} // verus!
