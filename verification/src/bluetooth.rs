//! Bluetooth: the devices known to the BlueZ service and the device menu of
//! the taskbar widget.
use vstd::prelude::*;

use crate::keyed::Keyed;

verus! {

/// A bluetooth device as the shell shows it.
#[derive(Clone, Debug)]
pub struct Device {
    pub address: String,
    pub name: Option<String>,
    pub is_connected: bool,
}

impl Default for Device {
    fn default() -> (r: Self)
        ensures
            r.address@ == Seq::<char>::empty(),
            r.name is None,
            !r.is_connected,
    {
        Device { address: String::new(), name: None, is_connected: false }
    }
}

impl Device {
    /// A copy of the device.
    pub fn duplicate(&self) -> (r: Device)
        ensures
            r == *self,
    {
        Device {
            address: self.address.clone(),
            name: match &self.name {
                Some(n) => Some(n.clone()),
                None => None,
            },
            is_connected: self.is_connected,
        }
    }
}

/// A message of a device menu entry.
#[derive(Clone, Copy, Debug, PartialEq, Eq, Structural)]
pub enum MenuInput {
    /// The entry's button was pressed.
    Connect,
    /// The device's connection state changed.
    Connected(bool),
}

/// What a device menu entry asks of the widget.
#[derive(Debug)]
pub enum MenuOutput {
    /// Connect (`true`) or disconnect (`false`) the device.
    Connect(Device, bool),
}

/// One entry of the bluetooth device menu.
#[derive(Debug)]
pub struct BluetoothDeviceMenu {
    pub device: Device,
}

impl BluetoothDeviceMenu {
    /// An entry for a device.
    pub fn init_model(device: Device) -> (r: BluetoothDeviceMenu)
        ensures
            r.device == device,
    {
        BluetoothDeviceMenu { device }
    }

    /// Handles a message: pressing the button asks to flip the connection,
    /// a connection report is recorded.
    pub fn update(&mut self, message: MenuInput) -> (r: Option<MenuOutput>)
        ensures
            match message {
                MenuInput::Connect => final(self).device == old(self).device && (r matches Some(
                    MenuOutput::Connect(d, connect),
                ) && d == old(self).device && connect == !old(self).device.is_connected),
                MenuInput::Connected(c) => r is None && final(self).device == Device {
                    is_connected: c,
                    ..old(self).device
                },
            },
    {
        match message {
            MenuInput::Connect => Some(MenuOutput::Connect(self.device.duplicate(), !self.device.is_connected)),
            MenuInput::Connected(c) => {
                self.device.is_connected = c;
                None
            },
        }
    }

    /// The entry's label: the device name, or `unknown`.
    pub fn label(&self) -> (r: String)
        ensures
            r@ == (match self.device.name {
                Some(n) => n@,
                None => "unknown"@,
            }),
    {
        proof {
            reveal_strlit("unknown");
        }
        match &self.device.name {
            Some(n) => n.clone(),
            None => "unknown".to_owned(),
        }
    }

    /// Whether the entry shows the connected icon.
    pub fn shows_connected(&self) -> (r: bool)
        ensures
            r == self.device.is_connected,
    {
        self.device.is_connected
    }
}

/// The map built by inserting the given devices in order under the given
/// addresses; a later device replaces an earlier one with the same address.
pub open spec fn devices_map(devices: Seq<(String, Device)>) -> Map<Seq<char>, Device>
    decreases devices.len(),
{
    if devices.len() == 0 {
        Map::empty()
    } else {
        devices_map(devices.drop_last()).insert(devices.last().0@, devices.last().1)
    }
}

/// Requests of the widget to the BlueZ service.
#[derive(Debug)]
pub enum ServiceInput {
    Connect(String, bool),
}

/// The bluetooth widget's menu: one entry per device address.
pub struct DeviceMenus {
    entries: Keyed<BluetoothDeviceMenu>,
}

impl View for DeviceMenus {
    type V = Map<Seq<char>, Device>;

    closed spec fn view(&self) -> Map<Seq<char>, Device> {
        self.entries.as_map().map_values(|m: BluetoothDeviceMenu| m.device)
    }
}

proof fn lemma_map_values_insert(m: Map<Seq<char>, BluetoothDeviceMenu>, k: Seq<char>, v: BluetoothDeviceMenu)
    ensures
        m.insert(k, v).map_values(|m: BluetoothDeviceMenu| m.device) == m.map_values(
            |m: BluetoothDeviceMenu| m.device,
        ).insert(k, v.device),
{
    assert(m.insert(k, v).map_values(|m: BluetoothDeviceMenu| m.device) =~= m.map_values(
        |m: BluetoothDeviceMenu| m.device,
    ).insert(k, v.device));
}

impl DeviceMenus {
    pub closed spec fn wf(self) -> bool {
        self.entries.wf()
    }

    /// An empty menu.
    pub fn new() -> (r: DeviceMenus)
        ensures
            r.wf(),
            r@ == Map::<Seq<char>, Device>::empty(),
    {
        let r = DeviceMenus { entries: Keyed::new() };
        assert(r@ =~= Map::<Seq<char>, Device>::empty());
        r
    }

    /// Replaces the whole menu with entries for the given devices.
    pub fn set_devices(&mut self, devices: Vec<(String, Device)>)
        ensures
            final(self).wf(),
            final(self)@ == devices_map(devices@),
    {
        self.entries.clear();
        let ghost all = devices@;
        assert(self@ =~= Map::<Seq<char>, Device>::empty());
        for pair in iter: devices.into_iter()
            invariant
                self.wf(),
                iter.seq() == all,
                self@ == devices_map(all.take(iter.index() as int)),
        {
            let ghost k = iter.index() as int;
            let (address, device) = pair;
            let ghost key = address@;
            let ghost dev = device;
            let ghost old_map = self.entries.as_map();
            self.entries.insert(address, BluetoothDeviceMenu { device });
            proof {
                lemma_map_values_insert(old_map, key, BluetoothDeviceMenu { device: dev });
                assert(all.take(k + 1).drop_last() =~= all.take(k));
            }
        }
        assert(all.take(all.len() as int) =~= all);
    }

    /// Records a connection change reported for the device at `address`;
    /// an unknown address changes nothing.
    pub fn set_connected(&mut self, address: &str, connected: bool)
        requires
            old(self).wf(),
        ensures
            final(self).wf(),
            final(self)@ == (if old(self)@.dom().contains(address@) {
                old(self)@.insert(address@, Device { is_connected: connected, ..old(self)@[address@] })
            } else {
                old(self)@
            }),
    {
        match self.entries.find(address) {
            Some(i) => {
                proof {
                    self.entries.lemma_entry(i as int);
                }
                let mut device = self.entries.entry(i).1.device.duplicate();
                device.is_connected = connected;
                let ghost old_map = self.entries.as_map();
                let ghost dev = device;
                let _ = self.entries.replace_at(i, BluetoothDeviceMenu { device });
                proof {
                    lemma_map_values_insert(old_map, address@, BluetoothDeviceMenu { device: dev });
                }
            },
            None => {},
        }
    }

    /// The device shown under an address.
    pub fn get(&self, address: &str) -> (r: Option<&BluetoothDeviceMenu>)
        requires
            self.wf(),
        ensures
            r is Some <==> self@.dom().contains(address@),
            r matches Some(m) ==> m.device == self@[address@],
    {
        self.entries.get(address)
    }

    /// The request a menu entry's button press becomes.
    pub fn connect_request(output: MenuOutput) -> (r: ServiceInput)
        ensures
            match output {
                MenuOutput::Connect(d, c) => r matches ServiceInput::Connect(a, c2) && a == d.address
                    && c2 == c,
            },
    {
        match output {
            MenuOutput::Connect(d, c) => ServiceInput::Connect(d.address, c),
        }
    }
}

/// Reports of the BlueZ service.
#[derive(Debug)]
pub enum ServiceOutput {
    /// The device at the address was connected (`true`) or disconnected.
    Connected(String, bool),
}

/// A property change of a device, as far as the service reads it.
#[derive(Clone, Copy, Debug, PartialEq, Eq, Structural)]
pub enum PropertyChange {
    Connected(bool),
    /// Any other property.
    Other,
}

/// The report a device's property change becomes: only a change of the
/// connection state is reported.
pub fn property_report(address: String, change: PropertyChange) -> (r: Option<ServiceOutput>)
    ensures
        match change {
            PropertyChange::Connected(c) => r == Some(ServiceOutput::Connected(address, c)),
            PropertyChange::Other => r is None,
        },
{
    match change {
        PropertyChange::Connected(c) => Some(ServiceOutput::Connected(address, c)),
        PropertyChange::Other => None,
    }
}

/// The report after a connect (`connect`) or disconnect request for the
/// device at `address`: the new state when the request succeeded, nothing
/// when it failed.
pub fn connect_report(address: String, connect: bool, succeeded: bool) -> (r: Option<ServiceOutput>)
    ensures
        succeeded ==> r == Some(ServiceOutput::Connected(address, connect)),
        !succeeded ==> r is None,
{
    if succeeded {
        Some(ServiceOutput::Connected(address, connect))
    } else {
        None
    }
}

/// A connection report changes only the reported device, and only its
/// connection state; a report for an unknown device changes nothing.
pub proof fn law_connection_report_is_local(m: Map<Seq<char>, Device>, address: Seq<char>, connected: bool, other: Seq<char>)
    requires
        other != address,
    ensures
        ({
            let after = if m.dom().contains(address) {
                m.insert(address, Device { is_connected: connected, ..m[address] })
            } else {
                m
            };
            &&& after.dom() == m.dom()
            &&& after.dom().contains(other) ==> after[other] == m[other]
            &&& m.dom().contains(address) ==> after[address].is_connected == connected
                && after[address].name == m[address].name
                && after[address].address == m[address].address
        }),
{
    if m.dom().contains(address) {
        assert(m.insert(address, Device { is_connected: connected, ..m[address] }).dom() =~= m.dom());
    }
}

} // verus!
