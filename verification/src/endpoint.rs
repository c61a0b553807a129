use vstd::prelude::*;
use crate::channel::DeviceType;

verus! {

/// How a nearby device was found and how it can be reached.
#[derive(Clone, Copy, Debug, PartialEq, Eq, Structural)]
pub enum EndpointTransport {
    Mdns,
    BleDiscovery,
    WifiDirectPeer,
}

/// A nearby device that can receive files, or the notice that it left.
#[derive(Clone, Debug)]
pub struct EndpointInfo {
    pub fullname: String,
    pub id: String,
    pub name: Option<String>,
    pub ip: Option<String>,
    pub port: Option<String>,
    pub rtype: Option<DeviceType>,
    /// `Some(false)` announces that the device is gone.
    pub present: Option<bool>,
    pub transport: Option<EndpointTransport>,
    pub wifi_direct_peer_path: Option<String>,
    pub wifi_direct_peer_mac: Option<String>,
}

fn dup_opt(o: &Option<String>) -> (r: Option<String>)
    ensures
        r == *o,
{
    match o {
        Some(s) => Some(s.clone()),
        None => None,
    }
}

impl EndpointInfo {
    /// A field-by-field copy.
    pub fn duplicate(&self) -> (r: EndpointInfo)
        ensures
            r == *self,
    {
        EndpointInfo {
            fullname: self.fullname.clone(),
            id: self.id.clone(),
            name: dup_opt(&self.name),
            ip: dup_opt(&self.ip),
            port: dup_opt(&self.port),
            rtype: self.rtype,
            present: self.present,
            transport: self.transport,
            wifi_direct_peer_path: dup_opt(&self.wifi_direct_peer_path),
            wifi_direct_peer_mac: dup_opt(&self.wifi_direct_peer_mac),
        }
    }

    /// The notice that the device with this id has gone: every field but
    /// the id empty, and `present` false.
    pub open spec fn is_absent_notice(self, id: Seq<char>) -> bool {
        &&& self.id@ == id
        &&& self.fullname@.len() == 0
        &&& self.name is None
        &&& self.ip is None
        &&& self.port is None
        &&& self.rtype is None
        &&& self.present == Some(false)
        &&& self.transport is None
        &&& self.wifi_direct_peer_path is None
        &&& self.wifi_direct_peer_mac is None
    }

    /// The notice that the device with this id has gone.
    pub fn absent(id: String) -> (r: EndpointInfo)
        ensures
            r.is_absent_notice(id@),
            r.id == id,
    {
        EndpointInfo {
            fullname: String::new(),
            id,
            name: None,
            ip: None,
            port: None,
            rtype: None,
            present: Some(false),
            transport: None,
            wifi_direct_peer_path: None,
            wifi_direct_peer_mac: None,
        }
    }
}

/// The endpoint that BLE discovery reports for a device: found over BLE,
/// present, with its name and type, and no address to connect to.
pub fn build_endpoint(ep_id: String, display_name: String, device_type: DeviceType) -> (e: EndpointInfo)
    ensures
        e == (EndpointInfo {
            fullname: ep_id,
            id: ep_id,
            name: Some(display_name),
            ip: None,
            port: None,
            rtype: Some(device_type),
            present: Some(true),
            transport: Some(EndpointTransport::BleDiscovery),
            wifi_direct_peer_path: None,
            wifi_direct_peer_mac: None,
        }),
{
    EndpointInfo {
        fullname: ep_id.clone(),
        id: ep_id,
        name: Some(display_name),
        ip: None,
        port: None,
        rtype: Some(device_type),
        present: Some(true),
        transport: Some(EndpointTransport::BleDiscovery),
        wifi_direct_peer_path: None,
        wifi_direct_peer_mac: None,
    }
}

/// Icon of a device tile: phone and tablet icons for those types, a
/// computer for any other.
pub fn device_icon_name(endpoint: &EndpointInfo) -> (icon: &'static str)
    ensures
        icon@ == (match endpoint.rtype {
            Some(DeviceType::Phone) => "phone-symbolic"@,
            Some(DeviceType::Tablet) => "tablet-symbolic"@,
            _ => "computer-symbolic"@,
        }),
{
    match &endpoint.rtype {
        Some(DeviceType::Phone) => "phone-symbolic",
        Some(DeviceType::Tablet) => "tablet-symbolic",
        _ => "computer-symbolic",
    }
}

/// The name shown on a device tile: the device's name, or its id.
pub fn device_display_name(endpoint: &EndpointInfo) -> (name: String)
    ensures
        name@ == (match endpoint.name {
            Some(n) => n@,
            None => endpoint.id@,
        }),
{
    match &endpoint.name {
        Some(n) => n.clone(),
        None => endpoint.id.clone(),
    }
}

/// Whether a device tile can be clicked: a Wi-Fi Direct peer always, any
/// other device only with both an address and a port.
pub fn endpoint_interactive(endpoint: &EndpointInfo) -> (b: bool)
    ensures
        b == (match endpoint.transport {
            Some(EndpointTransport::WifiDirectPeer) => true,
            _ => endpoint.ip is Some && endpoint.port is Some,
        }),
{
    match endpoint.transport {
        Some(EndpointTransport::WifiDirectPeer) => true,
        _ => endpoint.ip.is_some() && endpoint.port.is_some(),
    }
}

/// How a tile shows the way to reach the device: the label to translate,
/// the icon, and the style class.
pub fn transport_visual(endpoint: &EndpointInfo) -> (v: (&'static str, &'static str, &'static str))
    ensures
        endpoint.transport == Some(EndpointTransport::WifiDirectPeer) ==> v.0@ == "Wi-Fi Direct"@
            && v.1@ == "io.github.weversonl.GnomeQuickShare-airdrop-symbolic"@ && v.2@
            == "transport-wifi-direct"@,
        endpoint.transport != Some(EndpointTransport::WifiDirectPeer) ==> v.0@ == "Wi-Fi"@ && v.1@
            == "network-wireless-symbolic"@ && v.2@ == "transport-wifi"@,
{
    match endpoint.transport {
        Some(EndpointTransport::WifiDirectPeer) => (
            "Wi-Fi Direct",
            "io.github.weversonl.GnomeQuickShare-airdrop-symbolic",
            "transport-wifi-direct",
        ),
        _ => ("Wi-Fi", "network-wireless-symbolic", "transport-wifi"),
    }
}

} // verus!
