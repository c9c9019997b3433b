//! The discovery bridge: what the daemon announces on the local network, and
//! what the appearance and disappearance of peers does to the registry.
//!
//! Entries that discovery makes stand in the same registry as paired devices:
//! a device seen on the network and a device that was paired are not told
//! apart.

use vstd::prelude::*;
use vstd::string::{StrSliceExecFns, StringExecFns};
use crate::device::{DeviceId, DeviceInfo, DeviceInfoView, DeviceType, PluginType};
use crate::message::{MDNS_SERVICE_TYPE, PROTOCOL_VERSION};
use crate::registry::DeviceRegistry;
use crate::text::{decimal, decimal_string, lowercase_of, str_eq, to_lowercase};

verus! {

/// The address that the service is announced with.
pub const ADVERTISED_ADDRESS: &'static str = "192.168.1.6";

/// A text with every space replaced by a hyphen.
pub open spec fn dashed(text: Seq<char>) -> Seq<char> {
    Seq::new(
        text.len(),
        |i: int|
            if text[i] == ' ' {
                '-'
            } else {
                text[i]
            },
    )
}

/// The name under which a machine is announced: its host name with hyphens
/// for spaces, in lower case, in the `local` domain.
pub open spec fn announced_host(host: Seq<char>) -> Seq<char> {
    lowercase_of(dashed(host)) + ".local."@
}

/// Replaces every space of a text by a hyphen.
pub fn replace_spaces(text: &str) -> (replaced: String)
    ensures
        replaced@ == dashed(text@),
{
    proof {
        reveal_strlit("-");
    }
    let mut replaced = String::new();
    let length: usize = text.unicode_len();
    let mut i: usize = 0;
    while i < length
        invariant
            i <= length,
            length == text@.len(),
            replaced@ == dashed(text@).subrange(0, i as int),
            "-"@ == seq!['-'],
        decreases length - i,
    {
        if text.get_char(i) == ' ' {
            replaced.append("-");
        } else {
            replaced.append(text.substring_char(i, i + 1));
        }
        i = i + 1;
        assert(replaced@ =~= dashed(text@).subrange(0, i as int));
    }
    assert(dashed(text@).subrange(0, i as int) =~= dashed(text@));
    replaced
}

/// Puts a name into the `local` domain.
pub fn in_local_domain(name: String) -> (full: String)
    ensures
        full@ == name@ + ".local."@,
{
    let mut full = name;
    full.append(".local.");
    full
}

/// The name under which the machine with the given host name is announced.
pub fn mdns_host_name(host: &str) -> (name: String)
    ensures
        name@ == announced_host(host@),
{
    let replaced = replace_spaces(host);
    in_local_domain(to_lowercase(replaced.as_str()))
}

/// What the daemon announces of itself.
#[derive(Debug, Clone, PartialEq)]
pub struct ServiceAdvertisement {
    /// The service type of the protocol.
    pub service_type: String,
    /// The name of this instance: the local device's name.
    pub instance_name: String,
    /// The host name, in the `local` domain.
    pub host_name: String,
    /// The address announced.
    pub address: String,
    /// The port that the daemon listens on.
    pub port: u16,
    /// Protocol version, device class and number of capabilities.
    pub properties: Vec<(String, String)>,
}

/// The properties announced by a desktop with the given number of
/// capabilities, as pairs of key and value.
pub open spec fn announced_properties(capability_count: nat) -> Seq<(Seq<char>, Seq<char>)> {
    seq![
        ("version"@, PROTOCOL_VERSION@),
        ("device_type"@, "desktop"@),
        ("plugins"@, decimal(capability_count)),
    ]
}

/// The properties of an advertisement, as pairs of texts.
pub open spec fn property_texts(properties: Seq<(String, String)>) -> Seq<(Seq<char>, Seq<char>)> {
    Seq::new(properties.len(), |i: int| (properties[i].0@, properties[i].1@))
}

/// The advertisement of a daemon: the local device under the service type of
/// the protocol, with its host name, port and properties.
pub fn advertisement(local_device: &DeviceInfo, host: &str, port: u16) -> (service:
    ServiceAdvertisement)
    ensures
        service.service_type@ == MDNS_SERVICE_TYPE@,
        service.instance_name@ == local_device@.name,
        service.host_name@ == announced_host(host@),
        service.address@ == ADVERTISED_ADDRESS@,
        service.port == port,
        property_texts(service.properties@) == announced_properties(
            local_device@.capabilities.len(),
        ),
{
    let mut properties: Vec<(String, String)> = Vec::new();
    properties.push((String::from_str("version"), String::from_str(PROTOCOL_VERSION)));
    properties.push((String::from_str("device_type"), String::from_str("desktop")));
    properties.push(
        (String::from_str("plugins"), decimal_string(local_device.capabilities.len() as u64)),
    );
    assert(property_texts(properties@) =~= announced_properties(
        local_device@.capabilities.len(),
    ));
    ServiceAdvertisement {
        service_type: String::from_str(MDNS_SERVICE_TYPE),
        instance_name: local_device.name.clone(),
        host_name: mdns_host_name(host),
        address: String::from_str(ADVERTISED_ADDRESS),
        port,
        properties,
    }
}

/// What the discovery service reports.
#[derive(Debug, Clone, PartialEq)]
pub enum DiscoveryEvent {
    /// A service of the protocol was seen, not yet resolved.
    ServiceFound { fullname: String },
    /// A peer was resolved: its full name and, if it announced one, its
    /// device class.
    ServiceResolved { fullname: String, device_type: Option<String> },
    /// A peer's announcement is gone.
    ServiceRemoved { fullname: String },
    /// Anything else.
    Other,
}

/// The device type of a resolved peer: `Mobile` for one that announces the
/// class `mobile`, `Desktop` for every other.
pub open spec fn discovered_type(device_class: Option<Seq<char>>) -> DeviceType {
    if device_class == Some("mobile"@) {
        DeviceType::Mobile
    } else {
        DeviceType::Desktop
    }
}

/// The entry made for a resolved peer: identifier and name are its full
/// name, and it has no capabilities, which become known only at pairing.
pub open spec fn discovered_device(fullname: Seq<char>, device_class: Option<Seq<char>>) -> DeviceInfoView {
    DeviceInfoView {
        id: fullname,
        name: fullname,
        device_type: discovered_type(device_class),
        capabilities: Seq::empty(),
    }
}

/// The class text of an optional property.
pub open spec fn class_text(device_class: Option<String>) -> Option<Seq<char>> {
    match device_class {
        Some(text) => Some(text@),
        None => None,
    }
}

/// The registry's table after a discovery event: a resolved peer is entered
/// under its full name, a removed peer's entry is taken out, and nothing
/// else changes the table.
pub open spec fn table_after(table: Map<Seq<char>, DeviceInfoView>, event: DiscoveryEvent) -> Map<
    Seq<char>,
    DeviceInfoView,
> {
    match event {
        DiscoveryEvent::ServiceResolved { fullname, device_type } => table.insert(
            fullname@,
            discovered_device(fullname@, class_text(device_type)),
        ),
        DiscoveryEvent::ServiceRemoved { fullname } => table.remove(fullname@),
        _ => table,
    }
}

/// Applies a discovery event to the registry.
pub fn apply_discovery(registry: &mut DeviceRegistry, event: &DiscoveryEvent)
    ensures
        final(registry)@ == table_after(old(registry)@, *event),
{
    match event {
        DiscoveryEvent::ServiceResolved { fullname, device_type } => {
            let mobile = match device_type {
                Some(class) => str_eq(class.as_str(), "mobile"),
                None => false,
            };
            let kind = if mobile {
                DeviceType::Mobile
            } else {
                DeviceType::Desktop
            };
            let device = DeviceInfo::new(fullname.as_str(), fullname.as_str(), kind, Vec::new());
            assert(device@.capabilities =~= Seq::<PluginType>::empty());
            registry.insert(device);
        },
        DiscoveryEvent::ServiceRemoved { fullname } => {
            let id = DeviceId::new(fullname.as_str());
            registry.remove(&id);
        },
        _ => {},
    }
}

} // verus!
