//! Device identity and metadata: who a peer is, what kind of device it is and
//! which capabilities it announces.

use vstd::prelude::*;
use vstd::std_specs::convert::FromSpecImpl;
use vstd::string::StringExecFns;
use crate::text::str_eq;

verus! {

/// Unique identifier of a device on the network. Two identifiers are the same
/// device exactly when their texts are equal.
#[derive(Debug, Clone, PartialEq, Eq, Hash)]
pub struct DeviceId(String);

impl View for DeviceId {
    type V = Seq<char>;

    closed spec fn view(&self) -> Seq<char> {
        self.0@
    }
}

impl DeviceId {
    /// Creates an identifier from its text. No format is enforced.
    pub fn new(id: &str) -> (device_id: DeviceId)
        ensures
            device_id@ == id@,
    {
        DeviceId(String::from_str(id))
    }

    /// The text of the identifier.
    pub fn as_str(&self) -> (text: &str)
        ensures
            text@ == self@,
    {
        self.0.as_str()
    }

    /// The text of the identifier as an owned string.
    pub fn to_string(&self) -> (text: String)
        ensures
            text@ == self@,
    {
        self.0.clone()
    }

    /// An independent copy of the identifier.
    pub fn duplicate(&self) -> (copy: DeviceId)
        ensures
            copy@ == self@,
    {
        DeviceId(self.0.clone())
    }

    /// Whether two identifiers name the same device.
    pub fn same_as(&self, other: &DeviceId) -> (same: bool)
        ensures
            same == (self@ == other@),
    {
        str_eq(self.0.as_str(), other.0.as_str())
    }
}

impl From<&str> for DeviceId {
    fn from(s: &str) -> (device_id: DeviceId)
        ensures
            device_id@ == s@,
    {
        DeviceId::new(s)
    }
}

impl FromSpecImpl<&str> for DeviceId {
    open spec fn obeys_from_spec() -> bool {
        false
    }

    closed spec fn from_spec(s: &str) -> DeviceId {
        arbitrary()
    }
}

impl From<String> for DeviceId {
    fn from(s: String) -> (device_id: DeviceId)
        ensures
            device_id@ == s@,
    {
        DeviceId(s)
    }
}

impl FromSpecImpl<String> for DeviceId {
    open spec fn obeys_from_spec() -> bool {
        true
    }

    closed spec fn from_spec(s: String) -> DeviceId {
        DeviceId(s)
    }
}

/// Kind of device taking part in the network.
#[derive(Debug, Clone, Copy, PartialEq, Eq, Structural)]
pub enum DeviceType {
    /// Phone or tablet.
    Mobile,
    /// Desktop computer.
    Desktop,
}

impl DeviceType {
    /// The display name of a device type.
    pub open spec fn name(self) -> Seq<char> {
        match self {
            DeviceType::Mobile => "Mobile"@,
            DeviceType::Desktop => "Desktop"@,
        }
    }

    /// The device type that a pairing request's text stands for: `Desktop`
    /// for that word, with a capital or a small first letter, `Mobile` for
    /// every other text.
    pub open spec fn lenient(text: Seq<char>) -> DeviceType {
        if text == "Desktop"@ || text == "desktop"@ {
            DeviceType::Desktop
        } else {
            DeviceType::Mobile
        }
    }

    /// The display name.
    pub fn to_string(&self) -> (text: String)
        ensures
            text@ == self.name(),
    {
        match self {
            DeviceType::Mobile => String::from_str("Mobile"),
            DeviceType::Desktop => String::from_str("Desktop"),
        }
    }

    /// Reads a device type leniently: a text that names no device type
    /// counts as `Mobile`.
    pub fn parse_lenient(text: &str) -> (device_type: DeviceType)
        ensures
            device_type == DeviceType::lenient(text@),
    {
        if str_eq(text, "Desktop") || str_eq(text, "desktop") {
            DeviceType::Desktop
        } else {
            DeviceType::Mobile
        }
    }
}

/// The capabilities that a device can announce, one per handler family.
#[derive(Debug, Clone, Copy, PartialEq, Eq, Hash, Structural)]
pub enum PluginType {
    /// Clipboard synchronization.
    ClipboardSync,
    /// File transfer.
    FileTransfer,
    /// Keyboard and mouse sharing.
    InputShare,
    /// Notification mirroring.
    NotificationSync,
    /// Battery status monitoring.
    BatteryStatus,
    /// Media playback control.
    MediaControl,
    /// Remote command execution.
    RemoteCommands,
    /// Touchpad emulation.
    TouchpadMode,
    /// Slide presentation control.
    SlideControl,
}

impl PluginType {
    /// Every capability, in declaration order.
    pub open spec fn every() -> Seq<PluginType> {
        seq![
            PluginType::ClipboardSync,
            PluginType::FileTransfer,
            PluginType::InputShare,
            PluginType::NotificationSync,
            PluginType::BatteryStatus,
            PluginType::MediaControl,
            PluginType::RemoteCommands,
            PluginType::TouchpadMode,
            PluginType::SlideControl,
        ]
    }

    /// The display name of a capability.
    pub open spec fn name(self) -> Seq<char> {
        match self {
            PluginType::ClipboardSync => "Clipboard Sync"@,
            PluginType::FileTransfer => "File Transfer"@,
            PluginType::InputShare => "Input Share"@,
            PluginType::NotificationSync => "Notification Sync"@,
            PluginType::BatteryStatus => "Battery Status"@,
            PluginType::MediaControl => "Media Control"@,
            PluginType::RemoteCommands => "Remote Commands"@,
            PluginType::TouchpadMode => "Touchpad Mode"@,
            PluginType::SlideControl => "Slide Control"@,
        }
    }

    /// The one-line description of a capability.
    pub open spec fn summary(self) -> Seq<char> {
        match self {
            PluginType::ClipboardSync => "Synchronize clipboard content between devices"@,
            PluginType::FileTransfer => "Transfer files between devices"@,
            PluginType::InputShare => "Share keyboard and mouse input"@,
            PluginType::NotificationSync => "Mirror system notifications"@,
            PluginType::BatteryStatus => "Monitor and display battery status"@,
            PluginType::MediaControl => "Control media playback"@,
            PluginType::RemoteCommands => "Execute commands remotely"@,
            PluginType::TouchpadMode => "Use device as touchpad"@,
            PluginType::SlideControl => "Control presentation slides"@,
        }
    }

    /// The capability that a tag names, if any. Tags are the identifiers of
    /// the capabilities, spelled as on the wire.
    pub open spec fn named(tag: Seq<char>) -> Option<PluginType> {
        if tag == "ClipboardSync"@ {
            Some(PluginType::ClipboardSync)
        } else if tag == "FileTransfer"@ {
            Some(PluginType::FileTransfer)
        } else if tag == "InputShare"@ {
            Some(PluginType::InputShare)
        } else if tag == "NotificationSync"@ {
            Some(PluginType::NotificationSync)
        } else if tag == "BatteryStatus"@ {
            Some(PluginType::BatteryStatus)
        } else if tag == "MediaControl"@ {
            Some(PluginType::MediaControl)
        } else if tag == "RemoteCommands"@ {
            Some(PluginType::RemoteCommands)
        } else if tag == "TouchpadMode"@ {
            Some(PluginType::TouchpadMode)
        } else if tag == "SlideControl"@ {
            Some(PluginType::SlideControl)
        } else {
            None
        }
    }

    /// The capabilities that a list of tags names: each tag that names one,
    /// in order; tags that name none are left out.
    pub open spec fn named_all(tags: Seq<Seq<char>>) -> Seq<PluginType>
        decreases tags.len(),
    {
        if tags.len() == 0 {
            Seq::empty()
        } else {
            let earlier = PluginType::named_all(tags.drop_last());
            match PluginType::named(tags.last()) {
                Some(plugin) => earlier.push(plugin),
                None => earlier,
            }
        }
    }

    /// All capabilities.
    pub fn all() -> (plugins: Vec<PluginType>)
        ensures
            plugins@ == PluginType::every(),
    {
        let mut plugins: Vec<PluginType> = Vec::new();
        plugins.push(PluginType::ClipboardSync);
        plugins.push(PluginType::FileTransfer);
        plugins.push(PluginType::InputShare);
        plugins.push(PluginType::NotificationSync);
        plugins.push(PluginType::BatteryStatus);
        plugins.push(PluginType::MediaControl);
        plugins.push(PluginType::RemoteCommands);
        plugins.push(PluginType::TouchpadMode);
        plugins.push(PluginType::SlideControl);
        assert(plugins@ =~= PluginType::every());
        plugins
    }

    /// The one-line description of the capability.
    pub fn description(&self) -> (text: &'static str)
        ensures
            text@ == self.summary(),
    {
        match self {
            PluginType::ClipboardSync => "Synchronize clipboard content between devices",
            PluginType::FileTransfer => "Transfer files between devices",
            PluginType::InputShare => "Share keyboard and mouse input",
            PluginType::NotificationSync => "Mirror system notifications",
            PluginType::BatteryStatus => "Monitor and display battery status",
            PluginType::MediaControl => "Control media playback",
            PluginType::RemoteCommands => "Execute commands remotely",
            PluginType::TouchpadMode => "Use device as touchpad",
            PluginType::SlideControl => "Control presentation slides",
        }
    }

    /// The display name of the capability.
    pub fn to_string(&self) -> (text: String)
        ensures
            text@ == self.name(),
    {
        match self {
            PluginType::ClipboardSync => String::from_str("Clipboard Sync"),
            PluginType::FileTransfer => String::from_str("File Transfer"),
            PluginType::InputShare => String::from_str("Input Share"),
            PluginType::NotificationSync => String::from_str("Notification Sync"),
            PluginType::BatteryStatus => String::from_str("Battery Status"),
            PluginType::MediaControl => String::from_str("Media Control"),
            PluginType::RemoteCommands => String::from_str("Remote Commands"),
            PluginType::TouchpadMode => String::from_str("Touchpad Mode"),
            PluginType::SlideControl => String::from_str("Slide Control"),
        }
    }

    /// Reads one capability tag; `None` for a text that names none.
    pub fn from_name(tag: &str) -> (plugin: Option<PluginType>)
        ensures
            plugin == PluginType::named(tag@),
    {
        if str_eq(tag, "ClipboardSync") {
            Some(PluginType::ClipboardSync)
        } else if str_eq(tag, "FileTransfer") {
            Some(PluginType::FileTransfer)
        } else if str_eq(tag, "InputShare") {
            Some(PluginType::InputShare)
        } else if str_eq(tag, "NotificationSync") {
            Some(PluginType::NotificationSync)
        } else if str_eq(tag, "BatteryStatus") {
            Some(PluginType::BatteryStatus)
        } else if str_eq(tag, "MediaControl") {
            Some(PluginType::MediaControl)
        } else if str_eq(tag, "RemoteCommands") {
            Some(PluginType::RemoteCommands)
        } else if str_eq(tag, "TouchpadMode") {
            Some(PluginType::TouchpadMode)
        } else if str_eq(tag, "SlideControl") {
            Some(PluginType::SlideControl)
        } else {
            None
        }
    }

    /// Reads a list of capability tags leniently: tags that name no
    /// capability are dropped, the others keep their order.
    pub fn parse_all(tags: &Vec<String>) -> (plugins: Vec<PluginType>)
        ensures
            plugins@ == PluginType::named_all(tags.deep_view()),
    {
        let mut plugins: Vec<PluginType> = Vec::new();
        let mut i: usize = 0;
        while i < tags.len()
            invariant
                i <= tags.len(),
                plugins@ == PluginType::named_all(tags.deep_view().subrange(0, i as int)),
            decreases tags.len() - i,
        {
            let found = PluginType::from_name(tags[i].as_str());
            proof {
                let upto = tags.deep_view().subrange(0, i + 1);
                assert(upto.drop_last() =~= tags.deep_view().subrange(0, i as int));
                assert(upto.last() == tags@[i as int]@);
            }
            if let Some(plugin) = found {
                plugins.push(plugin);
            }
            i = i + 1;
        }
        assert(tags.deep_view().subrange(0, tags.len() as int) =~= tags.deep_view());
        plugins
    }
}

/// What a device's metadata is, as plain mathematical values.
pub struct DeviceInfoView {
    pub id: Seq<char>,
    pub name: Seq<char>,
    pub device_type: DeviceType,
    pub capabilities: Seq<PluginType>,
}

/// Metadata of a device on the network.
#[derive(Debug, Clone, PartialEq)]
pub struct DeviceInfo {
    /// Unique device identifier.
    pub id: DeviceId,
    /// Human-readable device name.
    pub name: String,
    /// Kind of device.
    pub device_type: DeviceType,
    /// Capabilities that the device announces.
    pub capabilities: Vec<PluginType>,
}

impl View for DeviceInfo {
    type V = DeviceInfoView;

    open spec fn view(&self) -> DeviceInfoView {
        DeviceInfoView {
            id: self.id@,
            name: self.name@,
            device_type: self.device_type,
            capabilities: self.capabilities@,
        }
    }
}

impl DeviceInfo {
    /// Creates the metadata of a device.
    pub fn new(
        id: &str,
        name: &str,
        device_type: DeviceType,
        capabilities: Vec<PluginType>,
    ) -> (info: DeviceInfo)
        ensures
            info@ == (DeviceInfoView {
                id: id@,
                name: name@,
                device_type,
                capabilities: capabilities@,
            }),
    {
        DeviceInfo { id: DeviceId::new(id), name: String::from_str(name), device_type, capabilities }
    }

    /// Whether the device announces the given capability.
    pub fn supports_plugin(&self, plugin_type: &PluginType) -> (supported: bool)
        ensures
            supported == self@.capabilities.contains(*plugin_type),
    {
        let mut i: usize = 0;
        while i < self.capabilities.len()
            invariant
                i <= self.capabilities.len(),
                forall|j: int| 0 <= j < i ==> self.capabilities@[j] != *plugin_type,
            decreases self.capabilities.len() - i,
        {
            if self.capabilities[i] == *plugin_type {
                return true;
            }
            i = i + 1;
        }
        false
    }

    /// An independent copy of the metadata.
    pub fn duplicate(&self) -> (copy: DeviceInfo)
        ensures
            copy@ == self@,
    {
        let mut capabilities: Vec<PluginType> = Vec::new();
        let mut i: usize = 0;
        while i < self.capabilities.len()
            invariant
                i <= self.capabilities.len(),
                capabilities@ == self.capabilities@.subrange(0, i as int),
            decreases self.capabilities.len() - i,
        {
            capabilities.push(self.capabilities[i]);
            i = i + 1;
        }
        assert(capabilities@ =~= self.capabilities@);
        DeviceInfo {
            id: self.id.duplicate(),
            name: self.name.clone(),
            device_type: self.device_type,
            capabilities,
        }
    }
}

} // verus!
