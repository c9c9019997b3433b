//! Battery reports from peers.

use vstd::prelude::*;
use crate::device::DeviceId;
use crate::dispatch::{Outcome, Plugin, PluginError};
use crate::message::{Message, MessageView};

verus! {

/// Takes note of the battery reports of peers. It never answers.
pub struct BatteryStatusPlugin;

impl BatteryStatusPlugin {
    /// Creates the handler.
    pub fn new() -> (plugin: BatteryStatusPlugin)
        ensures
            plugin == BatteryStatusPlugin,
    {
        BatteryStatusPlugin
    }
}

impl Default for BatteryStatusPlugin {
    fn default() -> (plugin: BatteryStatusPlugin)
        ensures
            plugin == BatteryStatusPlugin,
    {
        BatteryStatusPlugin::new()
    }
}

impl Plugin for BatteryStatusPlugin {
    open spec fn may_answer(&self, message: MessageView, sender: Seq<char>, outcome: Outcome) -> bool {
        outcome == Outcome::Silent
    }

    open spec fn may_be_named(&self, name: Seq<char>) -> bool {
        name == "battery-status"@
    }

    fn name(&self) -> (name: &'static str) {
        "battery-status"
    }

    fn handle_message(&mut self, message: &Message, sender_id: &DeviceId) -> (result: Result<
        Option<Message>,
        PluginError,
    >) {
        Ok(None)
    }
}

} // verus!
