//! The connectivity probe.

use vstd::prelude::*;
use crate::device::DeviceId;
use crate::dispatch::{Outcome, Plugin, PluginError};
use crate::message::{Message, MessageView};

verus! {

/// Answers every `Ping` with a `Pong` and is silent on everything else.
pub struct PingPlugin;

impl Plugin for PingPlugin {
    open spec fn may_answer(&self, message: MessageView, sender: Seq<char>, outcome: Outcome) -> bool {
        outcome == if message is Ping {
            Outcome::Reply(MessageView::Pong)
        } else {
            Outcome::Silent
        }
    }

    open spec fn may_be_named(&self, name: Seq<char>) -> bool {
        name == "ping"@
    }

    fn name(&self) -> (name: &'static str) {
        "ping"
    }

    fn handle_message(&mut self, message: &Message, sender_id: &DeviceId) -> (result: Result<
        Option<Message>,
        PluginError,
    >) {
        match message {
            Message::Ping => Ok(Some(Message::Pong)),
            _ => Ok(None),
        }
    }
}

} // verus!
