//! Clipboard synchronization.

use vstd::prelude::*;
use crate::device::DeviceId;
use crate::dispatch::{outcome_of, Outcome, PluginError};
use crate::message::{Message, MessageView};

verus! {

/// What is to be done with the clipboard.
#[derive(Debug, Clone, PartialEq)]
pub enum ClipboardRequest {
    /// Nothing.
    Ignore,
    /// Put the text on the clipboard.
    Store(String),
    /// Read the text on the clipboard.
    Fetch,
}

/// A request to the clipboard, as plain values.
pub enum ClipboardRequestView {
    Ignore,
    Store(Seq<char>),
    Fetch,
}

impl View for ClipboardRequest {
    type V = ClipboardRequestView;

    open spec fn view(&self) -> ClipboardRequestView {
        match *self {
            ClipboardRequest::Ignore => ClipboardRequestView::Ignore,
            ClipboardRequest::Store(text) => ClipboardRequestView::Store(text@),
            ClipboardRequest::Fetch => ClipboardRequestView::Fetch,
        }
    }
}

/// What is to be done with the clipboard for a message: content that a peer
/// sends is stored, a peer that asks for the content has it fetched.
pub open spec fn clipboard_request(message: MessageView) -> ClipboardRequestView {
    match message {
        MessageView::ClipboardSync(text) => ClipboardRequestView::Store(text),
        MessageView::RequestClipboard => ClipboardRequestView::Fetch,
        _ => ClipboardRequestView::Ignore,
    }
}

/// What reading the clipboard came to: nothing where there is no clipboard,
/// else the text or the reason why it could not be read.
pub open spec fn fetched_text(fetched: Option<Result<String, String>>) -> Option<Result<Seq<char>, Seq<char>>> {
    match fetched {
        None => None,
        Some(Ok(text)) => Some(Ok(text@)),
        Some(Err(reason)) => Some(Err(reason@)),
    }
}

/// The outcome of a request for the clipboard's content: the content is
/// sent back; without a clipboard, empty content is; a clipboard that could
/// not be read is a failure.
pub open spec fn fetch_outcome(fetched: Option<Result<Seq<char>, Seq<char>>>) -> Outcome {
    match fetched {
        None => Outcome::Reply(MessageView::ClipboardSync(Seq::empty())),
        Some(Ok(text)) => Outcome::Reply(MessageView::ClipboardSync(text)),
        Some(Err(reason)) => Outcome::Failed(reason),
    }
}

/// Keeps the clipboards of the devices in step.
pub struct ClipboardSyncPlugin;

impl ClipboardSyncPlugin {
    /// Creates the handler.
    pub fn new() -> (plugin: ClipboardSyncPlugin)
        ensures
            plugin == ClipboardSyncPlugin,
    {
        ClipboardSyncPlugin
    }

    /// The handler's name.
    pub fn name(&self) -> (name: &'static str)
        ensures
            name@ == "clipboard-sync"@,
    {
        "clipboard-sync"
    }

    /// What is to be done with the clipboard for a message.
    pub fn handle_message(&self, message: &Message, sender_id: &DeviceId) -> (request:
        ClipboardRequest)
        ensures
            request@ == clipboard_request(message@),
    {
        match message {
            Message::ClipboardSync(content) => ClipboardRequest::Store(content.clone()),
            Message::RequestClipboard => ClipboardRequest::Fetch,
            _ => ClipboardRequest::Ignore,
        }
    }

    /// The handler's result once the clipboard was read for a peer.
    pub fn fetched(&self, fetched: Option<Result<String, String>>) -> (result: Result<
        Option<Message>,
        PluginError,
    >)
        ensures
            outcome_of(result) == fetch_outcome(fetched_text(fetched)),
    {
        match fetched {
            None => Ok(Some(Message::ClipboardSync(String::new()))),
            Some(Ok(content)) => Ok(Some(Message::ClipboardSync(content))),
            Some(Err(reason)) => Err(PluginError { message: reason }),
        }
    }
}

impl Default for ClipboardSyncPlugin {
    fn default() -> (plugin: ClipboardSyncPlugin)
        ensures
            plugin == ClipboardSyncPlugin,
    {
        ClipboardSyncPlugin::new()
    }
}

} // verus!
