//! The message envelope that both ends of a connection exchange, and the
//! constants of the protocol.

use vstd::prelude::*;
use crate::control::{BatteryStatus, MediaControlAction, SlideControlAction};
use crate::device::{DeviceInfo, DeviceInfoView};
use crate::input::{KeyEvent, MouseEvent, TouchpadEvent};

verus! {

/// Protocol version, announced with the service.
pub const PROTOCOL_VERSION: &'static str = "0.1.0";

/// TCP port that the daemon listens on unless told otherwise.
pub const DEFAULT_PORT: u16 = 1716;

/// Service type under which the daemon is announced and peers are sought.
pub const MDNS_SERVICE_TYPE: &'static str = "_libreconnect._tcp.local.";

/// Largest encoded message that a connection accepts, in bytes: 64 MiB.
pub const MAX_MESSAGE_SIZE: usize = 67_108_864;

/// Largest file chunk in one message, in bytes: 1 MiB.
pub const MAX_CHUNK_SIZE: usize = 1_048_576;

/// The messages of the protocol. The set of variants is closed: both ends
/// must agree on it.
#[derive(Debug, Clone, PartialEq)]
pub enum Message {
    /// Connectivity probe.
    Ping,
    /// Answer to a probe.
    Pong,
    /// A device announces itself.
    DeviceInfo(DeviceInfo),
    /// Pairing request without a key; accepted unconditionally.
    RequestPairing(DeviceInfo),
    /// Pairing request that carries the numeric code shown by the daemon.
    RequestPairingWithKey {
        id: String,
        name: String,
        device_type: String,
        capabilities: Vec<String>,
        pairing_key: String,
    },
    /// The pairing request of the named device was accepted.
    PairingAccepted { device_id: String },
    /// The pairing request of the named device was rejected, with the reason.
    PairingRejected { device_id: String, reason: String },
    /// Clipboard content to take over.
    ClipboardSync(String),
    /// Asks for the current clipboard content.
    RequestClipboard,
    /// Announces a file; the size is advisory.
    FileTransferRequest { file_name: String, file_size: u64 },
    /// A piece of an announced file, to be written at the given offset.
    FileTransferChunk { file_name: String, chunk: Vec<u8>, offset: u64 },
    /// The file is complete.
    FileTransferEnd { file_name: String },
    /// The transfer failed.
    FileTransferError { file_name: String, error: String },
    /// Keyboard input.
    KeyEvent(KeyEvent),
    /// Mouse input.
    MouseEvent(MouseEvent),
    /// Touchpad input.
    TouchpadEvent(TouchpadEvent),
    /// A notification to show.
    Notification { title: String, body: String, app_name: Option<String> },
    /// A command for the media player.
    MediaControl { action: MediaControlAction },
    /// A battery report.
    BatteryStatus(BatteryStatus),
    /// A command to run, with its arguments.
    RemoteCommand { command: String, args: Vec<String> },
    /// A command for the slide show.
    SlideControl(SlideControlAction),
}

/// What a message is, as plain mathematical values.
pub enum MessageView {
    Ping,
    Pong,
    DeviceInfo(DeviceInfoView),
    RequestPairing(DeviceInfoView),
    RequestPairingWithKey {
        id: Seq<char>,
        name: Seq<char>,
        device_type: Seq<char>,
        capabilities: Seq<Seq<char>>,
        pairing_key: Seq<char>,
    },
    PairingAccepted { device_id: Seq<char> },
    PairingRejected { device_id: Seq<char>, reason: Seq<char> },
    ClipboardSync(Seq<char>),
    RequestClipboard,
    FileTransferRequest { file_name: Seq<char>, file_size: u64 },
    FileTransferChunk { file_name: Seq<char>, chunk: Seq<u8>, offset: u64 },
    FileTransferEnd { file_name: Seq<char> },
    FileTransferError { file_name: Seq<char>, error: Seq<char> },
    KeyEvent(KeyEvent),
    MouseEvent(MouseEvent),
    TouchpadEvent(TouchpadEvent),
    Notification { title: Seq<char>, body: Seq<char>, app_name: Option<Seq<char>> },
    MediaControl { action: MediaControlAction },
    BatteryStatus(BatteryStatus),
    RemoteCommand { command: Seq<char>, args: Seq<Seq<char>> },
    SlideControl(SlideControlAction),
}

impl View for Message {
    type V = MessageView;

    open spec fn view(&self) -> MessageView {
        match *self {
            Message::Ping => MessageView::Ping,
            Message::Pong => MessageView::Pong,
            Message::DeviceInfo(info) => MessageView::DeviceInfo(info@),
            Message::RequestPairing(info) => MessageView::RequestPairing(info@),
            Message::RequestPairingWithKey { id, name, device_type, capabilities, pairing_key } =>
                MessageView::RequestPairingWithKey {
                    id: id@,
                    name: name@,
                    device_type: device_type@,
                    capabilities: capabilities.deep_view(),
                    pairing_key: pairing_key@,
                },
            Message::PairingAccepted { device_id } => MessageView::PairingAccepted {
                device_id: device_id@,
            },
            Message::PairingRejected { device_id, reason } => MessageView::PairingRejected {
                device_id: device_id@,
                reason: reason@,
            },
            Message::ClipboardSync(text) => MessageView::ClipboardSync(text@),
            Message::RequestClipboard => MessageView::RequestClipboard,
            Message::FileTransferRequest { file_name, file_size } =>
                MessageView::FileTransferRequest { file_name: file_name@, file_size },
            Message::FileTransferChunk { file_name, chunk, offset } =>
                MessageView::FileTransferChunk { file_name: file_name@, chunk: chunk@, offset },
            Message::FileTransferEnd { file_name } => MessageView::FileTransferEnd {
                file_name: file_name@,
            },
            Message::FileTransferError { file_name, error } => MessageView::FileTransferError {
                file_name: file_name@,
                error: error@,
            },
            Message::KeyEvent(event) => MessageView::KeyEvent(event),
            Message::MouseEvent(event) => MessageView::MouseEvent(event),
            Message::TouchpadEvent(event) => MessageView::TouchpadEvent(event),
            Message::Notification { title, body, app_name } => MessageView::Notification {
                title: title@,
                body: body@,
                app_name: match app_name {
                    Some(name) => Some(name@),
                    None => None,
                },
            },
            Message::MediaControl { action } => MessageView::MediaControl { action },
            Message::BatteryStatus(status) => MessageView::BatteryStatus(status),
            Message::RemoteCommand { command, args } => MessageView::RemoteCommand {
                command: command@,
                args: args.deep_view(),
            },
            Message::SlideControl(action) => MessageView::SlideControl(action),
        }
    }
}

impl MessageView {
    /// The name of the message's variant.
    pub open spec fn kind_name(self) -> Seq<char> {
        match self {
            MessageView::Ping => "Ping"@,
            MessageView::Pong => "Pong"@,
            MessageView::DeviceInfo(_) => "DeviceInfo"@,
            MessageView::RequestPairing(_) => "RequestPairing"@,
            MessageView::RequestPairingWithKey { .. } => "RequestPairingWithKey"@,
            MessageView::PairingAccepted { .. } => "PairingAccepted"@,
            MessageView::PairingRejected { .. } => "PairingRejected"@,
            MessageView::ClipboardSync(_) => "ClipboardSync"@,
            MessageView::RequestClipboard => "RequestClipboard"@,
            MessageView::FileTransferRequest { .. } => "FileTransferRequest"@,
            MessageView::FileTransferChunk { .. } => "FileTransferChunk"@,
            MessageView::FileTransferEnd { .. } => "FileTransferEnd"@,
            MessageView::FileTransferError { .. } => "FileTransferError"@,
            MessageView::KeyEvent(_) => "KeyEvent"@,
            MessageView::MouseEvent(_) => "MouseEvent"@,
            MessageView::TouchpadEvent(_) => "TouchpadEvent"@,
            MessageView::Notification { .. } => "Notification"@,
            MessageView::MediaControl { .. } => "MediaControl"@,
            MessageView::BatteryStatus(_) => "BatteryStatus"@,
            MessageView::RemoteCommand { .. } => "RemoteCommand"@,
            MessageView::SlideControl(_) => "SlideControl"@,
        }
    }
}

/// The name of a message's variant, for logs and diagnostics.
pub fn message_type_name(message: &Message) -> (name: &'static str)
    ensures
        name@ == message@.kind_name(),
{
    match message {
        Message::Ping => "Ping",
        Message::Pong => "Pong",
        Message::DeviceInfo(_) => "DeviceInfo",
        Message::RequestPairing(_) => "RequestPairing",
        Message::RequestPairingWithKey { .. } => "RequestPairingWithKey",
        Message::PairingAccepted { .. } => "PairingAccepted",
        Message::PairingRejected { .. } => "PairingRejected",
        Message::ClipboardSync(_) => "ClipboardSync",
        Message::RequestClipboard => "RequestClipboard",
        Message::FileTransferRequest { .. } => "FileTransferRequest",
        Message::FileTransferChunk { .. } => "FileTransferChunk",
        Message::FileTransferEnd { .. } => "FileTransferEnd",
        Message::FileTransferError { .. } => "FileTransferError",
        Message::KeyEvent(_) => "KeyEvent",
        Message::MouseEvent(_) => "MouseEvent",
        Message::TouchpadEvent(_) => "TouchpadEvent",
        Message::Notification { .. } => "Notification",
        Message::MediaControl { .. } => "MediaControl",
        Message::BatteryStatus(_) => "BatteryStatus",
        Message::RemoteCommand { .. } => "RemoteCommand",
        Message::SlideControl(_) => "SlideControl",
    }
}

} // verus!
