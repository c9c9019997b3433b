//! Peer discovery, pairing and capability dispatch for a desktop host that
//! exchanges structured commands with trusted devices on the local network.
//!
//! The crate is the decision-making core of the daemon and of its command-line
//! client. It never touches a socket, a file or a desktop service itself: the
//! caller performs that work and reports what happened, and every decision in
//! between is made here, under a contract.

pub mod client;
pub mod connection;
pub mod control;
pub mod daemon;
pub mod device;
pub mod discovery;
pub mod dispatch;
pub mod error;
pub mod file_image;
pub mod input;
pub mod input_device;
pub mod message;
pub mod pairing;
pub mod plugins;
pub mod registry;
pub mod scalar;
pub mod text;

pub use client::{parse_key_code, parse_mouse_button, parse_slide_action, FileSender, ReplyStatus};
pub use connection::{Connection, ReadEvent, Step, WriteEvent};
pub use control::{BatteryStatus, MediaControlAction, SlideControlAction};
pub use daemon::{Daemon, Handled};
pub use device::{DeviceId, DeviceInfo, DeviceType, PluginType};
pub use discovery::{DiscoveryEvent, ServiceAdvertisement};
pub use dispatch::{Dispatched, Dispatcher, Plugin, PluginError};
pub use error::{DaemonError, Scope};
pub use input::{KeyAction, KeyCode, KeyEvent, MouseAction, MouseButton, MouseEvent, TouchpadEvent};
pub use input_device::{Axis, Direction, InputAction, InputKey, PointerButton};
pub use message::{
    Message, DEFAULT_PORT, MAX_CHUNK_SIZE, MAX_MESSAGE_SIZE, MDNS_SERVICE_TYPE, PROTOCOL_VERSION,
};
pub use pairing::PairingCode;
pub use plugins::battery::BatteryStatusPlugin;
pub use plugins::clipboard::{ClipboardRequest, ClipboardSyncPlugin};
pub use plugins::file_transfer::{FileRequest, FileTransferPlugin};
pub use plugins::input_share::InputSharePlugin;
pub use plugins::media_control::MediaControlPlugin;
pub use plugins::notification::{NotificationRequest, NotificationSyncPlugin};
pub use plugins::ping::PingPlugin;
pub use plugins::remote_commands::{CommandRequest, RemoteCommandsPlugin};
pub use plugins::slide_control::SlideControlPlugin;
pub use plugins::touchpad::TouchpadModePlugin;
pub use registry::DeviceRegistry;
pub use scalar::Scalar;
