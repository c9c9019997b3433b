//! Media player control.

use vstd::prelude::*;
use crate::control::MediaControlAction;
use crate::device::DeviceId;
use crate::input_device::{Direction, InputAction, InputKey};
use crate::message::{Message, MessageView};

verus! {

/// The media key that stands for a command. The keyboard has one key for
/// play and pause, which serves three commands.
pub open spec fn media_key_of(action: MediaControlAction) -> InputKey {
    match action {
        MediaControlAction::Play => InputKey::MediaPlayPause,
        MediaControlAction::Pause => InputKey::MediaPlayPause,
        MediaControlAction::PlayPause => InputKey::MediaPlayPause,
        MediaControlAction::Next => InputKey::MediaNextTrack,
        MediaControlAction::Previous => InputKey::MediaPrevTrack,
        MediaControlAction::VolumeUp => InputKey::VolumeUp,
        MediaControlAction::VolumeDown => InputKey::VolumeDown,
        MediaControlAction::ToggleMute => InputKey::VolumeMute,
    }
}

/// What the input device is asked to do for a message: a click on the media
/// key of a media command, nothing for any other message.
pub open spec fn media_actions(message: MessageView) -> Seq<InputAction> {
    match message {
        MessageView::MediaControl { action } => seq![
            InputAction::Key { key: media_key_of(action), direction: Direction::Click },
        ],
        _ => Seq::empty(),
    }
}

/// Turns media commands into clicks on the media keys.
pub struct MediaControlPlugin;

impl MediaControlPlugin {
    /// The handler's name.
    pub fn name(&self) -> (name: &'static str)
        ensures
            name@ == "media-control"@,
    {
        "media-control"
    }

    /// The media key for a command.
    pub fn media_key(action: &MediaControlAction) -> (key: InputKey)
        ensures
            key == media_key_of(*action),
    {
        match action {
            MediaControlAction::Play => InputKey::MediaPlayPause,
            MediaControlAction::Pause => InputKey::MediaPlayPause,
            MediaControlAction::PlayPause => InputKey::MediaPlayPause,
            MediaControlAction::Next => InputKey::MediaNextTrack,
            MediaControlAction::Previous => InputKey::MediaPrevTrack,
            MediaControlAction::VolumeUp => InputKey::VolumeUp,
            MediaControlAction::VolumeDown => InputKey::VolumeDown,
            MediaControlAction::ToggleMute => InputKey::VolumeMute,
        }
    }

    /// What the input device is to do for a message, in order.
    pub fn handle_message(&self, message: &Message, sender_id: &DeviceId) -> (actions: Vec<
        InputAction,
    >)
        ensures
            actions@ == media_actions(message@),
    {
        let mut actions: Vec<InputAction> = Vec::new();
        match message {
            Message::MediaControl { action } => {
                actions.push(
                    InputAction::Key {
                        key: MediaControlPlugin::media_key(action),
                        direction: Direction::Click,
                    },
                );
            },
            _ => {},
        }
        assert(actions@ =~= media_actions(message@));
        actions
    }
}

} // verus!
