//! Slide show control.

use vstd::prelude::*;
use crate::control::SlideControlAction;
use crate::device::DeviceId;
use crate::input_device::{Direction, InputAction, InputKey};
use crate::message::{Message, MessageView};

verus! {

/// The key that stands for a slide command: the arrows turn the slides, F5
/// starts the presentation and Escape ends it.
pub open spec fn slide_key_of(action: SlideControlAction) -> InputKey {
    match action {
        SlideControlAction::NextSlide => InputKey::RightArrow,
        SlideControlAction::PreviousSlide => InputKey::LeftArrow,
        SlideControlAction::StartPresentation => InputKey::F5,
        SlideControlAction::EndPresentation => InputKey::Escape,
    }
}

/// What the input device is asked to do for a message: a click on the key
/// of a slide command, nothing for any other message.
pub open spec fn slide_actions(message: MessageView) -> Seq<InputAction> {
    match message {
        MessageView::SlideControl(action) => seq![
            InputAction::Key { key: slide_key_of(action), direction: Direction::Click },
        ],
        _ => Seq::empty(),
    }
}

/// Turns slide commands into clicks on the keys that presentation programs
/// listen to.
pub struct SlideControlPlugin;

impl SlideControlPlugin {
    /// Creates the handler.
    pub fn new() -> (plugin: SlideControlPlugin)
        ensures
            plugin == SlideControlPlugin,
    {
        SlideControlPlugin
    }

    /// The handler's name.
    pub fn name(&self) -> (name: &'static str)
        ensures
            name@ == "slide-control"@,
    {
        "slide-control"
    }

    /// The key for a slide command.
    pub fn slide_key(action: &SlideControlAction) -> (key: InputKey)
        ensures
            key == slide_key_of(*action),
    {
        match action {
            SlideControlAction::NextSlide => InputKey::RightArrow,
            SlideControlAction::PreviousSlide => InputKey::LeftArrow,
            SlideControlAction::StartPresentation => InputKey::F5,
            SlideControlAction::EndPresentation => InputKey::Escape,
        }
    }

    /// What the input device is to do for a message, in order.
    pub fn handle_message(&self, message: &Message, sender_id: &DeviceId) -> (actions: Vec<
        InputAction,
    >)
        ensures
            actions@ == slide_actions(message@),
    {
        let mut actions: Vec<InputAction> = Vec::new();
        match message {
            Message::SlideControl(action) => {
                actions.push(
                    InputAction::Key {
                        key: SlideControlPlugin::slide_key(action),
                        direction: Direction::Click,
                    },
                );
            },
            _ => {},
        }
        assert(actions@ =~= slide_actions(message@));
        actions
    }
}

impl Default for SlideControlPlugin {
    fn default() -> (plugin: SlideControlPlugin)
        ensures
            plugin == SlideControlPlugin,
    {
        SlideControlPlugin::new()
    }
}

} // verus!
