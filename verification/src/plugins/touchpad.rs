//! The phone as a touchpad.

use vstd::prelude::*;
use crate::device::DeviceId;
use crate::input::TouchpadEvent;
use crate::input_device::{Axis, Direction, InputAction, PointerButton};
use crate::message::{Message, MessageView};

verus! {

/// What the input device is asked to do for a touchpad event, in this
/// order: move the pointer by the event's movement, unless both parts of it
/// are zero; scroll vertically, unless that delta is zero; scroll
/// horizontally, unless that delta is zero; click the left button for a
/// left click; click the right button for a right click.
pub open spec fn gesture_actions(event: TouchpadEvent) -> Seq<InputAction> {
    let moved: Seq<InputAction> = if !event.dx.zero_valued() || !event.dy.zero_valued() {
        seq![InputAction::MoveBy { dx: event.dx, dy: event.dy }]
    } else {
        Seq::empty()
    };
    let vertical: Seq<InputAction> = if !event.scroll_delta_y.zero_valued() {
        seq![InputAction::Scroll { amount: event.scroll_delta_y, axis: Axis::Vertical }]
    } else {
        Seq::empty()
    };
    let horizontal: Seq<InputAction> = if !event.scroll_delta_x.zero_valued() {
        seq![InputAction::Scroll { amount: event.scroll_delta_x, axis: Axis::Horizontal }]
    } else {
        Seq::empty()
    };
    let left: Seq<InputAction> = if event.is_left_click {
        seq![InputAction::Button { button: PointerButton::Left, direction: Direction::Click }]
    } else {
        Seq::empty()
    };
    let right: Seq<InputAction> = if event.is_right_click {
        seq![InputAction::Button { button: PointerButton::Right, direction: Direction::Click }]
    } else {
        Seq::empty()
    };
    moved + vertical + horizontal + left + right
}

/// What the input device is asked to do for a message: the actions of a
/// touchpad event, nothing for any other message.
pub open spec fn touchpad_actions(message: MessageView) -> Seq<InputAction> {
    match message {
        MessageView::TouchpadEvent(event) => gesture_actions(event),
        _ => Seq::empty(),
    }
}

/// Turns the touchpad events of a phone into pointer movements, scrolls and
/// clicks.
pub struct TouchpadModePlugin;

impl TouchpadModePlugin {
    /// Creates the handler.
    pub fn new() -> (plugin: TouchpadModePlugin)
        ensures
            plugin == TouchpadModePlugin,
    {
        TouchpadModePlugin
    }

    /// The handler's name.
    pub fn name(&self) -> (name: &'static str)
        ensures
            name@ == "touchpad-mode"@,
    {
        "touchpad-mode"
    }

    /// What the input device is to do for a message, in order.
    pub fn handle_message(&self, message: &Message, sender_id: &DeviceId) -> (actions: Vec<
        InputAction,
    >)
        ensures
            actions@ == touchpad_actions(message@),
    {
        let mut actions: Vec<InputAction> = Vec::new();
        match message {
            Message::TouchpadEvent(event) => {
                if !event.dx.is_zero() || !event.dy.is_zero() {
                    actions.push(InputAction::MoveBy { dx: event.dx, dy: event.dy });
                }
                if !event.scroll_delta_y.is_zero() {
                    actions.push(
                        InputAction::Scroll { amount: event.scroll_delta_y, axis: Axis::Vertical },
                    );
                }
                if !event.scroll_delta_x.is_zero() {
                    actions.push(
                        InputAction::Scroll {
                            amount: event.scroll_delta_x,
                            axis: Axis::Horizontal,
                        },
                    );
                }
                if event.is_left_click {
                    actions.push(
                        InputAction::Button {
                            button: PointerButton::Left,
                            direction: Direction::Click,
                        },
                    );
                }
                if event.is_right_click {
                    actions.push(
                        InputAction::Button {
                            button: PointerButton::Right,
                            direction: Direction::Click,
                        },
                    );
                }
            },
            _ => {},
        }
        assert(actions@ =~= touchpad_actions(message@));
        actions
    }
}

impl Default for TouchpadModePlugin {
    fn default() -> (plugin: TouchpadModePlugin)
        ensures
            plugin == TouchpadModePlugin,
    {
        TouchpadModePlugin::new()
    }
}

} // verus!
