//! Keyboard and mouse input from peers.

use vstd::prelude::*;
use crate::device::DeviceId;
use crate::input::{KeyAction, KeyCode, MouseAction, MouseButton};
use crate::input_device::{Axis, Direction, InputAction, InputKey, PointerButton};
use crate::message::{Message, MessageView};

verus! {

/// The key of the input device that stands for a key code; none for a key
/// without a name.
pub open spec fn input_key_of(keycode: KeyCode) -> Option<InputKey> {
    match keycode {
        KeyCode::A => Some(InputKey::Unicode('a')),
        KeyCode::B => Some(InputKey::Unicode('b')),
        KeyCode::C => Some(InputKey::Unicode('c')),
        KeyCode::D => Some(InputKey::Unicode('d')),
        KeyCode::E => Some(InputKey::Unicode('e')),
        KeyCode::F => Some(InputKey::Unicode('f')),
        KeyCode::G => Some(InputKey::Unicode('g')),
        KeyCode::H => Some(InputKey::Unicode('h')),
        KeyCode::I => Some(InputKey::Unicode('i')),
        KeyCode::J => Some(InputKey::Unicode('j')),
        KeyCode::K => Some(InputKey::Unicode('k')),
        KeyCode::L => Some(InputKey::Unicode('l')),
        KeyCode::M => Some(InputKey::Unicode('m')),
        KeyCode::N => Some(InputKey::Unicode('n')),
        KeyCode::O => Some(InputKey::Unicode('o')),
        KeyCode::P => Some(InputKey::Unicode('p')),
        KeyCode::Q => Some(InputKey::Unicode('q')),
        KeyCode::R => Some(InputKey::Unicode('r')),
        KeyCode::S => Some(InputKey::Unicode('s')),
        KeyCode::T => Some(InputKey::Unicode('t')),
        KeyCode::U => Some(InputKey::Unicode('u')),
        KeyCode::V => Some(InputKey::Unicode('v')),
        KeyCode::W => Some(InputKey::Unicode('w')),
        KeyCode::X => Some(InputKey::Unicode('x')),
        KeyCode::Y => Some(InputKey::Unicode('y')),
        KeyCode::Z => Some(InputKey::Unicode('z')),
        KeyCode::Key0 => Some(InputKey::Unicode('0')),
        KeyCode::Key1 => Some(InputKey::Unicode('1')),
        KeyCode::Key2 => Some(InputKey::Unicode('2')),
        KeyCode::Key3 => Some(InputKey::Unicode('3')),
        KeyCode::Key4 => Some(InputKey::Unicode('4')),
        KeyCode::Key5 => Some(InputKey::Unicode('5')),
        KeyCode::Key6 => Some(InputKey::Unicode('6')),
        KeyCode::Key7 => Some(InputKey::Unicode('7')),
        KeyCode::Key8 => Some(InputKey::Unicode('8')),
        KeyCode::Key9 => Some(InputKey::Unicode('9')),
        KeyCode::F1 => Some(InputKey::F1),
        KeyCode::F2 => Some(InputKey::F2),
        KeyCode::F3 => Some(InputKey::F3),
        KeyCode::F4 => Some(InputKey::F4),
        KeyCode::F5 => Some(InputKey::F5),
        KeyCode::F6 => Some(InputKey::F6),
        KeyCode::F7 => Some(InputKey::F7),
        KeyCode::F8 => Some(InputKey::F8),
        KeyCode::F9 => Some(InputKey::F9),
        KeyCode::F10 => Some(InputKey::F10),
        KeyCode::F11 => Some(InputKey::F11),
        KeyCode::F12 => Some(InputKey::F12),
        KeyCode::Escape => Some(InputKey::Escape),
        KeyCode::Tab => Some(InputKey::Tab),
        KeyCode::CapsLock => Some(InputKey::CapsLock),
        KeyCode::LeftShift => Some(InputKey::LShift),
        KeyCode::LeftControl => Some(InputKey::LControl),
        KeyCode::LeftAlt => Some(InputKey::Alt),
        KeyCode::Space => Some(InputKey::Space),
        KeyCode::RightAlt => Some(InputKey::Alt),
        KeyCode::RightControl => Some(InputKey::RControl),
        KeyCode::RightShift => Some(InputKey::RShift),
        KeyCode::Enter => Some(InputKey::Return),
        KeyCode::Backspace => Some(InputKey::Backspace),
        KeyCode::Delete => Some(InputKey::Delete),
        KeyCode::ArrowLeft => Some(InputKey::LeftArrow),
        KeyCode::ArrowRight => Some(InputKey::RightArrow),
        KeyCode::ArrowUp => Some(InputKey::UpArrow),
        KeyCode::ArrowDown => Some(InputKey::DownArrow),
        KeyCode::Unknown(_) => None,
    }
}

/// The button of the pointer that stands for a mouse button: the left one
/// for every button beyond the three.
pub open spec fn pointer_button_of(button: MouseButton) -> PointerButton {
    match button {
        MouseButton::Left => PointerButton::Left,
        MouseButton::Right => PointerButton::Right,
        MouseButton::Middle => PointerButton::Middle,
        MouseButton::Other(_) => PointerButton::Left,
    }
}

/// What is done to a key for a key action.
pub open spec fn direction_of(action: KeyAction) -> Direction {
    match action {
        KeyAction::Press => Direction::Press,
        KeyAction::Release => Direction::Release,
    }
}

/// What the input device is asked to do for a message: a key event presses
/// or releases its key, if the key has a name; a mouse event moves the
/// pointer to its position, presses or releases its button, if it names one,
/// or scrolls vertically by its delta, if it has one. Nothing for any other
/// message.
pub open spec fn input_actions(message: MessageView) -> Seq<InputAction> {
    match message {
        MessageView::KeyEvent(event) => match input_key_of(event.code) {
            Some(key) => seq![InputAction::Key { key, direction: direction_of(event.action) }],
            None => Seq::empty(),
        },
        MessageView::MouseEvent(event) => match event.action {
            MouseAction::Move => seq![InputAction::MoveTo { x: event.x, y: event.y }],
            MouseAction::Press => match event.button {
                Some(button) => seq![
                    InputAction::Button {
                        button: pointer_button_of(button),
                        direction: Direction::Press,
                    },
                ],
                None => Seq::empty(),
            },
            MouseAction::Release => match event.button {
                Some(button) => seq![
                    InputAction::Button {
                        button: pointer_button_of(button),
                        direction: Direction::Release,
                    },
                ],
                None => Seq::empty(),
            },
            MouseAction::Scroll => match event.scroll_delta {
                Some(amount) => seq![InputAction::Scroll { amount, axis: Axis::Vertical }],
                None => Seq::empty(),
            },
        },
        _ => Seq::empty(),
    }
}

/// Turns the key and mouse events of peers into requests to the input device.
pub struct InputSharePlugin;

impl InputSharePlugin {
    /// Creates the handler.
    pub fn new() -> (plugin: InputSharePlugin)
        ensures
            plugin == InputSharePlugin,
    {
        InputSharePlugin
    }

    /// The handler's name.
    pub fn name(&self) -> (name: &'static str)
        ensures
            name@ == "input-share"@,
    {
        "input-share"
    }

    /// The key of the input device for a key code.
    pub fn keycode_to_enigo_key(&self, keycode: &KeyCode) -> (key: Option<InputKey>)
        ensures
            key == input_key_of(*keycode),
    {
        match keycode {
            KeyCode::A => Some(InputKey::Unicode('a')),
            KeyCode::B => Some(InputKey::Unicode('b')),
            KeyCode::C => Some(InputKey::Unicode('c')),
            KeyCode::D => Some(InputKey::Unicode('d')),
            KeyCode::E => Some(InputKey::Unicode('e')),
            KeyCode::F => Some(InputKey::Unicode('f')),
            KeyCode::G => Some(InputKey::Unicode('g')),
            KeyCode::H => Some(InputKey::Unicode('h')),
            KeyCode::I => Some(InputKey::Unicode('i')),
            KeyCode::J => Some(InputKey::Unicode('j')),
            KeyCode::K => Some(InputKey::Unicode('k')),
            KeyCode::L => Some(InputKey::Unicode('l')),
            KeyCode::M => Some(InputKey::Unicode('m')),
            KeyCode::N => Some(InputKey::Unicode('n')),
            KeyCode::O => Some(InputKey::Unicode('o')),
            KeyCode::P => Some(InputKey::Unicode('p')),
            KeyCode::Q => Some(InputKey::Unicode('q')),
            KeyCode::R => Some(InputKey::Unicode('r')),
            KeyCode::S => Some(InputKey::Unicode('s')),
            KeyCode::T => Some(InputKey::Unicode('t')),
            KeyCode::U => Some(InputKey::Unicode('u')),
            KeyCode::V => Some(InputKey::Unicode('v')),
            KeyCode::W => Some(InputKey::Unicode('w')),
            KeyCode::X => Some(InputKey::Unicode('x')),
            KeyCode::Y => Some(InputKey::Unicode('y')),
            KeyCode::Z => Some(InputKey::Unicode('z')),
            KeyCode::Key0 => Some(InputKey::Unicode('0')),
            KeyCode::Key1 => Some(InputKey::Unicode('1')),
            KeyCode::Key2 => Some(InputKey::Unicode('2')),
            KeyCode::Key3 => Some(InputKey::Unicode('3')),
            KeyCode::Key4 => Some(InputKey::Unicode('4')),
            KeyCode::Key5 => Some(InputKey::Unicode('5')),
            KeyCode::Key6 => Some(InputKey::Unicode('6')),
            KeyCode::Key7 => Some(InputKey::Unicode('7')),
            KeyCode::Key8 => Some(InputKey::Unicode('8')),
            KeyCode::Key9 => Some(InputKey::Unicode('9')),
            KeyCode::F1 => Some(InputKey::F1),
            KeyCode::F2 => Some(InputKey::F2),
            KeyCode::F3 => Some(InputKey::F3),
            KeyCode::F4 => Some(InputKey::F4),
            KeyCode::F5 => Some(InputKey::F5),
            KeyCode::F6 => Some(InputKey::F6),
            KeyCode::F7 => Some(InputKey::F7),
            KeyCode::F8 => Some(InputKey::F8),
            KeyCode::F9 => Some(InputKey::F9),
            KeyCode::F10 => Some(InputKey::F10),
            KeyCode::F11 => Some(InputKey::F11),
            KeyCode::F12 => Some(InputKey::F12),
            KeyCode::Escape => Some(InputKey::Escape),
            KeyCode::Tab => Some(InputKey::Tab),
            KeyCode::CapsLock => Some(InputKey::CapsLock),
            KeyCode::LeftShift => Some(InputKey::LShift),
            KeyCode::LeftControl => Some(InputKey::LControl),
            KeyCode::LeftAlt => Some(InputKey::Alt),
            KeyCode::Space => Some(InputKey::Space),
            KeyCode::RightAlt => Some(InputKey::Alt),
            KeyCode::RightControl => Some(InputKey::RControl),
            KeyCode::RightShift => Some(InputKey::RShift),
            KeyCode::Enter => Some(InputKey::Return),
            KeyCode::Backspace => Some(InputKey::Backspace),
            KeyCode::Delete => Some(InputKey::Delete),
            KeyCode::ArrowLeft => Some(InputKey::LeftArrow),
            KeyCode::ArrowRight => Some(InputKey::RightArrow),
            KeyCode::ArrowUp => Some(InputKey::UpArrow),
            KeyCode::ArrowDown => Some(InputKey::DownArrow),
            KeyCode::Unknown(_) => None,
        }
    }

    /// The button of the pointer for a mouse button.
    pub fn mouse_button_to_enigo(&self, button: &MouseButton) -> (pointer: PointerButton)
        ensures
            pointer == pointer_button_of(*button),
    {
        match button {
            MouseButton::Left => PointerButton::Left,
            MouseButton::Right => PointerButton::Right,
            MouseButton::Middle => PointerButton::Middle,
            MouseButton::Other(_) => PointerButton::Left,
        }
    }

    /// What the input device is to do for a message, in order.
    pub fn handle_message(&self, message: &Message, sender_id: &DeviceId) -> (actions: Vec<
        InputAction,
    >)
        ensures
            actions@ == input_actions(message@),
    {
        let mut actions: Vec<InputAction> = Vec::new();
        match message {
            Message::KeyEvent(key_event) => {
                if let Some(key) = self.keycode_to_enigo_key(&key_event.code) {
                    let direction = match key_event.action {
                        KeyAction::Press => Direction::Press,
                        KeyAction::Release => Direction::Release,
                    };
                    actions.push(InputAction::Key { key, direction });
                }
            },
            Message::MouseEvent(mouse_event) => {
                match mouse_event.action {
                    MouseAction::Move => {
                        actions.push(InputAction::MoveTo { x: mouse_event.x, y: mouse_event.y });
                    },
                    MouseAction::Press => {
                        if let Some(button) = &mouse_event.button {
                            let pointer = self.mouse_button_to_enigo(button);
                            actions.push(
                                InputAction::Button { button: pointer, direction: Direction::Press },
                            );
                        }
                    },
                    MouseAction::Release => {
                        if let Some(button) = &mouse_event.button {
                            let pointer = self.mouse_button_to_enigo(button);
                            actions.push(
                                InputAction::Button {
                                    button: pointer,
                                    direction: Direction::Release,
                                },
                            );
                        }
                    },
                    MouseAction::Scroll => {
                        if let Some(amount) = mouse_event.scroll_delta {
                            actions.push(InputAction::Scroll { amount, axis: Axis::Vertical });
                        }
                    },
                }
            },
            _ => {},
        }
        assert(actions@ =~= input_actions(message@));
        actions
    }
}

impl Default for InputSharePlugin {
    fn default() -> (plugin: InputSharePlugin)
        ensures
            plugin == InputSharePlugin,
    {
        InputSharePlugin::new()
    }
}

} // verus!
