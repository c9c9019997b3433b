//! Keyboard, mouse and touchpad events as they travel in messages.

use vstd::prelude::*;
use vstd::string::StringExecFns;
use crate::scalar::Scalar;
use crate::text::{decimal, push_decimal};

verus! {

/// What happened to a key.
#[derive(Debug, Clone, Copy, PartialEq, Eq, Structural)]
pub enum KeyAction {
    /// The key went down.
    Press,
    /// The key came up.
    Release,
}

/// Keyboard key codes.
#[derive(Debug, Clone, Copy, PartialEq, Eq, Structural)]
pub enum KeyCode {
    A,
    B,
    C,
    D,
    E,
    F,
    G,
    H,
    I,
    J,
    K,
    L,
    M,
    N,
    O,
    P,
    Q,
    R,
    S,
    T,
    U,
    V,
    W,
    X,
    Y,
    Z,
    Key0,
    Key1,
    Key2,
    Key3,
    Key4,
    Key5,
    Key6,
    Key7,
    Key8,
    Key9,
    F1,
    F2,
    F3,
    F4,
    F5,
    F6,
    F7,
    F8,
    F9,
    F10,
    F11,
    F12,
    Escape,
    Tab,
    CapsLock,
    LeftShift,
    LeftControl,
    LeftAlt,
    Space,
    RightAlt,
    RightControl,
    RightShift,
    Enter,
    Backspace,
    Delete,
    ArrowLeft,
    ArrowRight,
    ArrowUp,
    ArrowDown,
    /// A key that has no name here, by its platform code.
    Unknown(u32),
}

impl KeyCode {
    /// The display label of a key: its name, a bare digit for the number
    /// keys, and `Unknown(n)` with the decimal code for an unnamed key.
    pub open spec fn label(self) -> Seq<char> {
        match self {
            KeyCode::A => "A"@,
            KeyCode::B => "B"@,
            KeyCode::C => "C"@,
            KeyCode::D => "D"@,
            KeyCode::E => "E"@,
            KeyCode::F => "F"@,
            KeyCode::G => "G"@,
            KeyCode::H => "H"@,
            KeyCode::I => "I"@,
            KeyCode::J => "J"@,
            KeyCode::K => "K"@,
            KeyCode::L => "L"@,
            KeyCode::M => "M"@,
            KeyCode::N => "N"@,
            KeyCode::O => "O"@,
            KeyCode::P => "P"@,
            KeyCode::Q => "Q"@,
            KeyCode::R => "R"@,
            KeyCode::S => "S"@,
            KeyCode::T => "T"@,
            KeyCode::U => "U"@,
            KeyCode::V => "V"@,
            KeyCode::W => "W"@,
            KeyCode::X => "X"@,
            KeyCode::Y => "Y"@,
            KeyCode::Z => "Z"@,
            KeyCode::Key0 => "0"@,
            KeyCode::Key1 => "1"@,
            KeyCode::Key2 => "2"@,
            KeyCode::Key3 => "3"@,
            KeyCode::Key4 => "4"@,
            KeyCode::Key5 => "5"@,
            KeyCode::Key6 => "6"@,
            KeyCode::Key7 => "7"@,
            KeyCode::Key8 => "8"@,
            KeyCode::Key9 => "9"@,
            KeyCode::F1 => "F1"@,
            KeyCode::F2 => "F2"@,
            KeyCode::F3 => "F3"@,
            KeyCode::F4 => "F4"@,
            KeyCode::F5 => "F5"@,
            KeyCode::F6 => "F6"@,
            KeyCode::F7 => "F7"@,
            KeyCode::F8 => "F8"@,
            KeyCode::F9 => "F9"@,
            KeyCode::F10 => "F10"@,
            KeyCode::F11 => "F11"@,
            KeyCode::F12 => "F12"@,
            KeyCode::Escape => "Escape"@,
            KeyCode::Tab => "Tab"@,
            KeyCode::CapsLock => "CapsLock"@,
            KeyCode::LeftShift => "LeftShift"@,
            KeyCode::LeftControl => "LeftControl"@,
            KeyCode::LeftAlt => "LeftAlt"@,
            KeyCode::Space => "Space"@,
            KeyCode::RightAlt => "RightAlt"@,
            KeyCode::RightControl => "RightControl"@,
            KeyCode::RightShift => "RightShift"@,
            KeyCode::Enter => "Enter"@,
            KeyCode::Backspace => "Backspace"@,
            KeyCode::Delete => "Delete"@,
            KeyCode::ArrowLeft => "ArrowLeft"@,
            KeyCode::ArrowRight => "ArrowRight"@,
            KeyCode::ArrowUp => "ArrowUp"@,
            KeyCode::ArrowDown => "ArrowDown"@,
            KeyCode::Unknown(code) => "Unknown("@ + decimal(code as nat) + ")"@,
        }
    }

    /// The display label of the key.
    pub fn to_string(&self) -> (text: String)
        ensures
            text@ == self.label(),
    {
        match self {
            KeyCode::A => String::from_str("A"),
            KeyCode::B => String::from_str("B"),
            KeyCode::C => String::from_str("C"),
            KeyCode::D => String::from_str("D"),
            KeyCode::E => String::from_str("E"),
            KeyCode::F => String::from_str("F"),
            KeyCode::G => String::from_str("G"),
            KeyCode::H => String::from_str("H"),
            KeyCode::I => String::from_str("I"),
            KeyCode::J => String::from_str("J"),
            KeyCode::K => String::from_str("K"),
            KeyCode::L => String::from_str("L"),
            KeyCode::M => String::from_str("M"),
            KeyCode::N => String::from_str("N"),
            KeyCode::O => String::from_str("O"),
            KeyCode::P => String::from_str("P"),
            KeyCode::Q => String::from_str("Q"),
            KeyCode::R => String::from_str("R"),
            KeyCode::S => String::from_str("S"),
            KeyCode::T => String::from_str("T"),
            KeyCode::U => String::from_str("U"),
            KeyCode::V => String::from_str("V"),
            KeyCode::W => String::from_str("W"),
            KeyCode::X => String::from_str("X"),
            KeyCode::Y => String::from_str("Y"),
            KeyCode::Z => String::from_str("Z"),
            KeyCode::Key0 => String::from_str("0"),
            KeyCode::Key1 => String::from_str("1"),
            KeyCode::Key2 => String::from_str("2"),
            KeyCode::Key3 => String::from_str("3"),
            KeyCode::Key4 => String::from_str("4"),
            KeyCode::Key5 => String::from_str("5"),
            KeyCode::Key6 => String::from_str("6"),
            KeyCode::Key7 => String::from_str("7"),
            KeyCode::Key8 => String::from_str("8"),
            KeyCode::Key9 => String::from_str("9"),
            KeyCode::F1 => String::from_str("F1"),
            KeyCode::F2 => String::from_str("F2"),
            KeyCode::F3 => String::from_str("F3"),
            KeyCode::F4 => String::from_str("F4"),
            KeyCode::F5 => String::from_str("F5"),
            KeyCode::F6 => String::from_str("F6"),
            KeyCode::F7 => String::from_str("F7"),
            KeyCode::F8 => String::from_str("F8"),
            KeyCode::F9 => String::from_str("F9"),
            KeyCode::F10 => String::from_str("F10"),
            KeyCode::F11 => String::from_str("F11"),
            KeyCode::F12 => String::from_str("F12"),
            KeyCode::Escape => String::from_str("Escape"),
            KeyCode::Tab => String::from_str("Tab"),
            KeyCode::CapsLock => String::from_str("CapsLock"),
            KeyCode::LeftShift => String::from_str("LeftShift"),
            KeyCode::LeftControl => String::from_str("LeftControl"),
            KeyCode::LeftAlt => String::from_str("LeftAlt"),
            KeyCode::Space => String::from_str("Space"),
            KeyCode::RightAlt => String::from_str("RightAlt"),
            KeyCode::RightControl => String::from_str("RightControl"),
            KeyCode::RightShift => String::from_str("RightShift"),
            KeyCode::Enter => String::from_str("Enter"),
            KeyCode::Backspace => String::from_str("Backspace"),
            KeyCode::Delete => String::from_str("Delete"),
            KeyCode::ArrowLeft => String::from_str("ArrowLeft"),
            KeyCode::ArrowRight => String::from_str("ArrowRight"),
            KeyCode::ArrowUp => String::from_str("ArrowUp"),
            KeyCode::ArrowDown => String::from_str("ArrowDown"),
            KeyCode::Unknown(code) => {
                let mut text = String::from_str("Unknown(");
                push_decimal(&mut text, *code as u64);
                text.append(")");
                text
            },
        }
    }
}

/// A key going down or coming up.
#[derive(Debug, Clone, Copy, PartialEq, Eq, Structural)]
pub struct KeyEvent {
    /// What happened to the key.
    pub action: KeyAction,
    /// The key.
    pub code: KeyCode,
}

impl KeyEvent {
    /// Creates a key event.
    pub fn new(action: KeyAction, code: KeyCode) -> (event: KeyEvent)
        ensures
            event == (KeyEvent { action, code }),
    {
        KeyEvent { action, code }
    }
}

/// What the mouse did.
#[derive(Debug, Clone, Copy, PartialEq, Eq, Structural)]
pub enum MouseAction {
    /// The pointer moved.
    Move,
    /// A button went down.
    Press,
    /// A button came up.
    Release,
    /// The wheel turned.
    Scroll,
}

/// A mouse button.
#[derive(Debug, Clone, Copy, PartialEq, Eq, Structural)]
pub enum MouseButton {
    Left,
    Right,
    /// The wheel button.
    Middle,
    /// Any further button, by number.
    Other(u32),
}

/// A mouse movement, click or scroll.
#[derive(Debug, Clone, Copy, PartialEq, Eq, Structural)]
pub struct MouseEvent {
    /// What the mouse did.
    pub action: MouseAction,
    /// Horizontal position.
    pub x: i32,
    /// Vertical position.
    pub y: i32,
    /// The button, for presses and releases.
    pub button: Option<MouseButton>,
    /// How far the wheel turned, for scrolls.
    pub scroll_delta: Option<Scalar>,
}

impl MouseEvent {
    /// A pointer movement to a position.
    pub fn movement(x: i32, y: i32) -> (event: MouseEvent)
        ensures
            event == (MouseEvent {
                action: MouseAction::Move,
                x,
                y,
                button: None,
                scroll_delta: None,
            }),
    {
        MouseEvent { action: MouseAction::Move, x, y, button: None, scroll_delta: None }
    }

    /// A button press at a position.
    pub fn button_press(x: i32, y: i32, button: MouseButton) -> (event: MouseEvent)
        ensures
            event == (MouseEvent {
                action: MouseAction::Press,
                x,
                y,
                button: Some(button),
                scroll_delta: None,
            }),
    {
        MouseEvent { action: MouseAction::Press, x, y, button: Some(button), scroll_delta: None }
    }

    /// A button release at a position.
    pub fn button_release(x: i32, y: i32, button: MouseButton) -> (event: MouseEvent)
        ensures
            event == (MouseEvent {
                action: MouseAction::Release,
                x,
                y,
                button: Some(button),
                scroll_delta: None,
            }),
    {
        MouseEvent { action: MouseAction::Release, x, y, button: Some(button), scroll_delta: None }
    }

    /// A wheel turn at a position.
    pub fn scroll(x: i32, y: i32, delta: Scalar) -> (event: MouseEvent)
        ensures
            event == (MouseEvent {
                action: MouseAction::Scroll,
                x,
                y,
                button: None,
                scroll_delta: Some(delta),
            }),
    {
        MouseEvent { action: MouseAction::Scroll, x, y, button: None, scroll_delta: Some(delta) }
    }
}

/// A touchpad gesture from a phone that serves as a touchpad.
#[derive(Debug, Clone, Copy, PartialEq, Eq, Structural)]
pub struct TouchpadEvent {
    /// Horizontal position, normalized to the pad's width.
    pub x: Scalar,
    /// Vertical position, normalized to the pad's height.
    pub y: Scalar,
    /// Horizontal movement.
    pub dx: Scalar,
    /// Vertical movement.
    pub dy: Scalar,
    /// Horizontal scroll.
    pub scroll_delta_x: Scalar,
    /// Vertical scroll.
    pub scroll_delta_y: Scalar,
    /// Whether this is a left click.
    pub is_left_click: bool,
    /// Whether this is a right click.
    pub is_right_click: bool,
}

impl TouchpadEvent {
    /// A movement: no scroll, no click.
    pub fn movement(x: Scalar, y: Scalar, dx: Scalar, dy: Scalar) -> (event: TouchpadEvent)
        ensures
            event == (TouchpadEvent {
                x,
                y,
                dx,
                dy,
                scroll_delta_x: Scalar { bits: 0 },
                scroll_delta_y: Scalar { bits: 0 },
                is_left_click: false,
                is_right_click: false,
            }),
    {
        TouchpadEvent {
            x,
            y,
            dx,
            dy,
            scroll_delta_x: Scalar::zero(),
            scroll_delta_y: Scalar::zero(),
            is_left_click: false,
            is_right_click: false,
        }
    }

    /// A scroll: no movement, no click.
    pub fn scroll(x: Scalar, y: Scalar, scroll_x: Scalar, scroll_y: Scalar) -> (event:
        TouchpadEvent)
        ensures
            event == (TouchpadEvent {
                x,
                y,
                dx: Scalar { bits: 0 },
                dy: Scalar { bits: 0 },
                scroll_delta_x: scroll_x,
                scroll_delta_y: scroll_y,
                is_left_click: false,
                is_right_click: false,
            }),
    {
        TouchpadEvent {
            x,
            y,
            dx: Scalar::zero(),
            dy: Scalar::zero(),
            scroll_delta_x: scroll_x,
            scroll_delta_y: scroll_y,
            is_left_click: false,
            is_right_click: false,
        }
    }

    /// A click: a right click if asked for, a left click otherwise.
    pub fn click(x: Scalar, y: Scalar, is_right_click: bool) -> (event: TouchpadEvent)
        ensures
            event == (TouchpadEvent {
                x,
                y,
                dx: Scalar { bits: 0 },
                dy: Scalar { bits: 0 },
                scroll_delta_x: Scalar { bits: 0 },
                scroll_delta_y: Scalar { bits: 0 },
                is_left_click: !is_right_click,
                is_right_click,
            }),
    {
        TouchpadEvent {
            x,
            y,
            dx: Scalar::zero(),
            dy: Scalar::zero(),
            scroll_delta_x: Scalar::zero(),
            scroll_delta_y: Scalar::zero(),
            is_left_click: !is_right_click,
            is_right_click,
        }
    }
}

} // verus!
