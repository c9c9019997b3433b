//! What an input device can be asked to do: the keys, buttons and movements
//! that the handlers for keyboard, mouse, touchpad, media and slides ask for.

use vstd::prelude::*;
use crate::scalar::Scalar;

verus! {

/// A key of the input device.
#[derive(Debug, Clone, Copy, PartialEq, Eq, Structural)]
pub enum InputKey {
    /// The key that types the given character.
    Unicode(char),
    F1,
    F2,
    F3,
    F4,
    F5,
    F6,
    F7,
    F8,
    F9,
    F10,
    F11,
    F12,
    Escape,
    Tab,
    CapsLock,
    LShift,
    LControl,
    Alt,
    Space,
    RControl,
    RShift,
    Return,
    Backspace,
    Delete,
    LeftArrow,
    RightArrow,
    UpArrow,
    DownArrow,
    MediaPlayPause,
    MediaNextTrack,
    MediaPrevTrack,
    VolumeUp,
    VolumeDown,
    VolumeMute,
}

/// A button of the pointer.
#[derive(Debug, Clone, Copy, PartialEq, Eq, Structural)]
pub enum PointerButton {
    Left,
    Right,
    Middle,
}

/// What is done to a key or a button.
#[derive(Debug, Clone, Copy, PartialEq, Eq, Structural)]
pub enum Direction {
    /// It goes down.
    Press,
    /// It comes up.
    Release,
    /// It goes down and comes up.
    Click,
}

/// The axis of a scroll.
#[derive(Debug, Clone, Copy, PartialEq, Eq, Structural)]
pub enum Axis {
    Horizontal,
    Vertical,
}

/// One request to the input device. Amounts that come as scalars are cut
/// to whole numbers by whoever drives the device.
#[derive(Debug, Clone, Copy, PartialEq, Eq, Structural)]
pub enum InputAction {
    /// Press, release or click a key.
    Key { key: InputKey, direction: Direction },
    /// Move the pointer to a position on the screen.
    MoveTo { x: i32, y: i32 },
    /// Move the pointer by a distance.
    MoveBy { dx: Scalar, dy: Scalar },
    /// Press, release or click a button.
    Button { button: PointerButton, direction: Direction },
    /// Scroll by an amount along an axis.
    Scroll { amount: Scalar, axis: Axis },
}

} // verus!
