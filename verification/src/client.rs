//! The command-line client's part of the protocol: how the words of a command
//! line become messages, and how a file is cut into chunks.

use vstd::prelude::*;
use vstd::string::StringExecFns;
use crate::control::{BatteryStatus, MediaControlAction, SlideControlAction};
use crate::file_image::{follows_on, in_sequence, joined, rearranges, Chunk};
use crate::input::{
    KeyAction, KeyCode, KeyEvent, MouseAction, MouseButton, MouseEvent, TouchpadEvent,
};
use crate::message::{message_type_name, Message, MessageView};
use crate::plugins::file_transfer::{chunk_messages, lemma_file_transfer_round_trip, Receiver};
use crate::scalar::{Scalar, HALF_BITS};
use crate::text::{join, lowercase_of, str_eq, to_lowercase};

verus! {

/// The key that a name stands for, where the name is in lower case.
pub open spec fn key_code_named(name: Seq<char>) -> Option<KeyCode> {
    if name == "a"@ {
        Some(KeyCode::A)
    } else if name == "b"@ {
        Some(KeyCode::B)
    } else if name == "c"@ {
        Some(KeyCode::C)
    } else if name == "d"@ {
        Some(KeyCode::D)
    } else if name == "e"@ {
        Some(KeyCode::E)
    } else if name == "f"@ {
        Some(KeyCode::F)
    } else if name == "g"@ {
        Some(KeyCode::G)
    } else if name == "h"@ {
        Some(KeyCode::H)
    } else if name == "i"@ {
        Some(KeyCode::I)
    } else if name == "j"@ {
        Some(KeyCode::J)
    } else if name == "k"@ {
        Some(KeyCode::K)
    } else if name == "l"@ {
        Some(KeyCode::L)
    } else if name == "m"@ {
        Some(KeyCode::M)
    } else if name == "n"@ {
        Some(KeyCode::N)
    } else if name == "o"@ {
        Some(KeyCode::O)
    } else if name == "p"@ {
        Some(KeyCode::P)
    } else if name == "q"@ {
        Some(KeyCode::Q)
    } else if name == "r"@ {
        Some(KeyCode::R)
    } else if name == "s"@ {
        Some(KeyCode::S)
    } else if name == "t"@ {
        Some(KeyCode::T)
    } else if name == "u"@ {
        Some(KeyCode::U)
    } else if name == "v"@ {
        Some(KeyCode::V)
    } else if name == "w"@ {
        Some(KeyCode::W)
    } else if name == "x"@ {
        Some(KeyCode::X)
    } else if name == "y"@ {
        Some(KeyCode::Y)
    } else if name == "z"@ {
        Some(KeyCode::Z)
    } else if name == "0"@ {
        Some(KeyCode::Key0)
    } else if name == "1"@ {
        Some(KeyCode::Key1)
    } else if name == "2"@ {
        Some(KeyCode::Key2)
    } else if name == "3"@ {
        Some(KeyCode::Key3)
    } else if name == "4"@ {
        Some(KeyCode::Key4)
    } else if name == "5"@ {
        Some(KeyCode::Key5)
    } else if name == "6"@ {
        Some(KeyCode::Key6)
    } else if name == "7"@ {
        Some(KeyCode::Key7)
    } else if name == "8"@ {
        Some(KeyCode::Key8)
    } else if name == "9"@ {
        Some(KeyCode::Key9)
    } else if name == "space"@ {
        Some(KeyCode::Space)
    } else if name == "enter"@ {
        Some(KeyCode::Enter)
    } else if name == "escape"@ {
        Some(KeyCode::Escape)
    } else if name == "tab"@ {
        Some(KeyCode::Tab)
    } else if name == "shift"@ || name == "leftshift"@ {
        Some(KeyCode::LeftShift)
    } else if name == "ctrl"@ || name == "leftctrl"@ || name == "leftcontrol"@ {
        Some(KeyCode::LeftControl)
    } else if name == "alt"@ || name == "leftalt"@ {
        Some(KeyCode::LeftAlt)
    } else if name == "rightshift"@ {
        Some(KeyCode::RightShift)
    } else if name == "rightctrl"@ || name == "rightcontrol"@ {
        Some(KeyCode::RightControl)
    } else if name == "rightalt"@ {
        Some(KeyCode::RightAlt)
    } else if name == "backspace"@ {
        Some(KeyCode::Backspace)
    } else if name == "delete"@ {
        Some(KeyCode::Delete)
    } else if name == "capslock"@ {
        Some(KeyCode::CapsLock)
    } else if name == "f1"@ {
        Some(KeyCode::F1)
    } else if name == "f2"@ {
        Some(KeyCode::F2)
    } else if name == "f3"@ {
        Some(KeyCode::F3)
    } else if name == "f4"@ {
        Some(KeyCode::F4)
    } else if name == "f5"@ {
        Some(KeyCode::F5)
    } else if name == "f6"@ {
        Some(KeyCode::F6)
    } else if name == "f7"@ {
        Some(KeyCode::F7)
    } else if name == "f8"@ {
        Some(KeyCode::F8)
    } else if name == "f9"@ {
        Some(KeyCode::F9)
    } else if name == "f10"@ {
        Some(KeyCode::F10)
    } else if name == "f11"@ {
        Some(KeyCode::F11)
    } else if name == "f12"@ {
        Some(KeyCode::F12)
    } else if name == "arrow_left"@ || name == "arrowleft"@ || name == "left"@ {
        Some(KeyCode::ArrowLeft)
    } else if name == "arrow_right"@ || name == "arrowright"@ || name == "right"@ {
        Some(KeyCode::ArrowRight)
    } else if name == "arrow_up"@ || name == "arrowup"@ || name == "up"@ {
        Some(KeyCode::ArrowUp)
    } else if name == "arrow_down"@ || name == "arrowdown"@ || name == "down"@ {
        Some(KeyCode::ArrowDown)
    } else {
        None
    }
}

/// The mouse button that a name stands for, where the name is in lower case.
pub open spec fn mouse_button_named(name: Seq<char>) -> Option<MouseButton> {
    if name == "left"@ {
        Some(MouseButton::Left)
    } else if name == "right"@ {
        Some(MouseButton::Right)
    } else if name == "middle"@ {
        Some(MouseButton::Middle)
    } else {
        None
    }
}

/// The slide command that a name stands for, where the name is in lower case.
pub open spec fn slide_action_named(name: Seq<char>) -> Option<SlideControlAction> {
    if name == "start"@ || name == "startpresentation"@ {
        Some(SlideControlAction::StartPresentation)
    } else if name == "nextslide"@ || name == "next"@ {
        Some(SlideControlAction::NextSlide)
    } else if name == "prevslide"@ || name == "previousslide"@ || name == "prev"@ || name == "previous"@ {
        Some(SlideControlAction::PreviousSlide)
    } else if name == "stop"@ || name == "end"@ || name == "endpresentation"@ {
        Some(SlideControlAction::EndPresentation)
    } else {
        None
    }
}

/// The key that a lower-case name stands for, if it names one.
pub fn key_code_from_name(name: &str) -> (code: Option<KeyCode>)
    ensures
        code == key_code_named(name@),
{
    if str_eq(name, "a") {
        Some(KeyCode::A)
    } else if str_eq(name, "b") {
        Some(KeyCode::B)
    } else if str_eq(name, "c") {
        Some(KeyCode::C)
    } else if str_eq(name, "d") {
        Some(KeyCode::D)
    } else if str_eq(name, "e") {
        Some(KeyCode::E)
    } else if str_eq(name, "f") {
        Some(KeyCode::F)
    } else if str_eq(name, "g") {
        Some(KeyCode::G)
    } else if str_eq(name, "h") {
        Some(KeyCode::H)
    } else if str_eq(name, "i") {
        Some(KeyCode::I)
    } else if str_eq(name, "j") {
        Some(KeyCode::J)
    } else if str_eq(name, "k") {
        Some(KeyCode::K)
    } else if str_eq(name, "l") {
        Some(KeyCode::L)
    } else if str_eq(name, "m") {
        Some(KeyCode::M)
    } else if str_eq(name, "n") {
        Some(KeyCode::N)
    } else if str_eq(name, "o") {
        Some(KeyCode::O)
    } else if str_eq(name, "p") {
        Some(KeyCode::P)
    } else if str_eq(name, "q") {
        Some(KeyCode::Q)
    } else if str_eq(name, "r") {
        Some(KeyCode::R)
    } else if str_eq(name, "s") {
        Some(KeyCode::S)
    } else if str_eq(name, "t") {
        Some(KeyCode::T)
    } else if str_eq(name, "u") {
        Some(KeyCode::U)
    } else if str_eq(name, "v") {
        Some(KeyCode::V)
    } else if str_eq(name, "w") {
        Some(KeyCode::W)
    } else if str_eq(name, "x") {
        Some(KeyCode::X)
    } else if str_eq(name, "y") {
        Some(KeyCode::Y)
    } else if str_eq(name, "z") {
        Some(KeyCode::Z)
    } else if str_eq(name, "0") {
        Some(KeyCode::Key0)
    } else if str_eq(name, "1") {
        Some(KeyCode::Key1)
    } else if str_eq(name, "2") {
        Some(KeyCode::Key2)
    } else if str_eq(name, "3") {
        Some(KeyCode::Key3)
    } else if str_eq(name, "4") {
        Some(KeyCode::Key4)
    } else if str_eq(name, "5") {
        Some(KeyCode::Key5)
    } else if str_eq(name, "6") {
        Some(KeyCode::Key6)
    } else if str_eq(name, "7") {
        Some(KeyCode::Key7)
    } else if str_eq(name, "8") {
        Some(KeyCode::Key8)
    } else if str_eq(name, "9") {
        Some(KeyCode::Key9)
    } else if str_eq(name, "space") {
        Some(KeyCode::Space)
    } else if str_eq(name, "enter") {
        Some(KeyCode::Enter)
    } else if str_eq(name, "escape") {
        Some(KeyCode::Escape)
    } else if str_eq(name, "tab") {
        Some(KeyCode::Tab)
    } else if str_eq(name, "shift") || str_eq(name, "leftshift") {
        Some(KeyCode::LeftShift)
    } else if str_eq(name, "ctrl") || str_eq(name, "leftctrl") || str_eq(name, "leftcontrol") {
        Some(KeyCode::LeftControl)
    } else if str_eq(name, "alt") || str_eq(name, "leftalt") {
        Some(KeyCode::LeftAlt)
    } else if str_eq(name, "rightshift") {
        Some(KeyCode::RightShift)
    } else if str_eq(name, "rightctrl") || str_eq(name, "rightcontrol") {
        Some(KeyCode::RightControl)
    } else if str_eq(name, "rightalt") {
        Some(KeyCode::RightAlt)
    } else if str_eq(name, "backspace") {
        Some(KeyCode::Backspace)
    } else if str_eq(name, "delete") {
        Some(KeyCode::Delete)
    } else if str_eq(name, "capslock") {
        Some(KeyCode::CapsLock)
    } else if str_eq(name, "f1") {
        Some(KeyCode::F1)
    } else if str_eq(name, "f2") {
        Some(KeyCode::F2)
    } else if str_eq(name, "f3") {
        Some(KeyCode::F3)
    } else if str_eq(name, "f4") {
        Some(KeyCode::F4)
    } else if str_eq(name, "f5") {
        Some(KeyCode::F5)
    } else if str_eq(name, "f6") {
        Some(KeyCode::F6)
    } else if str_eq(name, "f7") {
        Some(KeyCode::F7)
    } else if str_eq(name, "f8") {
        Some(KeyCode::F8)
    } else if str_eq(name, "f9") {
        Some(KeyCode::F9)
    } else if str_eq(name, "f10") {
        Some(KeyCode::F10)
    } else if str_eq(name, "f11") {
        Some(KeyCode::F11)
    } else if str_eq(name, "f12") {
        Some(KeyCode::F12)
    } else if str_eq(name, "arrow_left") || str_eq(name, "arrowleft") || str_eq(name, "left") {
        Some(KeyCode::ArrowLeft)
    } else if str_eq(name, "arrow_right") || str_eq(name, "arrowright") || str_eq(name, "right") {
        Some(KeyCode::ArrowRight)
    } else if str_eq(name, "arrow_up") || str_eq(name, "arrowup") || str_eq(name, "up") {
        Some(KeyCode::ArrowUp)
    } else if str_eq(name, "arrow_down") || str_eq(name, "arrowdown") || str_eq(name, "down") {
        Some(KeyCode::ArrowDown)
    } else {
        None
    }
}

/// The mouse button that a lower-case name stands for, if it names one.
pub fn mouse_button_from_name(name: &str) -> (button: Option<MouseButton>)
    ensures
        button == mouse_button_named(name@),
{
    if str_eq(name, "left") {
        Some(MouseButton::Left)
    } else if str_eq(name, "right") {
        Some(MouseButton::Right)
    } else if str_eq(name, "middle") {
        Some(MouseButton::Middle)
    } else {
        None
    }
}

/// The slide command that a lower-case name stands for, if it names one.
pub fn slide_action_from_name(name: &str) -> (action: Option<SlideControlAction>)
    ensures
        action == slide_action_named(name@),
{
    if str_eq(name, "start") || str_eq(name, "startpresentation") {
        Some(SlideControlAction::StartPresentation)
    } else if str_eq(name, "nextslide") || str_eq(name, "next") {
        Some(SlideControlAction::NextSlide)
    } else if str_eq(name, "prevslide") || str_eq(name, "previousslide") || str_eq(name, "prev") || str_eq(name, "previous") {
        Some(SlideControlAction::PreviousSlide)
    } else if str_eq(name, "stop") || str_eq(name, "end") || str_eq(name, "endpresentation") {
        Some(SlideControlAction::EndPresentation)
    } else {
        None
    }
}

/// What reading a key name comes to, given the name in lower case and as it
/// was written: the key, or the complaint, which quotes the name as written.
pub open spec fn key_code_read(lowered: Seq<char>, written: Seq<char>) -> Result<KeyCode, Seq<char>> {
    match key_code_named(lowered) {
        Some(code) => Ok(code),
        None => Err("Unknown key code: "@ + written),
    }
}

/// What reading the name of a mouse button comes to.
pub open spec fn mouse_button_read(lowered: Seq<char>, written: Seq<char>) -> Result<
    MouseButton,
    Seq<char>,
> {
    match mouse_button_named(lowered) {
        Some(button) => Ok(button),
        None => Err("Unknown mouse button: "@ + written),
    }
}

/// What reading the name of a slide command comes to.
pub open spec fn slide_action_read(lowered: Seq<char>, written: Seq<char>) -> Result<
    SlideControlAction,
    Seq<char>,
> {
    match slide_action_named(lowered) {
        Some(action) => Ok(action),
        None => Err("Unknown slide action: "@ + written),
    }
}

/// What a reading comes to, as plain values.
pub open spec fn read<T>(parsed: Result<T, String>) -> Result<T, Seq<char>> {
    match parsed {
        Ok(value) => Ok(value),
        Err(reason) => Err(reason@),
    }
}

/// Reads a key name that was brought to lower case.
pub fn read_key_code(lowered: &str, written: &str) -> (parsed: Result<KeyCode, String>)
    ensures
        read(parsed) == key_code_read(lowered@, written@),
{
    match key_code_from_name(lowered) {
        Some(code) => Ok(code),
        None => Err(join("Unknown key code: ", written)),
    }
}

/// Reads the name of a mouse button that was brought to lower case.
pub fn read_mouse_button(lowered: &str, written: &str) -> (parsed: Result<MouseButton, String>)
    ensures
        read(parsed) == mouse_button_read(lowered@, written@),
{
    match mouse_button_from_name(lowered) {
        Some(button) => Ok(button),
        None => Err(join("Unknown mouse button: ", written)),
    }
}

/// Reads the name of a slide command that was brought to lower case.
pub fn read_slide_action(lowered: &str, written: &str) -> (parsed: Result<
    SlideControlAction,
    String,
>)
    ensures
        read(parsed) == slide_action_read(lowered@, written@),
{
    match slide_action_from_name(lowered) {
        Some(action) => Ok(action),
        None => Err(join("Unknown slide action: ", written)),
    }
}

/// Reads the name of a key, in any mix of upper and lower case.
pub fn parse_key_code(key_str: &str) -> (parsed: Result<KeyCode, String>)
    ensures
        read(parsed) == key_code_read(lowercase_of(key_str@), key_str@),
{
    let name = to_lowercase(key_str);
    read_key_code(name.as_str(), key_str)
}

/// Reads the name of a mouse button, in any mix of upper and lower case.
pub fn parse_mouse_button(button_str: &str) -> (parsed: Result<MouseButton, String>)
    ensures
        read(parsed) == mouse_button_read(lowercase_of(button_str@), button_str@),
{
    let name = to_lowercase(button_str);
    read_mouse_button(name.as_str(), button_str)
}

/// Reads the name of a slide command, in any mix of upper and lower case.
pub fn parse_slide_action(action_str: &str) -> (parsed: Result<SlideControlAction, String>)
    ensures
        read(parsed) == slide_action_read(lowercase_of(action_str@), action_str@),
{
    let name = to_lowercase(action_str);
    read_slide_action(name.as_str(), action_str)
}

/// What the client says of a key action that it does not know.
pub const INVALID_KEY_ACTION: &'static str = "Invalid key action. Use 'press' or 'release'.";

/// What the client says of a mouse action that it does not know.
pub const INVALID_MOUSE_ACTION: &'static str =
    "Invalid mouse action. Use 'move', 'press', 'release', or 'scroll'.";

/// What the client says of a press without a button.
pub const PRESS_NEEDS_BUTTON: &'static str = "Mouse button required for press action";

/// What the client says of a release without a button.
pub const RELEASE_NEEDS_BUTTON: &'static str = "Mouse button required for release action";

/// What the client says of a scroll without a delta.
pub const SCROLL_NEEDS_DELTA: &'static str = "Scroll delta required for scroll action";

/// What the client says of a file without content.
pub const EMPTY_FILE: &'static str = "Cannot send empty file";

/// How many bytes of a file the client sends in one chunk.
pub const CLIENT_CHUNK_SIZE: usize = 8192;

/// The key action that a word stands for. The words are taken as written.
pub open spec fn key_action_named(word: Seq<char>) -> Option<KeyAction> {
    if word == "press"@ {
        Some(KeyAction::Press)
    } else if word == "release"@ {
        Some(KeyAction::Release)
    } else {
        None
    }
}

/// The mouse action that a word stands for. The words are taken as written.
pub open spec fn mouse_action_named(word: Seq<char>) -> Option<MouseAction> {
    if word == "move"@ {
        Some(MouseAction::Move)
    } else if word == "press"@ {
        Some(MouseAction::Press)
    } else if word == "release"@ {
        Some(MouseAction::Release)
    } else if word == "scroll"@ {
        Some(MouseAction::Scroll)
    } else {
        None
    }
}

/// The media command that a word stands for. The words are taken as written.
pub open spec fn media_action_named(word: Seq<char>) -> Option<MediaControlAction> {
    if word == "play"@ {
        Some(MediaControlAction::Play)
    } else if word == "pause"@ {
        Some(MediaControlAction::Pause)
    } else if word == "playpause"@ {
        Some(MediaControlAction::PlayPause)
    } else if word == "next"@ {
        Some(MediaControlAction::Next)
    } else if word == "previous"@ {
        Some(MediaControlAction::Previous)
    } else if word == "volumeup"@ {
        Some(MediaControlAction::VolumeUp)
    } else if word == "volumedown"@ {
        Some(MediaControlAction::VolumeDown)
    } else if word == "togglemute"@ {
        Some(MediaControlAction::ToggleMute)
    } else {
        None
    }
}

/// What a command line for a key event comes to: the message, or what is
/// wrong with the words. The action is looked at first.
pub open spec fn key_event_for(action: Seq<char>, key_code: Seq<char>) -> Result<
    MessageView,
    Seq<char>,
> {
    match key_action_named(action) {
        None => Err(INVALID_KEY_ACTION@),
        Some(key_action) => match key_code_named(lowercase_of(key_code)) {
            None => Err("Unknown key code: "@ + key_code),
            Some(code) => Ok(MessageView::KeyEvent(KeyEvent { action: key_action, code })),
        },
    }
}

/// What a checked result comes to, as plain values.
pub open spec fn built(result: Result<Message, String>) -> Result<MessageView, Seq<char>> {
    match result {
        Ok(message) => Ok(message@),
        Err(reason) => Err(reason@),
    }
}

/// The message for a key event, from the words of the command line.
pub fn key_event_message(action: &str, key_code: &str) -> (result: Result<Message, String>)
    ensures
        built(result) == key_event_for(action@, key_code@),
{
    let key_action = if str_eq(action, "press") {
        KeyAction::Press
    } else if str_eq(action, "release") {
        KeyAction::Release
    } else {
        return Err(String::from_str(INVALID_KEY_ACTION));
    };
    match parse_key_code(key_code) {
        Ok(code) => Ok(Message::KeyEvent(KeyEvent::new(key_action, code))),
        Err(reason) => Err(reason),
    }
}

/// The text of an optional word.
pub open spec fn word_of(word: Option<&str>) -> Option<Seq<char>> {
    match word {
        Some(text) => Some(text@),
        None => None,
    }
}

/// What a command line for a mouse event comes to. The action is looked at
/// first, then the button, if one is named, whatever the action; then what
/// the action needs: a press and a release need a button, a scroll needs a
/// delta.
pub open spec fn mouse_event_for(
    action: Seq<char>,
    x: i32,
    y: i32,
    button: Option<Seq<char>>,
    scroll_delta: Option<Scalar>,
) -> Result<MessageView, Seq<char>> {
    match mouse_action_named(action) {
        None => Err(INVALID_MOUSE_ACTION@),
        Some(mouse_action) => {
            let named: Option<MouseButton> = match button {
                Some(word) => mouse_button_named(lowercase_of(word)),
                None => None,
            };
            if button is Some && named is None {
                Err("Unknown mouse button: "@ + button->0)
            } else {
                match mouse_action {
                    MouseAction::Move => Ok(
                        MessageView::MouseEvent(
                            MouseEvent {
                                action: MouseAction::Move,
                                x,
                                y,
                                button: None,
                                scroll_delta: None,
                            },
                        ),
                    ),
                    MouseAction::Press => match named {
                        Some(pressed) => Ok(
                            MessageView::MouseEvent(
                                MouseEvent {
                                    action: MouseAction::Press,
                                    x,
                                    y,
                                    button: Some(pressed),
                                    scroll_delta: None,
                                },
                            ),
                        ),
                        None => Err(PRESS_NEEDS_BUTTON@),
                    },
                    MouseAction::Release => match named {
                        Some(released) => Ok(
                            MessageView::MouseEvent(
                                MouseEvent {
                                    action: MouseAction::Release,
                                    x,
                                    y,
                                    button: Some(released),
                                    scroll_delta: None,
                                },
                            ),
                        ),
                        None => Err(RELEASE_NEEDS_BUTTON@),
                    },
                    MouseAction::Scroll => match scroll_delta {
                        Some(delta) => Ok(
                            MessageView::MouseEvent(
                                MouseEvent {
                                    action: MouseAction::Scroll,
                                    x,
                                    y,
                                    button: None,
                                    scroll_delta: Some(delta),
                                },
                            ),
                        ),
                        None => Err(SCROLL_NEEDS_DELTA@),
                    },
                }
            }
        },
    }
}

/// The message for a mouse event, from the words of the command line.
pub fn mouse_event_message(
    action: &str,
    x: i32,
    y: i32,
    button: Option<&str>,
    scroll_delta: Option<Scalar>,
) -> (result: Result<Message, String>)
    ensures
        built(result) == mouse_event_for(action@, x, y, word_of(button), scroll_delta),
{
    let mouse_action = if str_eq(action, "move") {
        MouseAction::Move
    } else if str_eq(action, "press") {
        MouseAction::Press
    } else if str_eq(action, "release") {
        MouseAction::Release
    } else if str_eq(action, "scroll") {
        MouseAction::Scroll
    } else {
        return Err(String::from_str(INVALID_MOUSE_ACTION));
    };
    let mouse_button: Option<MouseButton> = match button {
        Some(word) => match parse_mouse_button(word) {
            Ok(named) => Some(named),
            Err(reason) => {
                return Err(reason);
            },
        },
        None => None,
    };
    match mouse_action {
        MouseAction::Move => Ok(Message::MouseEvent(MouseEvent::movement(x, y))),
        MouseAction::Press => match mouse_button {
            Some(pressed) => Ok(Message::MouseEvent(MouseEvent::button_press(x, y, pressed))),
            None => Err(String::from_str(PRESS_NEEDS_BUTTON)),
        },
        MouseAction::Release => match mouse_button {
            Some(released) => Ok(Message::MouseEvent(MouseEvent::button_release(x, y, released))),
            None => Err(String::from_str(RELEASE_NEEDS_BUTTON)),
        },
        MouseAction::Scroll => match scroll_delta {
            Some(delta) => Ok(Message::MouseEvent(MouseEvent::scroll(x, y, delta))),
            None => Err(String::from_str(SCROLL_NEEDS_DELTA)),
        },
    }
}

/// Reads the name of a media command, as written.
pub fn parse_media_action(action: &str) -> (parsed: Result<MediaControlAction, String>)
    ensures
        match media_action_named(action@) {
            Some(command) => parsed == Ok::<MediaControlAction, String>(command),
            None => parsed matches Err(reason) && reason@ == "Invalid media control action: "@
                + action@,
        },
{
    if str_eq(action, "play") {
        Ok(MediaControlAction::Play)
    } else if str_eq(action, "pause") {
        Ok(MediaControlAction::Pause)
    } else if str_eq(action, "playpause") {
        Ok(MediaControlAction::PlayPause)
    } else if str_eq(action, "next") {
        Ok(MediaControlAction::Next)
    } else if str_eq(action, "previous") {
        Ok(MediaControlAction::Previous)
    } else if str_eq(action, "volumeup") {
        Ok(MediaControlAction::VolumeUp)
    } else if str_eq(action, "volumedown") {
        Ok(MediaControlAction::VolumeDown)
    } else if str_eq(action, "togglemute") {
        Ok(MediaControlAction::ToggleMute)
    } else {
        Err(join("Invalid media control action: ", action))
    }
}

/// The message for a media command, from the word of the command line.
pub fn media_control_message(action: &str) -> (result: Result<Message, String>)
    ensures
        built(result) == match media_action_named(action@) {
            Some(command) => Ok::<MessageView, Seq<char>>(
                MessageView::MediaControl { action: command },
            ),
            None => Err::<MessageView, Seq<char>>("Invalid media control action: "@ + action@),
        },
{
    match parse_media_action(action) {
        Ok(command) => Ok(Message::MediaControl { action: command }),
        Err(reason) => Err(reason),
    }
}

/// The message for a slide command, from the word of the command line.
pub fn slide_control_message(action: &str) -> (result: Result<Message, String>)
    ensures
        built(result) == match slide_action_named(lowercase_of(action@)) {
            Some(command) => Ok::<MessageView, Seq<char>>(MessageView::SlideControl(command)),
            None => Err::<MessageView, Seq<char>>("Unknown slide action: "@ + action@),
        },
{
    match parse_slide_action(action) {
        Ok(command) => Ok(Message::SlideControl(command)),
        Err(reason) => Err(reason),
    }
}

/// The message for a notification.
pub fn notification_message(title: &str, body: &str, app_name: Option<&str>) -> (message: Message)
    ensures
        message@ == (MessageView::Notification {
            title: title@,
            body: body@,
            app_name: word_of(app_name),
        }),
{
    let app = match app_name {
        Some(name) => Some(String::from_str(name)),
        None => None,
    };
    Message::Notification { title: String::from_str(title), body: String::from_str(body), app_name: app }
}

/// The message for a remote command.
pub fn remote_command_message(command: &str, args: Vec<String>) -> (message: Message)
    ensures
        message@ == (MessageView::RemoteCommand { command: command@, args: args.deep_view() }),
{
    Message::RemoteCommand { command: String::from_str(command), args }
}

/// The message that asks a peer for its battery status: a report of no
/// charge that is not charging stands for the question.
pub fn battery_query() -> (message: Message)
    ensures
        message@ == MessageView::BatteryStatus(
            BatteryStatus { charge: Scalar { bits: 0 }, is_charging: false },
        ),
{
    Message::BatteryStatus(BatteryStatus { charge: Scalar::zero(), is_charging: false })
}

/// The touchpad event that the words of a command line stand for: a click,
/// if one is asked for, and a right click if that is asked for; else a
/// scroll, if one of the scroll deltas is not zero; else a movement. The
/// position is the middle of the pad.
pub open spec fn touchpad_event_for(
    dx: Scalar,
    dy: Scalar,
    scroll_delta_x: Scalar,
    scroll_delta_y: Scalar,
    left_click: bool,
    right_click: bool,
) -> TouchpadEvent {
    let middle = Scalar { bits: HALF_BITS };
    let zero = Scalar { bits: 0 };
    if left_click || right_click {
        TouchpadEvent {
            x: middle,
            y: middle,
            dx: zero,
            dy: zero,
            scroll_delta_x: zero,
            scroll_delta_y: zero,
            is_left_click: !right_click,
            is_right_click: right_click,
        }
    } else if !scroll_delta_x.zero_valued() || !scroll_delta_y.zero_valued() {
        TouchpadEvent {
            x: middle,
            y: middle,
            dx: zero,
            dy: zero,
            scroll_delta_x,
            scroll_delta_y,
            is_left_click: false,
            is_right_click: false,
        }
    } else {
        TouchpadEvent {
            x: middle,
            y: middle,
            dx,
            dy,
            scroll_delta_x: zero,
            scroll_delta_y: zero,
            is_left_click: false,
            is_right_click: false,
        }
    }
}

/// The message for a touchpad event, from the words of the command line.
pub fn touchpad_event_message(
    dx: Scalar,
    dy: Scalar,
    scroll_delta_x: Scalar,
    scroll_delta_y: Scalar,
    left_click: bool,
    right_click: bool,
) -> (message: Message)
    ensures
        message@ == MessageView::TouchpadEvent(
            touchpad_event_for(dx, dy, scroll_delta_x, scroll_delta_y, left_click, right_click),
        ),
{
    let event = if left_click || right_click {
        TouchpadEvent::click(Scalar::half(), Scalar::half(), right_click)
    } else if !scroll_delta_x.is_zero() || !scroll_delta_y.is_zero() {
        TouchpadEvent::scroll(Scalar::half(), Scalar::half(), scroll_delta_x, scroll_delta_y)
    } else {
        TouchpadEvent::movement(Scalar::half(), Scalar::half(), dx, dy)
    };
    Message::TouchpadEvent(event)
}

/// How a reply compares with what was asked for.
#[derive(Debug, Clone, Copy, PartialEq, Eq, Structural)]
pub enum ReplyStatus {
    /// The reply is of the kind asked for.
    Expected,
    /// There is a reply, of another kind.
    Unexpected,
    /// There is no reply.
    Missing,
}

/// Holds a reply against the kind of message that was asked for.
pub fn judge_reply(reply: &Option<Message>, kind: &str) -> (status: ReplyStatus)
    ensures
        status == match *reply {
            Some(message) => if message@.kind_name() == kind@ {
                ReplyStatus::Expected
            } else {
                ReplyStatus::Unexpected
            },
            None => ReplyStatus::Missing,
        },
{
    match reply {
        Some(message) => {
            if str_eq(message_type_name(message), kind) {
                ReplyStatus::Expected
            } else {
                ReplyStatus::Unexpected
            }
        },
        None => ReplyStatus::Missing,
    }
}

/// The sending side of a file transfer: the file is announced, goes out in
/// chunks that follow one another, and is ended.
pub struct FileSender {
    file_name: String,
    file_size: u64,
    bytes_sent: u64,
}

/// The share of a file that was sent, in percent, rounded down.
pub open spec fn percent_sent(sent: nat, size: nat) -> nat {
    if (sent * 100) / size > u64::MAX {
        u64::MAX as nat
    } else {
        (sent * 100) / size
    }
}

impl FileSender {
    #[verifier::type_invariant]
    spec fn well_formed(&self) -> bool {
        self.file_size > 0
    }

    /// The name under which the file is sent.
    pub closed spec fn name(&self) -> Seq<char> {
        self.file_name@
    }

    /// The size of the file, as announced.
    pub closed spec fn size(&self) -> u64 {
        self.file_size
    }

    /// How many bytes went out.
    pub closed spec fn sent(&self) -> u64 {
        self.bytes_sent
    }

    /// Begins the transfer of a file. A file without content is not sent.
    pub fn new(file_name: &str, file_size: u64) -> (sender: Result<FileSender, String>)
        ensures
            match sender {
                Ok(sender) => file_size > 0 && sender.name() == file_name@ && sender.size()
                    == file_size && sender.sent() == 0,
                Err(reason) => file_size == 0 && reason@ == EMPTY_FILE@,
            },
    {
        if file_size == 0 {
            Err(String::from_str(EMPTY_FILE))
        } else {
            Ok(FileSender { file_name: String::from_str(file_name), file_size, bytes_sent: 0 })
        }
    }

    /// The message that announces the file.
    pub fn request(&self) -> (message: Message)
        ensures
            message@ == (MessageView::FileTransferRequest {
                file_name: self.name(),
                file_size: self.size(),
            }),
    {
        Message::FileTransferRequest { file_name: self.file_name.clone(), file_size: self.file_size }
    }

    /// Whether as many bytes went out as were announced.
    pub fn is_done(&self) -> (done: bool)
        ensures
            done == (self.sent() >= self.size()),
    {
        self.bytes_sent >= self.file_size
    }

    /// The message for the bytes that were read next from the file. They go
    /// out at the offset behind those sent before. No bytes mean that the
    /// file is at its end: there is no message then.
    pub fn next_chunk(&mut self, data: Vec<u8>) -> (message: Option<Message>)
        requires
            old(self).sent() + data.len() <= u64::MAX,
        ensures
            final(self).name() == old(self).name(),
            final(self).size() == old(self).size(),
            final(self).sent() == old(self).sent() + data.len(),
            match message {
                Some(chunk) => data.len() > 0 && chunk@ == (MessageView::FileTransferChunk {
                    file_name: old(self).name(),
                    chunk: data@,
                    offset: old(self).sent(),
                }),
                None => data.len() == 0,
            },
    {
        proof {
            use_type_invariant(&*self);
        }
        if data.len() == 0 {
            return None;
        }
        let offset: u64 = self.bytes_sent;
        self.bytes_sent = offset + data.len() as u64;
        Some(Message::FileTransferChunk { file_name: self.file_name.clone(), chunk: data, offset })
    }

    /// The share of the file that went out, in percent.
    pub fn progress(&self) -> (percent: u64)
        ensures
            percent == percent_sent(self.sent() as nat, self.size() as nat),
    {
        proof {
            use_type_invariant(self);
        }
        let scaled: u128 = (self.bytes_sent as u128) * 100;
        let percent: u128 = scaled / (self.file_size as u128);
        if percent > u64::MAX as u128 {
            u64::MAX
        } else {
            percent as u64
        }
    }

    /// The message that ends the transfer.
    pub fn end(&self) -> (message: Message)
        ensures
            message@ == (MessageView::FileTransferEnd { file_name: self.name() }),
    {
        Message::FileTransferEnd { file_name: self.file_name.clone() }
    }
}

/// The bytes of a list of pieces, one piece after the other.
pub open spec fn flattened(pieces: Seq<Seq<u8>>) -> Seq<u8>
    decreases pieces.len(),
{
    if pieces.len() == 0 {
        Seq::empty()
    } else {
        flattened(pieces.drop_last()) + pieces.last()
    }
}

/// The chunks in which a file goes out when it is read piece by piece: each
/// piece at the offset behind the pieces before it.
pub open spec fn chunks_sent(pieces: Seq<Seq<u8>>) -> Seq<Chunk> {
    Seq::new(
        pieces.len(),
        |k: int| Chunk { offset: flattened(pieces.take(k)).len(), data: pieces[k] },
    )
}

/// The chunks in which a file goes out lie one behind the other from the
/// start of the file on, and joined they are the file.
pub proof fn lemma_sent_chunks_in_sequence(pieces: Seq<Seq<u8>>)
    ensures
        joined(chunks_sent(pieces)) == flattened(pieces),
        in_sequence(chunks_sent(pieces)),
    decreases pieces.len(),
{
    let chunks = chunks_sent(pieces);
    if pieces.len() > 0 {
        let earlier = pieces.drop_last();
        lemma_sent_chunks_in_sequence(earlier);
        assert forall|k: int| 0 <= k < earlier.len() implies chunks_sent(earlier)[k] == chunks[k] by {
            assert(earlier.take(k) =~= pieces.take(k));
        }
        assert(chunks.drop_last() =~= chunks_sent(earlier));
        assert(chunks.last().data == pieces.last());
        assert forall|k: int| 0 <= k < chunks.len() implies #[trigger] follows_on(chunks, k) by {
            if k < earlier.len() {
                assert(follows_on(chunks_sent(earlier), k));
                assert(chunks.take(k) =~= chunks_sent(earlier).take(k));
            } else {
                assert(chunks.take(k) =~= chunks_sent(earlier));
                assert(pieces.take(k) =~= earlier);
            }
        }
    }
}

/// What is sent is what is received: where a file goes out piece by piece
/// and its chunks come in, in whatever order, between the announcement and
/// the end of the transfer, the receiving side holds the file as it was
/// read, and the file's session is over.
pub proof fn lemma_sent_file_is_received(
    start: Receiver,
    file_name: Seq<char>,
    file_size: u64,
    pieces: Seq<Seq<u8>>,
    arrived: Seq<Chunk>,
    order: Seq<int>,
    place: Seq<int>,
)
    requires
        pieces.len() >= 1,
        flattened(pieces).len() <= u64::MAX,
        rearranges(arrived, chunks_sent(pieces), order, place),
    ensures
        ({
            let announced = start.after(MessageView::FileTransferRequest { file_name, file_size });
            let filled = announced.after_all(chunk_messages(file_name, arrived));
            let ended = filled.after(MessageView::FileTransferEnd { file_name });
            &&& ended.files.contains_key(file_name)
            &&& ended.files[file_name] == flattened(pieces)
            &&& !ended.sessions.contains(file_name)
        }),
{
    lemma_sent_chunks_in_sequence(pieces);
    lemma_file_transfer_round_trip(
        start,
        file_name,
        file_size,
        arrived,
        chunks_sent(pieces),
        order,
        place,
    );
}

} // verus!
