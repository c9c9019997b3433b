use libreconnect::client::{
    battery_query, judge_reply, key_code_from_name, key_event_message, media_control_message,
    mouse_button_from_name, mouse_event_message, notification_message, parse_media_action,
    remote_command_message, slide_action_from_name, slide_control_message, touchpad_event_message,
    CLIENT_CHUNK_SIZE,
};
use libreconnect::text::{join, decimal_string};
use libreconnect::{
    parse_key_code, parse_mouse_button, parse_slide_action, BatteryStatus, FileSender, KeyAction,
    KeyCode, KeyEvent, MediaControlAction, Message, MouseButton, MouseEvent, ReplyStatus, Scalar,
    SlideControlAction, TouchpadEvent, DEFAULT_PORT, MAX_CHUNK_SIZE, MDNS_SERVICE_TYPE,
    PROTOCOL_VERSION,
};

fn scalar(value: f32) -> Scalar {
    Scalar::from_bits(value.to_bits())
}

#[test]
fn key_names_are_read_in_any_case() {
    assert_eq!(parse_key_code("a"), Ok(KeyCode::A));
    assert_eq!(parse_key_code("A"), Ok(KeyCode::A));
    assert_eq!(parse_key_code("Z"), Ok(KeyCode::Z));
    assert_eq!(parse_key_code("0"), Ok(KeyCode::Key0));
    assert_eq!(parse_key_code("9"), Ok(KeyCode::Key9));
    assert_eq!(parse_key_code("Space"), Ok(KeyCode::Space));
    assert_eq!(parse_key_code("ENTER"), Ok(KeyCode::Enter));
    assert_eq!(parse_key_code("Shift"), Ok(KeyCode::LeftShift));
    assert_eq!(parse_key_code("leftshift"), Ok(KeyCode::LeftShift));
    assert_eq!(parse_key_code("ctrl"), Ok(KeyCode::LeftControl));
    assert_eq!(parse_key_code("LeftCtrl"), Ok(KeyCode::LeftControl));
    assert_eq!(parse_key_code("leftcontrol"), Ok(KeyCode::LeftControl));
    assert_eq!(parse_key_code("alt"), Ok(KeyCode::LeftAlt));
    assert_eq!(parse_key_code("RightCtrl"), Ok(KeyCode::RightControl));
    assert_eq!(parse_key_code("rightcontrol"), Ok(KeyCode::RightControl));
    assert_eq!(parse_key_code("rightalt"), Ok(KeyCode::RightAlt));
    assert_eq!(parse_key_code("rightshift"), Ok(KeyCode::RightShift));
    assert_eq!(parse_key_code("CapsLock"), Ok(KeyCode::CapsLock));
    assert_eq!(parse_key_code("F1"), Ok(KeyCode::F1));
    assert_eq!(parse_key_code("f12"), Ok(KeyCode::F12));
    assert_eq!(parse_key_code("arrow_left"), Ok(KeyCode::ArrowLeft));
    assert_eq!(parse_key_code("ArrowRight"), Ok(KeyCode::ArrowRight));
    assert_eq!(parse_key_code("UP"), Ok(KeyCode::ArrowUp));
    assert_eq!(parse_key_code("down"), Ok(KeyCode::ArrowDown));
    assert_eq!(parse_key_code("\u{212A}"), Ok(KeyCode::K));
}

#[test]
fn unknown_key_names_are_refused_as_written() {
    assert_eq!(parse_key_code("F13"), Err("Unknown key code: F13".to_string()));
    assert_eq!(parse_key_code(""), Err("Unknown key code: ".to_string()));
    assert_eq!(parse_key_code(" a"), Err("Unknown key code:  a".to_string()));
    assert_eq!(parse_key_code("Unknown(3)"), Err("Unknown key code: Unknown(3)".to_string()));
}

#[test]
fn names_in_lower_case_are_looked_up_as_they_are() {
    assert_eq!(key_code_from_name("tab"), Some(KeyCode::Tab));
    assert_eq!(key_code_from_name("Tab"), None);
    assert_eq!(key_code_from_name("escape"), Some(KeyCode::Escape));
    assert_eq!(key_code_from_name("backspace"), Some(KeyCode::Backspace));
    assert_eq!(key_code_from_name("delete"), Some(KeyCode::Delete));
    assert_eq!(mouse_button_from_name("middle"), Some(MouseButton::Middle));
    assert_eq!(mouse_button_from_name("Middle"), None);
    assert_eq!(slide_action_from_name("prev"), Some(SlideControlAction::PreviousSlide));
    assert_eq!(slide_action_from_name("PREV"), None);
}

#[test]
fn every_key_label_is_a_key_name() {
    let named = [
        KeyCode::A, KeyCode::M, KeyCode::Z, KeyCode::Key0, KeyCode::Key5, KeyCode::F1, KeyCode::F10,
        KeyCode::Escape, KeyCode::Tab, KeyCode::CapsLock, KeyCode::LeftShift, KeyCode::LeftControl,
        KeyCode::LeftAlt, KeyCode::Space, KeyCode::RightAlt, KeyCode::RightControl,
        KeyCode::RightShift, KeyCode::Enter, KeyCode::Backspace, KeyCode::Delete,
        KeyCode::ArrowLeft, KeyCode::ArrowRight, KeyCode::ArrowUp, KeyCode::ArrowDown,
    ];
    for code in named {
        assert_eq!(parse_key_code(&code.to_string()), Ok(code));
    }
}

#[test]
fn mouse_buttons_are_read_in_any_case() {
    assert_eq!(parse_mouse_button("left"), Ok(MouseButton::Left));
    assert_eq!(parse_mouse_button("RIGHT"), Ok(MouseButton::Right));
    assert_eq!(parse_mouse_button("Middle"), Ok(MouseButton::Middle));
    assert_eq!(parse_mouse_button("fourth"), Err("Unknown mouse button: fourth".to_string()));
}

#[test]
fn slide_actions_are_read_in_any_case() {
    assert_eq!(parse_slide_action("start"), Ok(SlideControlAction::StartPresentation));
    assert_eq!(parse_slide_action("StartPresentation"), Ok(SlideControlAction::StartPresentation));
    assert_eq!(parse_slide_action("NextSlide"), Ok(SlideControlAction::NextSlide));
    assert_eq!(parse_slide_action("next"), Ok(SlideControlAction::NextSlide));
    assert_eq!(parse_slide_action("prevslide"), Ok(SlideControlAction::PreviousSlide));
    assert_eq!(parse_slide_action("PreviousSlide"), Ok(SlideControlAction::PreviousSlide));
    assert_eq!(parse_slide_action("previous"), Ok(SlideControlAction::PreviousSlide));
    assert_eq!(parse_slide_action("stop"), Ok(SlideControlAction::EndPresentation));
    assert_eq!(parse_slide_action("END"), Ok(SlideControlAction::EndPresentation));
    assert_eq!(parse_slide_action("endpresentation"), Ok(SlideControlAction::EndPresentation));
    assert_eq!(parse_slide_action("Pause"), Err("Unknown slide action: Pause".to_string()));
}

#[test]
fn key_event_commands() {
    assert_eq!(
        key_event_message("press", "Enter"),
        Ok(Message::KeyEvent(KeyEvent::new(KeyAction::Press, KeyCode::Enter)))
    );
    assert_eq!(
        key_event_message("release", "f5"),
        Ok(Message::KeyEvent(KeyEvent::new(KeyAction::Release, KeyCode::F5)))
    );
    assert_eq!(
        key_event_message("Press", "a"),
        Err("Invalid key action. Use 'press' or 'release'.".to_string())
    );
    assert_eq!(
        key_event_message("hold", "nokey"),
        Err("Invalid key action. Use 'press' or 'release'.".to_string())
    );
    assert_eq!(key_event_message("press", "nokey"), Err("Unknown key code: nokey".to_string()));
}

#[test]
fn mouse_event_commands() {
    assert_eq!(
        mouse_event_message("move", 3, -4, None, None),
        Ok(Message::MouseEvent(MouseEvent::movement(3, -4)))
    );
    assert_eq!(
        mouse_event_message("move", 3, -4, Some("LEFT"), Some(scalar(2.0))),
        Ok(Message::MouseEvent(MouseEvent::movement(3, -4)))
    );
    assert_eq!(
        mouse_event_message("press", 1, 2, Some("Right"), None),
        Ok(Message::MouseEvent(MouseEvent::button_press(1, 2, MouseButton::Right)))
    );
    assert_eq!(
        mouse_event_message("release", 1, 2, Some("middle"), None),
        Ok(Message::MouseEvent(MouseEvent::button_release(1, 2, MouseButton::Middle)))
    );
    assert_eq!(
        mouse_event_message("scroll", 0, 0, None, Some(scalar(-1.5))),
        Ok(Message::MouseEvent(MouseEvent::scroll(0, 0, scalar(-1.5))))
    );
    assert_eq!(
        mouse_event_message("drag", 0, 0, None, None),
        Err("Invalid mouse action. Use 'move', 'press', 'release', or 'scroll'.".to_string())
    );
    assert_eq!(
        mouse_event_message("move", 0, 0, Some("fifth"), None),
        Err("Unknown mouse button: fifth".to_string())
    );
    assert_eq!(
        mouse_event_message("press", 0, 0, None, None),
        Err("Mouse button required for press action".to_string())
    );
    assert_eq!(
        mouse_event_message("release", 0, 0, None, Some(scalar(1.0))),
        Err("Mouse button required for release action".to_string())
    );
    assert_eq!(
        mouse_event_message("scroll", 0, 0, Some("left"), None),
        Err("Scroll delta required for scroll action".to_string())
    );
}

#[test]
fn media_commands_are_read_as_written() {
    assert_eq!(parse_media_action("play"), Ok(MediaControlAction::Play));
    assert_eq!(parse_media_action("pause"), Ok(MediaControlAction::Pause));
    assert_eq!(parse_media_action("playpause"), Ok(MediaControlAction::PlayPause));
    assert_eq!(parse_media_action("next"), Ok(MediaControlAction::Next));
    assert_eq!(parse_media_action("previous"), Ok(MediaControlAction::Previous));
    assert_eq!(parse_media_action("volumeup"), Ok(MediaControlAction::VolumeUp));
    assert_eq!(parse_media_action("volumedown"), Ok(MediaControlAction::VolumeDown));
    assert_eq!(parse_media_action("togglemute"), Ok(MediaControlAction::ToggleMute));
    assert_eq!(parse_media_action("Play"), Err("Invalid media control action: Play".to_string()));
    assert_eq!(
        media_control_message("next"),
        Ok(Message::MediaControl { action: MediaControlAction::Next })
    );
    assert_eq!(
        media_control_message("louder"),
        Err("Invalid media control action: louder".to_string())
    );
}

#[test]
fn slide_and_other_commands() {
    assert_eq!(
        slide_control_message("Next"),
        Ok(Message::SlideControl(SlideControlAction::NextSlide))
    );
    assert_eq!(slide_control_message("jump"), Err("Unknown slide action: jump".to_string()));
    assert_eq!(
        notification_message("Title", "Body", Some("App")),
        Message::Notification {
            title: "Title".to_string(),
            body: "Body".to_string(),
            app_name: Some("App".to_string()),
        }
    );
    assert_eq!(
        notification_message("", "", None),
        Message::Notification { title: String::new(), body: String::new(), app_name: None }
    );
    assert_eq!(
        remote_command_message("ls", vec!["-l".to_string()]),
        Message::RemoteCommand { command: "ls".to_string(), args: vec!["-l".to_string()] }
    );
    assert_eq!(
        battery_query(),
        Message::BatteryStatus(BatteryStatus { charge: scalar(0.0), is_charging: false })
    );
}

#[test]
fn touchpad_commands_pick_click_scroll_or_movement() {
    let half = scalar(0.5);
    assert_eq!(
        touchpad_event_message(scalar(1.0), scalar(2.0), scalar(3.0), scalar(4.0), true, false),
        Message::TouchpadEvent(TouchpadEvent::click(half, half, false))
    );
    assert_eq!(
        touchpad_event_message(scalar(1.0), scalar(2.0), scalar(3.0), scalar(4.0), true, true),
        Message::TouchpadEvent(TouchpadEvent::click(half, half, true))
    );
    assert_eq!(
        touchpad_event_message(scalar(1.0), scalar(2.0), scalar(0.0), scalar(4.0), false, false),
        Message::TouchpadEvent(TouchpadEvent::scroll(half, half, scalar(0.0), scalar(4.0)))
    );
    assert_eq!(
        touchpad_event_message(scalar(1.0), scalar(2.0), scalar(-0.0), scalar(0.0), false, false),
        Message::TouchpadEvent(TouchpadEvent::movement(half, half, scalar(1.0), scalar(2.0)))
    );
}

#[test]
fn replies_are_held_against_what_was_asked() {
    assert_eq!(judge_reply(&Some(Message::Pong), "Pong"), ReplyStatus::Expected);
    assert_eq!(judge_reply(&Some(Message::Ping), "Pong"), ReplyStatus::Unexpected);
    assert_eq!(judge_reply(&None, "Pong"), ReplyStatus::Missing);
    assert_eq!(
        judge_reply(&Some(Message::ClipboardSync("x".to_string())), "ClipboardSync"),
        ReplyStatus::Expected
    );
}

#[test]
fn empty_files_are_not_sent() {
    assert_eq!(FileSender::new("empty.txt", 0).err(), Some("Cannot send empty file".to_string()));
    assert!(FileSender::new("full.txt", 1).is_ok());
}

#[test]
fn a_file_goes_out_in_chunks_that_follow_one_another() {
    let mut sender = FileSender::new("test_file.txt", 28).unwrap();
    assert_eq!(
        sender.request(),
        Message::FileTransferRequest { file_name: "test_file.txt".to_string(), file_size: 28 }
    );
    assert!(!sender.is_done());
    assert_eq!(sender.progress(), 0);
    assert_eq!(
        sender.next_chunk(b"This is a ".to_vec()),
        Some(Message::FileTransferChunk {
            file_name: "test_file.txt".to_string(),
            chunk: b"This is a ".to_vec(),
            offset: 0,
        })
    );
    assert_eq!(sender.progress(), 35);
    assert_eq!(
        sender.next_chunk(b"test file content.".to_vec()),
        Some(Message::FileTransferChunk {
            file_name: "test_file.txt".to_string(),
            chunk: b"test file content.".to_vec(),
            offset: 10,
        })
    );
    assert!(sender.is_done());
    assert_eq!(sender.progress(), 100);
    assert_eq!(sender.next_chunk(Vec::new()), None);
    assert_eq!(sender.end(), Message::FileTransferEnd { file_name: "test_file.txt".to_string() });
}

#[test]
fn progress_is_rounded_down_and_never_overflows() {
    let mut sender = FileSender::new("f", 3).unwrap();
    sender.next_chunk(vec![0]);
    assert_eq!(sender.progress(), 33);
    sender.next_chunk(vec![0]);
    assert_eq!(sender.progress(), 66);
    sender.next_chunk(vec![0, 0, 0, 0]);
    assert_eq!(sender.progress(), 200);
    let huge = FileSender::new("g", u64::MAX).unwrap();
    assert_eq!(huge.progress(), 0);
    assert_eq!(CLIENT_CHUNK_SIZE, 8192);
    assert_eq!(MAX_CHUNK_SIZE, 1024 * 1024);
}

#[test]
fn numbers_are_written_in_decimal() {
    assert_eq!(decimal_string(0), "0");
    assert_eq!(decimal_string(7), "7");
    assert_eq!(decimal_string(10), "10");
    assert_eq!(decimal_string(1716), "1716");
    assert_eq!(decimal_string(u64::MAX), "18446744073709551615");
    assert_eq!(join("ab", "cd"), "abcd");
    assert_eq!(join("", ""), "");
}

#[test]
fn protocol_constants() {
    assert_eq!(PROTOCOL_VERSION, "0.1.0");
    assert_eq!(DEFAULT_PORT, 1716);
    assert_eq!(MDNS_SERVICE_TYPE, "_libreconnect._tcp.local.");
}
