use libreconnect::{
    DeviceId, DeviceInfo, DeviceType, KeyAction, KeyCode, KeyEvent, MediaControlAction, MouseAction,
    MouseButton, MouseEvent, PluginType, Scalar, SlideControlAction, TouchpadEvent,
};

fn scalar(value: f32) -> Scalar {
    Scalar::from_bits(value.to_bits())
}

#[test]
fn test_device_id_creation() {
    let id1 = DeviceId::new("test-device");
    let id2 = DeviceId::from("test-device");
    let id3 = DeviceId::from("test-device".to_string());

    assert_eq!(id1, id2);
    assert_eq!(id2, id3);
    assert_eq!(id1.as_str(), "test-device");
    assert_eq!(id1.to_string(), "test-device");
}

#[test]
fn test_device_info_capabilities() {
    let device = DeviceInfo::new(
        "test-device",
        "Test Device",
        DeviceType::Desktop,
        vec![PluginType::ClipboardSync, PluginType::FileTransfer],
    );

    assert!(device.supports_plugin(&PluginType::ClipboardSync));
    assert!(device.supports_plugin(&PluginType::FileTransfer));
    assert!(!device.supports_plugin(&PluginType::MediaControl));
}

#[test]
fn test_plugin_types() {
    let all_plugins = PluginType::all();
    assert_eq!(all_plugins.len(), 9);
    assert!(all_plugins.contains(&PluginType::ClipboardSync));
    assert!(all_plugins.contains(&PluginType::SlideControl));

    for plugin in &all_plugins {
        assert!(!plugin.description().is_empty());
        assert!(!plugin.to_string().is_empty());
    }
}

#[test]
fn test_mouse_event_constructors() {
    let move_event = MouseEvent::movement(100, 200);
    assert_eq!(move_event.action, MouseAction::Move);
    assert_eq!(move_event.x, 100);
    assert_eq!(move_event.y, 200);
    assert!(move_event.button.is_none());

    let click_event = MouseEvent::button_press(50, 75, MouseButton::Left);
    assert_eq!(click_event.action, MouseAction::Press);
    assert_eq!(click_event.button, Some(MouseButton::Left));

    let scroll_event = MouseEvent::scroll(0, 0, scalar(1.5));
    assert_eq!(scroll_event.action, MouseAction::Scroll);
    assert_eq!(scroll_event.scroll_delta, Some(scalar(1.5)));
}

#[test]
fn test_touchpad_event_constructors() {
    let move_event = TouchpadEvent::movement(scalar(0.5), scalar(0.5), scalar(10.0), scalar(-5.0));
    assert_eq!(move_event.dx, scalar(10.0));
    assert_eq!(move_event.dy, scalar(-5.0));
    assert!(!move_event.is_left_click);

    let scroll_event = TouchpadEvent::scroll(scalar(0.3), scalar(0.7), scalar(0.0), scalar(2.0));
    assert_eq!(move_event.scroll_delta_y, scalar(0.0));
    assert_eq!(scroll_event.scroll_delta_y, scalar(2.0));

    let click_event = TouchpadEvent::click(scalar(0.5), scalar(0.5), false);
    assert!(click_event.is_left_click);
    assert!(!click_event.is_right_click);

    let right_click_event = TouchpadEvent::click(scalar(0.5), scalar(0.5), true);
    assert!(!right_click_event.is_left_click);
    assert!(right_click_event.is_right_click);
}

#[test]
fn device_id_keeps_its_text() {
    let id = DeviceId::new("");
    assert_eq!(id.as_str(), "");
    let copy = id.duplicate();
    assert!(id.same_as(&copy));
    assert!(!id.same_as(&DeviceId::new("other")));
}

#[test]
fn device_info_copy_is_equal() {
    let device = DeviceInfo::new("a", "A", DeviceType::Mobile, vec![PluginType::InputShare]);
    assert_eq!(device.duplicate(), device);
    let bare = DeviceInfo::new("b", "B", DeviceType::Desktop, vec![]);
    assert!(!bare.supports_plugin(&PluginType::InputShare));
}

#[test]
fn device_type_is_read_leniently() {
    assert_eq!(DeviceType::parse_lenient("Desktop"), DeviceType::Desktop);
    assert_eq!(DeviceType::parse_lenient("desktop"), DeviceType::Desktop);
    assert_eq!(DeviceType::parse_lenient("DESKTOP"), DeviceType::Mobile);
    assert_eq!(DeviceType::parse_lenient("Mobile"), DeviceType::Mobile);
    assert_eq!(DeviceType::parse_lenient("toaster"), DeviceType::Mobile);
    assert_eq!(DeviceType::parse_lenient(""), DeviceType::Mobile);
    assert_eq!(DeviceType::Desktop.to_string(), "Desktop");
    assert_eq!(DeviceType::Mobile.to_string(), "Mobile");
}

#[test]
fn capability_tags_are_read_leniently() {
    assert_eq!(PluginType::from_name("ClipboardSync"), Some(PluginType::ClipboardSync));
    assert_eq!(PluginType::from_name("SlideControl"), Some(PluginType::SlideControl));
    assert_eq!(PluginType::from_name("Teleport"), None);
    let tags = vec![
        "FileTransfer".to_string(),
        "Teleport".to_string(),
        "BatteryStatus".to_string(),
        "".to_string(),
        "FileTransfer".to_string(),
    ];
    assert_eq!(
        PluginType::parse_all(&tags),
        vec![PluginType::FileTransfer, PluginType::BatteryStatus, PluginType::FileTransfer]
    );
    assert_eq!(PluginType::parse_all(&vec![]), vec![]);
}

#[test]
fn plugin_type_names_and_order() {
    let all = PluginType::all();
    assert_eq!(all[0], PluginType::ClipboardSync);
    assert_eq!(all[4], PluginType::BatteryStatus);
    assert_eq!(all[8], PluginType::SlideControl);
    assert_eq!(PluginType::ClipboardSync.to_string(), "Clipboard Sync");
    assert_eq!(PluginType::RemoteCommands.to_string(), "Remote Commands");
    assert_eq!(PluginType::TouchpadMode.description(), "Use device as touchpad");
}

#[test]
fn key_codes_have_labels() {
    assert_eq!(KeyCode::A.to_string(), "A");
    assert_eq!(KeyCode::Key7.to_string(), "7");
    assert_eq!(KeyCode::F12.to_string(), "F12");
    assert_eq!(KeyCode::LeftControl.to_string(), "LeftControl");
    assert_eq!(KeyCode::ArrowDown.to_string(), "ArrowDown");
    assert_eq!(KeyCode::Unknown(0).to_string(), "Unknown(0)");
    assert_eq!(KeyCode::Unknown(4294967295).to_string(), "Unknown(4294967295)");
    assert_eq!(KeyCode::Unknown(1203).to_string(), "Unknown(1203)");
}

#[test]
fn key_event_holds_what_it_was_given() {
    let event = KeyEvent::new(KeyAction::Release, KeyCode::Tab);
    assert_eq!(event.action, KeyAction::Release);
    assert_eq!(event.code, KeyCode::Tab);
}

#[test]
fn control_actions_have_names() {
    assert_eq!(MediaControlAction::PlayPause.to_string(), "Play/Pause");
    assert_eq!(MediaControlAction::VolumeDown.to_string(), "Volume Down");
    assert_eq!(MediaControlAction::ToggleMute.to_string(), "Toggle Mute");
    assert_eq!(SlideControlAction::NextSlide.to_string(), "Next Slide");
    assert_eq!(SlideControlAction::EndPresentation.to_string(), "End Presentation");
}

#[test]
fn scalar_zero_is_of_either_sign() {
    assert!(scalar(0.0).is_zero());
    assert!(scalar(-0.0).is_zero());
    assert!(Scalar::zero().is_zero());
    assert!(!scalar(1.0e-40).is_zero());
    assert!(!scalar(f32::NAN).is_zero());
    assert!(!scalar(-3.5).is_zero());
    assert_eq!(Scalar::half().to_bits(), 0.5f32.to_bits());
    assert_eq!(Scalar::from_bits(7).to_bits(), 7);
}

#[test]
fn mouse_release_and_other_buttons() {
    let release = MouseEvent::button_release(-1, 2, MouseButton::Other(9));
    assert_eq!(release.action, MouseAction::Release);
    assert_eq!(release.button, Some(MouseButton::Other(9)));
    assert_eq!(release.scroll_delta, None);
    assert_eq!((release.x, release.y), (-1, 2));
}
