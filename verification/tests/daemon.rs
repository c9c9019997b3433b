use libreconnect::daemon::Handled;
use libreconnect::discovery::{apply_discovery, mdns_host_name, replace_spaces};
use libreconnect::pairing::{pair_legacy, pair_with_key};
use libreconnect::Scope;
use libreconnect::{
    BatteryStatusPlugin, Daemon, DaemonError, DeviceId, DeviceInfo, DeviceRegistry, DeviceType,
    DiscoveryEvent, Dispatched, Dispatcher, Message, PairingCode, PingPlugin, Plugin, PluginError,
    PluginType,
};

/// A handler that gives a fixed result and counts how often it is asked.
struct Scripted {
    name: &'static str,
    result: Result<Option<Message>, PluginError>,
    asked: std::sync::Arc<std::sync::atomic::AtomicUsize>,
}

impl Scripted {
    fn new(name: &'static str, result: Result<Option<Message>, PluginError>) -> Self {
        Scripted { name, result, asked: Default::default() }
    }
}

impl Plugin for Scripted {
    fn name(&self) -> &'static str {
        self.name
    }

    fn handle_message(
        &mut self,
        _message: &Message,
        _sender_id: &DeviceId,
    ) -> Result<Option<Message>, PluginError> {
        self.asked.fetch_add(1, std::sync::atomic::Ordering::SeqCst);
        self.result.clone()
    }
}

fn ten_plugins() -> Vec<Box<dyn Plugin>> {
    vec![
        Box::new(PingPlugin),
        Box::new(Scripted::new("clipboard-sync", Ok(None))),
        Box::new(Scripted::new("file-transfer", Ok(None))),
        Box::new(Scripted::new("input-share", Ok(None))),
        Box::new(Scripted::new("notification-sync", Ok(None))),
        Box::new(Scripted::new("media-control", Ok(None))),
        Box::new(BatteryStatusPlugin::new()),
        Box::new(Scripted::new("remote-commands", Ok(None))),
        Box::new(Scripted::new("touchpad-mode", Ok(None))),
        Box::new(Scripted::new("slide-control", Ok(None))),
    ]
}

fn daemon() -> Daemon {
    Daemon::new(1716, "workstation", &Vec::new(), ten_plugins())
}

fn keyed(id: &str, name: &str, key: &str) -> Message {
    Message::RequestPairingWithKey {
        id: id.to_string(),
        name: name.to_string(),
        device_type: "Mobile".to_string(),
        capabilities: vec!["ClipboardSync".to_string(), "Nonsense".to_string()],
        pairing_key: key.to_string(),
    }
}

#[test]
fn test_daemon_creation() {
    let daemon = daemon();
    assert_eq!(daemon.get_available_plugins().len(), 10);
    assert_eq!(daemon.get_local_device().device_type, DeviceType::Desktop);
    assert!(daemon.get_paired_devices().unwrap().is_empty());
}

#[test]
fn test_daemon_start_stop() {
    let daemon = daemon();
    assert!(daemon.get_available_plugins().len() > 0);
}

#[test]
fn test_message_type_names() {
    assert_eq!(<Daemon>::message_type_name(&Message::Ping), "Ping");
    assert_eq!(<Daemon>::message_type_name(&Message::Pong), "Pong");
    assert_eq!(<Daemon>::message_type_name(&Message::ClipboardSync("test".to_string())), "ClipboardSync");
}

#[test]
fn every_message_kind_has_its_name() {
    let info = DeviceInfo::new("d", "D", DeviceType::Mobile, vec![]);
    assert_eq!(<Daemon>::message_type_name(&Message::DeviceInfo(info.clone())), "DeviceInfo");
    assert_eq!(<Daemon>::message_type_name(&Message::RequestPairing(info)), "RequestPairing");
    assert_eq!(<Daemon>::message_type_name(&keyed("a", "A", "1")), "RequestPairingWithKey");
    assert_eq!(
        <Daemon>::message_type_name(&Message::PairingAccepted { device_id: "a".to_string() }),
        "PairingAccepted"
    );
    assert_eq!(
        <Daemon>::message_type_name(&Message::FileTransferEnd { file_name: "f".to_string() }),
        "FileTransferEnd"
    );
    assert_eq!(<Daemon>::message_type_name(&Message::RequestClipboard), "RequestClipboard");
}

#[test]
fn daemon_knows_itself() {
    let daemon = daemon();
    let local = daemon.get_local_device();
    assert_eq!(local.id.as_str(), "libreconnect-workstation");
    assert_eq!(local.name, "LibreConnect Desktop (workstation)");
    assert_eq!(local.capabilities, PluginType::all());
    assert_eq!(daemon.port(), 1716);
    assert_eq!(
        daemon.get_available_plugins(),
        vec![
            "ping",
            "clipboard-sync",
            "file-transfer",
            "input-share",
            "notification-sync",
            "media-control",
            "battery-status",
            "remote-commands",
            "touchpad-mode",
            "slide-control",
        ]
    );
}

#[test]
fn pairing_code_has_six_digits() {
    for _ in 0..200 {
        let daemon = daemon();
        let key = daemon.pairing_key();
        assert_eq!(key.len(), 6);
        assert!(key.chars().all(|c| c.is_ascii_digit()));
        let number: u32 = key.parse().unwrap();
        assert!((100_000..=999_999).contains(&number));
    }
}

#[test]
fn ping_is_answered_with_pong() {
    let mut daemon = daemon();
    let handled = daemon.handle_message(Message::Ping, "192.168.1.20:50000");
    assert_eq!(handled, Handled { response: Some(Message::Pong), persist: false });
    let silent = daemon.handle_message(Message::Pong, "192.168.1.20:50000");
    assert_eq!(silent, Handled { response: None, persist: false });
}

#[test]
fn keyed_pairing_is_accepted_once() {
    let mut daemon = daemon();
    let key = daemon.pairing_key();
    let accepted = daemon.handle_message(keyed("phone-1", "Phone", &key), "10.0.0.2:40000");
    assert_eq!(
        accepted,
        Handled {
            response: Some(Message::PairingAccepted { device_id: "phone-1".to_string() }),
            persist: true,
        }
    );
    assert_ne!(daemon.pairing_key(), key);
    let devices = daemon.get_paired_devices().unwrap();
    assert_eq!(
        devices,
        vec![DeviceInfo::new("phone-1", "Phone", DeviceType::Mobile, vec![PluginType::ClipboardSync])]
    );

    let rejected = daemon.handle_message(keyed("phone-1", "Phone", &key), "10.0.0.2:40000");
    assert_eq!(
        rejected,
        Handled {
            response: Some(Message::PairingRejected {
                device_id: "phone-1".to_string(),
                reason: "Invalid pairing key".to_string(),
            }),
            persist: false,
        }
    );
    assert_eq!(daemon.get_paired_devices().unwrap().len(), 1);
}

#[test]
fn used_code_is_replaced_even_by_a_repeating_draw() {
    let mut daemon = daemon();
    let key = daemon.pairing_key();
    let number: u32 = key.parse().unwrap();
    let accepted = daemon.handle_message_with(keyed("p", "P", &key), "peer", number);
    assert!(accepted.persist);
    let expected = if number == 999_999 { 100_000 } else { number + 1 };
    assert_eq!(daemon.pairing_key(), expected.to_string());
    let again = daemon.handle_message_with(keyed("p", "P", &key), "peer", number);
    assert!(!again.persist);
    assert!(matches!(again.response, Some(Message::PairingRejected { .. })));
    assert_eq!(daemon.pairing_key(), expected.to_string());
}

#[test]
fn wrong_key_changes_nothing() {
    let mut daemon = daemon();
    let key = daemon.pairing_key();
    for wrong in ["", "000000", "abcdef", " 123456", "1234567"] {
        if wrong == key {
            continue;
        }
        let handled = daemon.handle_message(keyed("intruder", "X", wrong), "10.0.0.9:1");
        assert_eq!(
            handled.response,
            Some(Message::PairingRejected {
                device_id: "intruder".to_string(),
                reason: "Invalid pairing key".to_string(),
            })
        );
        assert!(!handled.persist);
    }
    assert!(daemon.get_paired_devices().unwrap().is_empty());
    assert_eq!(daemon.pairing_key(), key);
}

#[test]
fn pairing_twice_keeps_one_entry_with_the_latest_metadata() {
    let mut daemon = daemon();
    let first = daemon.pairing_key();
    daemon.handle_message(keyed("phone-1", "Old name", &first), "10.0.0.2:40000");
    let second = daemon.pairing_key();
    let request = Message::RequestPairingWithKey {
        id: "phone-1".to_string(),
        name: "New name".to_string(),
        device_type: "Desktop".to_string(),
        capabilities: vec!["FileTransfer".to_string()],
        pairing_key: second,
    };
    let handled = daemon.handle_message(request, "10.0.0.2:40001");
    assert!(handled.persist);
    assert_eq!(
        daemon.get_paired_devices().unwrap(),
        vec![DeviceInfo::new("phone-1", "New name", DeviceType::Desktop, vec![PluginType::FileTransfer])]
    );
}

#[test]
fn legacy_pairing_is_always_accepted() {
    let mut daemon = daemon();
    let key = daemon.pairing_key();
    let info = DeviceInfo::new("old-phone", "Old Phone", DeviceType::Mobile, vec![PluginType::InputShare]);
    let handled = daemon.handle_message(Message::RequestPairing(info.clone()), "10.0.0.3:1234");
    assert_eq!(
        handled,
        Handled {
            response: Some(Message::PairingAccepted { device_id: "old-phone".to_string() }),
            persist: true,
        }
    );
    assert_eq!(daemon.get_paired_devices().unwrap(), vec![info]);
    assert_eq!(daemon.pairing_key(), key);
}

#[test]
fn saved_devices_are_loaded_at_start() {
    let saved = vec![
        DeviceInfo::new("a", "first", DeviceType::Mobile, vec![]),
        DeviceInfo::new("b", "B", DeviceType::Desktop, vec![]),
        DeviceInfo::new("a", "second", DeviceType::Mobile, vec![PluginType::MediaControl]),
    ];
    let daemon: Daemon = Daemon::new(4000, "h", &saved, Vec::new());
    assert_eq!(
        daemon.get_paired_devices().unwrap(),
        vec![
            DeviceInfo::new("a", "second", DeviceType::Mobile, vec![PluginType::MediaControl]),
            DeviceInfo::new("b", "B", DeviceType::Desktop, vec![]),
        ]
    );
    assert!(daemon.get_available_plugins().is_empty());
}

#[test]
fn dispatch_stops_at_the_first_answer() {
    let first = Scripted::new("first", Ok(None));
    let failing = Scripted::new("failing", Err(PluginError { message: "broken".to_string() }));
    let answering = Scripted::new("answering", Ok(Some(Message::Pong)));
    let late = Scripted::new("late", Ok(Some(Message::Ping)));
    let counters =
        [first.asked.clone(), failing.asked.clone(), answering.asked.clone(), late.asked.clone()];
    let mut dispatcher = Dispatcher::new(vec![
        Box::new(first),
        Box::new(failing),
        Box::new(answering),
        Box::new(late),
    ]);
    assert_eq!(dispatcher.len(), 4);
    let sender = DeviceId::new("peer");
    for round in 1..=3 {
        let dispatched = dispatcher.dispatch(&Message::RequestClipboard, &sender);
        assert_eq!(dispatched, Dispatched { response: Some(Message::Pong), handler: Some(2) });
        let asked: Vec<usize> =
            counters.iter().map(|c| c.load(std::sync::atomic::Ordering::SeqCst)).collect();
        assert_eq!(asked, vec![round, round, round, 0]);
    }
}

#[test]
fn dispatch_without_answer_gives_no_response() {
    let mut dispatcher: Dispatcher = Dispatcher::new(Vec::new());
    let sender = DeviceId::new("peer");
    assert_eq!(
        dispatcher.dispatch(&Message::Ping, &sender),
        Dispatched { response: None, handler: None }
    );
    dispatcher.register(Box::new(Scripted::new("mute", Ok(None))));
    dispatcher.register(Box::new(Scripted::new(
        "broken",
        Err(PluginError { message: "x".to_string() }),
    )));
    assert_eq!(
        dispatcher.dispatch(&Message::Ping, &sender),
        Dispatched { response: None, handler: None }
    );
    dispatcher.register(Box::new(PingPlugin));
    assert_eq!(
        dispatcher.dispatch(&Message::Ping, &sender),
        Dispatched { response: Some(Message::Pong), handler: Some(2) }
    );
    assert_eq!(dispatcher.names(), vec!["mute", "broken", "ping"]);
}

#[test]
fn pairing_messages_never_reach_the_handlers() {
    let spy = Scripted::new("spy", Ok(Some(Message::Pong)));
    let asked = spy.asked.clone();
    let mut daemon = Daemon::new(1716, "h", &Vec::new(), vec![Box::new(spy)]);
    let info = DeviceInfo::new("d", "D", DeviceType::Mobile, vec![]);
    daemon.handle_message(Message::RequestPairing(info), "peer");
    daemon.handle_message(keyed("d", "D", "nope"), "peer");
    assert_eq!(asked.load(std::sync::atomic::Ordering::SeqCst), 0);
    let handled = daemon.handle_message(Message::RequestClipboard, "peer");
    assert_eq!(handled.response, Some(Message::Pong));
    assert_eq!(asked.load(std::sync::atomic::Ordering::SeqCst), 1);
}

#[test]
fn registry_holds_one_entry_per_identifier() {
    let mut registry = DeviceRegistry::new();
    assert!(registry.is_empty());
    registry.insert(DeviceInfo::new("a", "A", DeviceType::Mobile, vec![]));
    registry.insert(DeviceInfo::new("b", "B", DeviceType::Desktop, vec![]));
    registry.insert(DeviceInfo::new("a", "A2", DeviceType::Desktop, vec![PluginType::InputShare]));
    assert_eq!(registry.len(), 2);
    assert!(registry.contains(&DeviceId::new("a")));
    assert_eq!(registry.get(&DeviceId::new("a")).unwrap().name, "A2");
    assert_eq!(registry.get(&DeviceId::new("c")), None);
    assert!(registry.remove(&DeviceId::new("a")));
    assert!(!registry.remove(&DeviceId::new("a")));
    assert_eq!(registry.devices(), vec![DeviceInfo::new("b", "B", DeviceType::Desktop, vec![])]);
    assert!(!registry.contains(&DeviceId::new("a")));
    assert_eq!(registry.len(), 1);
}

#[test]
fn pairing_functions_work_on_a_registry() {
    let mut registry = DeviceRegistry::new();
    let mut code = PairingCode::from_number(123_456).unwrap();
    assert_eq!(code.as_string(), "123456");
    assert_eq!(code.value(), 123_456);
    assert!(code.matches("123456"));
    assert!(!code.matches("123457"));
    let reply = pair_with_key(
        &mut registry,
        &mut code,
        "tablet",
        "Tablet",
        "Desktop",
        &vec!["SlideControl".to_string()],
        "123456",
        654_321,
    );
    assert_eq!(reply, Message::PairingAccepted { device_id: "tablet".to_string() });
    assert_eq!(code.as_string(), "654321");
    assert_eq!(
        registry.devices(),
        vec![DeviceInfo::new("tablet", "Tablet", DeviceType::Desktop, vec![PluginType::SlideControl])]
    );
    let reply = pair_with_key(&mut registry, &mut code, "x", "X", "", &vec![], "123456", 111_111);
    assert_eq!(
        reply,
        Message::PairingRejected {
            device_id: "x".to_string(),
            reason: "Invalid pairing key".to_string(),
        }
    );
    assert_eq!(code.as_string(), "654321");
    assert_eq!(registry.len(), 1);
    let legacy = pair_legacy(&mut registry, DeviceInfo::new("x", "X", DeviceType::Mobile, vec![]));
    assert_eq!(legacy, Message::PairingAccepted { device_id: "x".to_string() });
    assert_eq!(registry.len(), 2);
}

#[test]
fn pairing_code_bounds_and_rotation() {
    assert!(PairingCode::from_number(99_999).is_none());
    assert!(PairingCode::from_number(1_000_000).is_none());
    assert!(PairingCode::from_number(0).is_none());
    let mut code = PairingCode::from_number(999_999).unwrap();
    code.rotate(999_999);
    assert_eq!(code.value(), 100_000);
    code.rotate(100_000);
    assert_eq!(code.value(), 100_001);
    code.rotate(555_555);
    assert_eq!(code.value(), 555_555);
    code.rotate(5);
    assert_eq!(code.value(), 555_556);
    code.rotate(1_000_000);
    assert_eq!(code.value(), 555_557);
    for _ in 0..100 {
        let fresh = PairingCode::generate();
        assert!((100_000..=999_999).contains(&fresh.value()));
    }
}

#[test]
fn drawn_codes_differ() {
    let mut seen = std::collections::HashSet::new();
    for _ in 0..200 {
        seen.insert(PairingCode::generate().value());
    }
    assert!(seen.len() > 1);
    let mut keys = std::collections::HashSet::new();
    for _ in 0..50 {
        let daemon: Daemon = Daemon::new(1716, "h", &Vec::new(), Vec::new());
        keys.insert(daemon.pairing_key());
    }
    assert!(keys.len() > 1);
}

#[test]
fn discovery_enters_and_removes_peers() {
    let mut daemon = daemon();
    let fullname = "Pixel._libreconnect._tcp.local.".to_string();
    daemon.handle_discovery(&DiscoveryEvent::ServiceFound { fullname: fullname.clone() });
    assert!(daemon.get_paired_devices().unwrap().is_empty());
    daemon.handle_discovery(&DiscoveryEvent::ServiceResolved {
        fullname: fullname.clone(),
        device_type: Some("mobile".to_string()),
    });
    assert_eq!(
        daemon.get_paired_devices().unwrap(),
        vec![DeviceInfo::new(&fullname, &fullname, DeviceType::Mobile, vec![])]
    );
    daemon.handle_discovery(&DiscoveryEvent::ServiceResolved {
        fullname: "Laptop".to_string(),
        device_type: None,
    });
    daemon.handle_discovery(&DiscoveryEvent::ServiceResolved {
        fullname: "Tv".to_string(),
        device_type: Some("Mobile".to_string()),
    });
    let devices = daemon.get_paired_devices().unwrap();
    assert_eq!(devices.len(), 3);
    assert_eq!(devices[1].device_type, DeviceType::Desktop);
    assert_eq!(devices[2].device_type, DeviceType::Desktop);
    daemon.handle_discovery(&DiscoveryEvent::Other);
    daemon.handle_discovery(&DiscoveryEvent::ServiceRemoved { fullname });
    daemon.handle_discovery(&DiscoveryEvent::ServiceRemoved { fullname: "unknown".to_string() });
    let names: Vec<String> =
        daemon.get_paired_devices().unwrap().into_iter().map(|d| d.name).collect();
    assert_eq!(names, vec!["Laptop".to_string(), "Tv".to_string()]);
}

#[test]
fn discovery_works_on_a_registry() {
    let mut registry = DeviceRegistry::new();
    apply_discovery(
        &mut registry,
        &DiscoveryEvent::ServiceResolved { fullname: "n".to_string(), device_type: None },
    );
    assert_eq!(registry.len(), 1);
    apply_discovery(&mut registry, &DiscoveryEvent::ServiceRemoved { fullname: "n".to_string() });
    assert!(registry.is_empty());
}

#[test]
fn advertisement_names_host_port_and_properties() {
    let daemon: Daemon = Daemon::new(1717, "My Work PC", &Vec::new(), Vec::new());
    let service = daemon.advertisement("My Work PC");
    assert_eq!(service.service_type, "_libreconnect._tcp.local.");
    assert_eq!(service.instance_name, "LibreConnect Desktop (My Work PC)");
    assert_eq!(service.host_name, "my-work-pc.local.");
    assert_eq!(service.address, "192.168.1.6");
    assert_eq!(service.port, 1717);
    assert_eq!(
        service.properties,
        vec![
            ("version".to_string(), "0.1.0".to_string()),
            ("device_type".to_string(), "desktop".to_string()),
            ("plugins".to_string(), "9".to_string()),
        ]
    );
}

#[test]
fn host_names_are_dashed_and_lowered() {
    assert_eq!(replace_spaces("a b  c"), "a-b--c");
    assert_eq!(replace_spaces(""), "");
    assert_eq!(replace_spaces("Ünïcödé name"), "Ünïcödé-name");
    assert_eq!(mdns_host_name("HOST"), "host.local.");
    assert_eq!(mdns_host_name("Ünï Host"), "ünï-host.local.");
}

#[test]
fn errors_end_what_they_reach() {
    let text = || "x".to_string();
    assert_eq!(DaemonError::MdnsInitialization(text()).scope(), Scope::Discovery);
    assert_eq!(DaemonError::MdnsRegistration(text()).scope(), Scope::Discovery);
    assert_eq!(DaemonError::MdnsBrowsing(text()).scope(), Scope::Discovery);
    assert_eq!(DaemonError::ServerStart(text()).scope(), Scope::Startup);
    assert_eq!(DaemonError::NetworkError(text()).scope(), Scope::Connection);
    assert_eq!(DaemonError::MessageTooLarge(1).scope(), Scope::Connection);
    assert_eq!(DaemonError::MessageDeserialization(text()).scope(), Scope::Connection);
    assert_eq!(DaemonError::MessageSerialization(text()).scope(), Scope::Connection);
    assert_eq!(DaemonError::Timeout(text()).scope(), Scope::Connection);
    assert_eq!(DaemonError::LockError(text()).scope(), Scope::Operation);
}

#[test]
fn errors_say_what_went_wrong() {
    assert_eq!(
        DaemonError::MdnsInitialization("no socket".to_string()).to_string(),
        "mDNS initialization failed: no socket"
    );
    assert_eq!(
        DaemonError::MdnsRegistration("dup".to_string()).to_string(),
        "mDNS registration failed: dup"
    );
    assert_eq!(DaemonError::MdnsBrowsing("x".to_string()).to_string(), "mDNS browsing failed: x");
    assert_eq!(DaemonError::ServerStart("in use".to_string()).to_string(), "Server start failed: in use");
    assert_eq!(DaemonError::NetworkError("reset".to_string()).to_string(), "Network error: reset");
    assert_eq!(
        DaemonError::MessageTooLarge(67_108_865).to_string(),
        "Message too large: 67108865 bytes (max: 67108864)"
    );
    assert_eq!(
        DaemonError::MessageDeserialization("eof".to_string()).to_string(),
        "Message deserialization failed: eof"
    );
    assert_eq!(
        DaemonError::MessageSerialization("nan".to_string()).to_string(),
        "Message serialization failed: nan"
    );
    assert_eq!(DaemonError::Timeout("read".to_string()).to_string(), "Operation timeout: read");
    assert_eq!(DaemonError::LockError("poisoned".to_string()).to_string(), "Lock error: poisoned");
}
