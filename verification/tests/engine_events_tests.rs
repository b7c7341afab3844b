use remapper::error::RemapperError;
use remapper::config::{MacroStep, Mapping};
use remapper::engine::{build_handlers, process_event, reset_handlers, EngineState, EngineStats, Handler};
use remapper::events::{EventCode, EventType, InputEvent};
use remapper::keycodes::{
    abs_code_name, key_code_name, rel_code_name,
    abs_code_to_name, key_code_to_name, parse_abs_code_numeric, parse_key_code_numeric,
    parse_rel_code_numeric, rel_code_to_name,
};
use remapper::platform::PlatformInputEvent;
use remapper::platform_codes::{evdev_key_to_macos_keycode, get_device_type_from_usage, hid_keyboard_to_evdev};

#[test]
fn engine_routes_to_first_handler_and_passes_others() {
    let mappings = vec![
        Mapping::simple(EventCode::key("BTN_A"), EventCode::key("BTN_B")),
        Mapping::simple(EventCode::key("BTN_A"), EventCode::key("BTN_X")),
    ];
    let mut handlers = build_handlers(&mappings).unwrap();
    assert_eq!(handlers.len(), 2);
    assert_eq!(handlers[0].description(), "EV_KEY:BTN_A -> EV_KEY:BTN_B");
    let mut stats = EngineStats::default();

    let out = process_event(&mut handlers, &mut stats, InputEvent::new(EventType::Key, 304, 1));
    assert_eq!(out.len(), 1);
    assert_eq!(out[0].code, 305); // the first handler wins
    assert_eq!(stats.events_remapped, 1);

    let mut other = InputEvent::new(EventType::Key, 30, 1);
    other.time_sec = 12;
    other.time_usec = 34;
    let out = process_event(&mut handlers, &mut stats, other);
    assert_eq!(out.len(), 1);
    assert_eq!((out[0].code, out[0].value), (30, 1));
    // The event passes through itself, timestamp included.
    assert_eq!((out[0].time_sec, out[0].time_usec), (12, 34));
    assert_eq!(stats.events_passthrough, 1);

    let mut sync = InputEvent::sync();
    sync.time_sec = 56;
    sync.time_usec = 78;
    let out = process_event(&mut handlers, &mut stats, sync);
    assert_eq!(out.len(), 1);
    assert!(matches!(out[0].event_type, EventType::Syn));
    assert_eq!((out[0].time_sec, out[0].time_usec), (56, 78));
    assert_eq!(stats.events_passthrough, 1);

    reset_handlers(&mut handlers);
    assert_eq!(handlers.len(), 2);
}

#[test]
fn engine_refuses_bad_mapping() {
    let mappings = vec![
        Mapping::simple(EventCode::key("BTN_A"), EventCode::key("BTN_B")),
        Mapping::macro_seq(EventCode::key("BTN_A"), vec![MacroStep::press("NOT_A_KEY")]),
    ];
    assert!(build_handlers(&mappings).is_err());
    let combo = Mapping::combo(vec![EventCode::key("KEY_A"), EventCode::key("KEY_B")], EventCode::key("KEY_C"));
    match Handler::from_mapping(&combo).unwrap() {
        Handler::Combo(_) => {}
        _ => panic!("expected a combo handler"),
    }
    assert_eq!(EngineState::Running.to_string(), "Running");
}

#[test]
fn event_types_round_trip() {
    // Law: converting a known type to its code and back gives the type.
    for t in [EventType::Syn, EventType::Key, EventType::Rel, EventType::Abs, EventType::Msc, EventType::Ff] {
        assert_eq!(EventType::from_code(t.to_code()), Some(t));
    }
    assert_eq!(EventType::from_code(99), None);
    assert_eq!(EventType::Key.to_string(), "EV_KEY");
    assert_eq!(EventCode::abs("ABS_X").to_string(), "EV_ABS:ABS_X");
    assert_eq!(EventCode::key("KEY_ESC").to_key_code(), Some(1));
}

#[test]
fn input_events_and_platform_events() {
    let e = InputEvent::new(EventType::Key, 30, 1);
    // The clock gives microseconds below one second, after 1970.
    assert!(e.time_usec < 1_000_000);
    assert!(e.time_sec > 1_600_000_000);
    assert!(e.is_key_press() && !e.is_key_release() && !e.is_sync());
    assert!(InputEvent::key_release(30).is_key_release());

    // Law: an event taken to the platform form and back keeps its content.
    let p = e.to_platform();
    assert_eq!(p.event_type, 1);
    assert_eq!(p.timestamp_us, (e.time_sec as u64) * 1_000_000 + e.time_usec as u64);
    let back = InputEvent::from_platform(&p);
    assert_eq!((back.code, back.value, back.time_sec, back.time_usec), (30, 1, e.time_sec, e.time_usec));

    let pe = PlatformInputEvent { event_type: 3, code: 0, value: -5, timestamp_us: 2_500_000 };
    let ie = InputEvent::from_platform(&pe);
    assert!(matches!(ie.event_type, EventType::Abs));
    assert_eq!((ie.time_sec, ie.time_usec), (2, 500_000));
    assert!(PlatformInputEvent::key_press(5).is_key_press());
    assert!(PlatformInputEvent::sync().is_sync());
    let now = PlatformInputEvent::new(1, 2, 3);
    assert!(now.timestamp_us > 1_600_000_000_000_000);
}

#[test]
fn key_tables() {
    assert_eq!(parse_key_code_numeric("KEY_ESC"), Some(1));
    assert_eq!(parse_key_code_numeric("BTN_SOUTH"), Some(304));
    assert_eq!(parse_key_code_numeric("BTN_A"), Some(304));
    assert_eq!(parse_key_code_numeric("KEY_NOPE"), None);
    assert_eq!(key_code_to_name(1), "KEY_ESC");
    assert_eq!(key_code_to_name(304), "BTN_SOUTH");
    assert_eq!(parse_abs_code_numeric("ABS_X"), Some(0));
    assert_eq!(abs_code_to_name(0), "ABS_X");
    assert_eq!(parse_rel_code_numeric("REL_WHEEL"), Some(8));
    assert_eq!(rel_code_to_name(8), "REL_WHEEL");
    // Unnamed codes are written with their number.
    assert_eq!(key_code_to_name(0), "KEY_0");
    assert_eq!(key_code_to_name(9000), "KEY_9000");
    assert_eq!(hid_keyboard_to_evdev(0x04), 30);
    assert_eq!(evdev_key_to_macos_keycode(1), 0x35);
    assert_eq!(evdev_key_to_macos_keycode(9999), 9999);
    assert!(matches!(get_device_type_from_usage(0x01, 0x06), remapper::platform::DeviceType::Keyboard));
}

#[test]
fn gamepad_aliases_show_their_canonical_names() {
    let shown = |s: &str| key_code_to_name(parse_key_code_numeric(s).unwrap());
    assert_eq!(shown("BTN_A"), "BTN_SOUTH");
    assert_eq!(shown("BTN_B"), "BTN_EAST");
    assert_eq!(shown("BTN_X"), "BTN_NORTH");
    assert_eq!(shown("BTN_Y"), "BTN_WEST");
    assert_eq!(shown("BTN_TL"), "BTN_TL");
}

#[test]
fn every_named_key_code_reads_back() {
    let mut named = 0;
    for code in 0u16..1000 {
        let name = key_code_to_name(code);
        if name != format!("KEY_{}", code) {
            named += 1;
            assert_eq!(parse_key_code_numeric(&name), Some(code), "{}", name);
        }
    }
    assert!(named > 100);
}

#[test]
fn every_error_shows_its_message() {
    let s = || String::from("x");
    let cases: Vec<(RemapperError, &str)> = vec![
        (RemapperError::DeviceNotFound(s()), "Device not found: x"),
        (RemapperError::PermissionDenied(s()), "Permission denied: x. Try running with sudo or add user to 'input' group"),
        (RemapperError::GrabFailed(s()), "Failed to grab device: x"),
        (RemapperError::UngrabFailed(s()), "Failed to ungrab device: x"),
        (RemapperError::ConfigError(s()), "Configuration error: x"),
        (RemapperError::ConfigNotFound { path: s() }, "Configuration file not found: x"),
        (RemapperError::ConfigParseError(s()), "Failed to parse configuration: x"),
        (RemapperError::ProfileNotFound(s()), "Profile not found: x"),
        (RemapperError::ProfileExists(s()), "Profile already exists: x"),
        (RemapperError::InvalidMapping(s()), "Invalid mapping: x"),
        (RemapperError::UInputCreationFailed(s()), "Failed to create virtual device: x"),
        (RemapperError::EventReadError(s()), "Failed to read event: x"),
        (RemapperError::EventWriteError(s()), "Failed to write event: x"),
        (RemapperError::EngineAlreadyRunning(s()), "Engine already running: x"),
        (RemapperError::EngineNotRunning(s()), "Engine not running: x"),
        (RemapperError::IoError(s()), "IO error: x"),
        (RemapperError::JsonError(s()), "JSON error: x"),
        (RemapperError::PlatformError(s()), "Platform error: x"),
        (RemapperError::SystemError(s()), "System error: x"),
        (RemapperError::ChannelError, "Channel error: failed to send message"),
        (RemapperError::Timeout(s()), "Operation timed out: x"),
        (RemapperError::NotSupported(s()), "Not supported: x"),
    ];
    for (e, text) in cases {
        assert_eq!(e.to_string(), text);
    }
}

#[test]
fn axis_names_read_back() {
    use_axis_tables();
}

fn use_axis_tables() {
    for code in 0u16..100 {
        let abs = remapper::keycodes::abs_code_to_name(code);
        match remapper::keycodes::parse_abs_code_numeric(&abs) {
            Some(c) => assert_eq!(c, code),
            None => assert_eq!(abs, format!("ABS_{}", code)),
        }
        let rel = remapper::keycodes::rel_code_to_name(code);
        match remapper::keycodes::parse_rel_code_numeric(&rel) {
            Some(c) => assert_eq!(c, code),
            None => assert_eq!(rel, format!("REL_{}", code)),
        }
    }
    assert_eq!(remapper::keycodes::rel_code_to_name(8), "REL_WHEEL");
    assert_eq!(remapper::keycodes::parse_rel_code_numeric("REL_10"), None);
}

#[test]
fn evdev_names_of_codes() {
    assert_eq!(key_code_name(30), "KEY_A");
    assert_eq!(key_code_name(1), "KEY_ESC");
    assert_eq!(key_code_name(1000), "unknown key: 1000");
    assert_eq!(abs_code_name(0), "ABS_X");
    assert_eq!(abs_code_name(0x10), "ABS_HAT0X");
    assert_eq!(rel_code_name(8), "REL_WHEEL");
    assert_eq!(rel_code_name(6), "REL_HWHEEL");
}
