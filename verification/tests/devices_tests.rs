use remapper::backends::{
    classify_device, has_gamepad_capabilities, input_backend, output_backend, is_fully_supported, platform_name, platform_notes,
    LinuxInputBackend, LinuxOutputBackend, MacOSOutputBackend, MouseButton, OutputAction,
    OutputDeviceKind, TargetPlatform, WindowsKeyboardMouseDevice, WindowsOutputBackend,
};
use remapper::config::DeviceMatch;
use remapper::devices::{awaited_device, monitor_step, DeviceEvent, DeviceInfo, DeviceManager, MonitorStep};
use remapper::platform::{AbsAxisInfo, DeviceCapabilities, DeviceType, PlatformDeviceInfo, PlatformInputEvent};

fn device(path: &str, name: &str, vendor: u16, product: u16, gamepad: bool, keyboard: bool, mouse: bool) -> DeviceInfo {
    DeviceInfo {
        path: String::from(path),
        name: String::from(name),
        phys: None,
        uniq: None,
        vendor,
        product,
        version: 1,
        is_keyboard: keyboard,
        is_mouse: mouse,
        is_gamepad: gamepad,
    }
}

fn info(id: &str, name: &str, vendor: u16, product: u16, t: DeviceType) -> PlatformDeviceInfo {
    PlatformDeviceInfo {
        id: String::from(id),
        name: String::from(name),
        vendor_id: vendor,
        product_id: product,
        device_type: t,
        path: Some(String::from(id)),
        supports_grab: true,
    }
}

#[test]
fn test_device_info_display() {
    let info = device("/dev/input/event0", "Test Device", 0x1234, 0x5678, true, false, false);

    assert!(info.display_name().contains("[Gamepad]"));
    assert!(info.display_name().contains("Test Device"));
    assert_eq!(info.id_string(), "1234:5678");
}

#[test]
fn test_keyboard_mouse_device_creation() {
    let device = WindowsKeyboardMouseDevice::new("Test KB/Mouse");
    assert_eq!(device.name(), "Test KB/Mouse");
}

#[test]
fn test_output_backend_availability() {
    // Whether the ViGEm bus driver answers is found out by the caller; the
    // keyboard and mouse output does not depend on it.
    for vigem in [false, true] {
        let backend = WindowsOutputBackend::new(vigem);
        assert!(backend.is_available());
        assert!(backend.supports_device_type(DeviceType::Keyboard));
        assert!(backend.supports_device_type(DeviceType::Mouse));
    }
}

// ---------------------------------------------------------------------------
// Further cases
// ---------------------------------------------------------------------------

#[test]
fn display_name_formats() {
    let kb = device("/dev/input/event3", "AT Keyboard", 1, 1, false, true, false);
    assert_eq!(kb.display_name(), "[Keyboard] AT Keyboard - /dev/input/event3");
    let other = device("/dev/input/event4", "Lid", 0, 0, false, false, false);
    assert_eq!(other.display_name(), "[Other] Lid - /dev/input/event4");
    let pinfo = info("/dev/input/event9", "Pad", 0x045e, 0x028e, DeviceType::Gamepad);
    assert_eq!(pinfo.display_name(), "[Gamepad] Pad - /dev/input/event9");
    assert_eq!(pinfo.id_string(), "045e:028e");
}

#[test]
fn find_by_name_ignores_case() {
    // Exercises the lower-casing call: upper-case text finds a lower-case name.
    let devices = vec![
        device("/dev/input/event1", "Generic Mouse", 1, 2, false, false, true),
        device("/dev/input/event2", "xbox wireless controller", 0x045e, 0x0b13, true, false, false),
    ];
    let found = DeviceManager::find_by_name(devices.clone(), "XBOX").unwrap();
    assert_eq!(found.path, "/dev/input/event2");
    assert!(DeviceManager::find_by_name(devices.clone(), "keyboard").is_none());
    assert_eq!(DeviceManager::find_by_exact_name(devices.clone(), "Generic Mouse").unwrap().vendor, 1);
    assert!(DeviceManager::find_by_exact_name(devices.clone(), "generic mouse").is_none());
    assert_eq!(DeviceManager::find_by_id(devices.clone(), 0x045e, 0x0b13).unwrap().name, "xbox wireless controller");
    assert_eq!(DeviceManager::list_gamepads(devices.clone()).len(), 1);
    assert_eq!(DeviceManager::list_mice(devices.clone()).len(), 1);
    assert_eq!(DeviceManager::list_keyboards(devices).len(), 0);
}

#[test]
fn device_match_resolves() {
    let devices = vec![
        device("/dev/input/event1", "Generic Mouse", 1, 2, false, false, true),
        device("/dev/input/event2", "Xbox Controller", 0x045e, 0x028e, true, false, false),
    ];
    assert_eq!(DeviceMatch::by_name("xbox").resolve(false, devices.clone()).unwrap(), "/dev/input/event2");
    assert_eq!(DeviceMatch::by_id(1, 2).resolve(false, devices.clone()).unwrap(), "/dev/input/event1");
    assert_eq!(DeviceMatch::by_path("/dev/input/event7").resolve(true, devices.clone()).unwrap(), "/dev/input/event7");
    assert_eq!(
        DeviceMatch::by_path("/dev/input/event7").resolve(false, devices.clone()).err().unwrap().to_string(),
        "Device not found: /dev/input/event7"
    );
    assert_eq!(
        DeviceMatch::by_id(9, 9).resolve(false, devices).err().unwrap().to_string(),
        "Device not found: 0009:0009"
    );
}

#[test]
fn devices_sort_by_path() {
    let sorted = DeviceManager::sort_devices(vec![
        device("/dev/input/event2", "b", 0, 0, false, false, false),
        device("/dev/input/event10", "c", 0, 0, false, false, false),
        device("/dev/input/event1", "a", 0, 0, false, false, false),
    ]);
    let paths: Vec<&str> = sorted.iter().map(|d| d.path.as_str()).collect();
    assert_eq!(paths, vec!["/dev/input/event1", "/dev/input/event10", "/dev/input/event2"]);
}

#[test]
fn device_info_from_parts_and_platform() {
    let keys = vec![30u16, 44, 28, 272];
    let d = DeviceInfo::from_parts(String::from("/dev/input/event5"), None, None, None, 1, 2, 3, &keys, false, true);
    assert_eq!(d.name, "Unknown");
    assert!(d.is_keyboard && d.is_mouse && !d.is_gamepad);
    let pad = DeviceInfo::from_parts(String::from("/dev/input/event6"), Some(String::from("Pad")), None, None, 1, 2, 3, &vec![304u16], true, false);
    assert!(pad.is_gamepad && !pad.is_keyboard);

    let p = PlatformDeviceInfo {
        id: String::from("gamepad:0"),
        name: String::from("Pad"),
        vendor_id: 7,
        product_id: 8,
        device_type: DeviceType::Gamepad,
        path: None,
        supports_grab: false,
    };
    let d: DeviceInfo = DeviceInfo::from(p);
    assert_eq!(d.path, "gamepad:0");
    assert!(d.is_gamepad);
    assert_eq!(d.version, 0);
}

#[test]
fn platforms() {
    assert_eq!(platform_name(TargetPlatform::Linux), "Linux");
    assert_eq!(platform_name(TargetPlatform::MacOS), "macOS");
    assert_eq!(platform_name(TargetPlatform::Other), "Unknown");
    assert!(is_fully_supported(TargetPlatform::Windows));
    assert!(!is_fully_supported(TargetPlatform::MacOS));
    assert!(platform_notes(TargetPlatform::Linux).is_none());
    assert_eq!(platform_notes(TargetPlatform::Other), Some("This platform is not supported"));
}

fn gamepad_caps() -> DeviceCapabilities {
    DeviceCapabilities {
        keys: vec![304, 305],
        abs_axes: vec![AbsAxisInfo { code: 0, value: 0, minimum: -32768, maximum: 32767, fuzz: 16, flat: 128, resolution: 0 }],
        rel_axes: vec![],
    }
}

#[test]
fn output_device_kinds() {
    let caps = gamepad_caps();
    assert!(has_gamepad_capabilities(&caps));
    let kb = DeviceCapabilities { keys: vec![30, 31], abs_axes: vec![], rel_axes: vec![] };
    assert!(!has_gamepad_capabilities(&kb));

    // Without ViGEm, gamepads are refused and keyboard/mouse output still works.
    let no_vigem = WindowsOutputBackend::new(false);
    assert_eq!(
        no_vigem.device_kind(&caps).err().unwrap().to_string(),
        "Not supported: ViGEmBus driver not installed. Please install from: https://github.com/ViGEm/ViGEmBus/releases"
    );
    assert!(matches!(no_vigem.device_kind(&kb), Ok(OutputDeviceKind::KeyboardMouse)));
    assert!(!no_vigem.supports_device_type(DeviceType::Gamepad));
    assert!(no_vigem.availability_message().is_some());
    let vigem = WindowsOutputBackend::new(true);
    assert!(matches!(vigem.device_kind(&caps), Ok(OutputDeviceKind::Gamepad)));
    assert!(vigem.availability_message().is_none());

    let mac = MacOSOutputBackend::new();
    assert!(mac.device_kind(&caps).is_err());
    assert!(matches!(mac.device_kind(&kb), Ok(OutputDeviceKind::KeyboardMouse)));
    assert!(!mac.supports_device_type(DeviceType::Gamepad));

    let linux = LinuxOutputBackend::new();
    assert!(linux.supports_device_type(DeviceType::Gamepad));
    assert!(linux.availability_message(true).is_none());
    assert_eq!(
        linux.availability_message(false).unwrap(),
        "uinput module not loaded or /dev/uinput not accessible. Try: sudo modprobe uinput"
    );
}

#[test]
fn output_actions() {
    let win = WindowsKeyboardMouseDevice::new("kbm");
    let left = PlatformInputEvent { event_type: 1, code: 272, value: 1, timestamp_us: 0 };
    assert_eq!(win.action(&left), Some(OutputAction::MouseButton { button: MouseButton::Left, pressed: true }));
    let side = PlatformInputEvent { event_type: 1, code: 275, value: 1, timestamp_us: 0 };
    assert_eq!(win.action(&side), None);
    let key = PlatformInputEvent { event_type: 1, code: 30, value: 0, timestamp_us: 0 };
    assert_eq!(win.action(&key), Some(OutputAction::Key { code: 30, pressed: false }));
    let wheel = PlatformInputEvent { event_type: 2, code: 8, value: -2, timestamp_us: 0 };
    assert_eq!(win.action(&wheel), Some(OutputAction::Scroll { vertical: -240, horizontal: 0 }));
    let hwheel = PlatformInputEvent { event_type: 2, code: 6, value: 1, timestamp_us: 0 };
    assert_eq!(win.action(&hwheel), None);

    let mac = MacOSOutputBackend::new();
    assert_eq!(mac.action(&key), Some(OutputAction::Key { code: 0, pressed: false }));
    assert_eq!(mac.action(&hwheel), Some(OutputAction::Scroll { vertical: 0, horizontal: 1 }));
    let abs = PlatformInputEvent { event_type: 3, code: 0, value: 5, timestamp_us: 0 };
    assert_eq!(mac.action(&abs), None);
}

#[test]
fn linux_backend_classifies_sorts_and_finds() {
    assert!(matches!(classify_device(&vec![304u16, 30, 44, 28], false), DeviceType::Gamepad));
    assert!(matches!(classify_device(&vec![30u16, 44, 28], true), DeviceType::Keyboard));
    assert!(matches!(classify_device(&vec![272u16], true), DeviceType::Mouse));
    assert!(matches!(classify_device(&vec![272u16], false), DeviceType::Other));

    let backend = LinuxInputBackend::new();
    let d = backend.device_info("/dev/input/event4", None, 3, 4, &vec![272u16], true);
    assert_eq!(d.name, "Unknown");
    assert_eq!(d.path.as_deref(), Some("/dev/input/event4"));
    assert!(d.supports_grab);

    let listed = backend.sort_devices(vec![
        info("/dev/input/event3", "Keyboard", 1, 1, DeviceType::Keyboard),
        info("/dev/input/event1", "Xbox Pad", 0x045e, 0x028e, DeviceType::Gamepad),
    ]);
    assert_eq!(listed[0].id, "/dev/input/event1");
    assert_eq!(backend.find_by_name(listed.clone(), "PAD").unwrap().vendor_id, 0x045e);
    assert!(backend.find_by_name(listed.clone(), "mouse").is_none());
    assert_eq!(backend.find_by_id(listed, 1, 1).unwrap().name, "Keyboard");
}

#[test]
fn backend_list_becomes_device_list() {
    let listed = vec![
        info("/dev/input/event3", "Pad", 0x045e, 0x028e, DeviceType::Gamepad),
        info("/dev/input/event1", "Board", 1, 2, DeviceType::Keyboard),
    ];
    let devices = DeviceManager::list_devices(listed);
    assert_eq!(devices.len(), 2);
    assert_eq!(devices[0].name, "Pad");
    assert!(devices[0].is_gamepad);
    assert_eq!(devices[1].path, "/dev/input/event1");
    assert!(devices[1].is_keyboard);
    assert!(DeviceManager::list_devices(Vec::new()).is_empty());
}

#[test]
fn monitor_looks_up_created_and_reports_deleted_event_nodes() {
    match monitor_step("event7", true, false) {
        Some(MonitorStep::LookUp(p)) => assert_eq!(p, "/dev/input/event7"),
        other => panic!("unexpected {:?}", other),
    }
    match monitor_step("event7", false, true) {
        Some(MonitorStep::Report(DeviceEvent::Removed(p))) => assert_eq!(p, "/dev/input/event7"),
        other => panic!("unexpected {:?}", other),
    }
    assert!(monitor_step("mouse0", true, false).is_none());
    assert!(monitor_step("js0", false, true).is_none());
    assert!(monitor_step("event2", false, false).is_none());
}

#[test]
fn waiter_takes_matching_added_device_only() {
    let d = device("/dev/input/event9", "Xbox Wireless Controller", 0x045e, 0x0b13, true, false, false);
    let got = awaited_device(DeviceEvent::Added(d), "XBOX");
    assert_eq!(got.map(|d| d.path), Some(String::from("/dev/input/event9")));
    let other = device("/dev/input/event4", "Logitech Mouse", 1, 2, false, false, true);
    assert!(awaited_device(DeviceEvent::Added(other), "xbox").is_none());
    assert!(awaited_device(DeviceEvent::Removed(String::from("/dev/input/event9")), "xbox").is_none());
}

#[test]
fn platform_backends() {
    let input = input_backend();
    let output = output_backend();
    assert!(output.supports_device_type(DeviceType::Gamepad));
    let found = input.find_by_id(vec![info("/dev/input/event0", "Pad", 7, 8, DeviceType::Gamepad)], 7, 8);
    assert!(found.is_some());
}
