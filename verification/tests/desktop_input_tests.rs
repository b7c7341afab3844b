use remapper::desktop_input::{
    axis_to_code, button_event, button_to_code, desktop_capabilities, gamepad_capabilities,
    generate_device_name, raw_keyboard_events, raw_mouse_events, windows_vkey_to_evdev,
    GamepadAxis, GamepadButton,
};
use remapper::platform::{DeviceType, PlatformInputEvent};

fn triples(events: &[PlatformInputEvent]) -> Vec<(u16, u16, i32)> {
    events.iter().map(|e| (e.event_type, e.code, e.value)).collect()
}

#[test]
fn gamepad_codes() {
    assert_eq!(button_to_code(GamepadButton::South), Some(304));
    assert_eq!(button_to_code(GamepadButton::C), Some(306));
    assert_eq!(button_to_code(GamepadButton::DPadUp), Some(0));
    assert_eq!(button_to_code(GamepadButton::Unknown), None);
    assert_eq!(axis_to_code(GamepadAxis::RightStickY), Some(4));
    assert_eq!(axis_to_code(GamepadAxis::DPadY), Some(17));
    assert_eq!(axis_to_code(GamepadAxis::Unknown), None);
    let e = button_event(GamepadButton::Start, false).unwrap();
    assert_eq!((e.event_type, e.code, e.value), (1, 315, 0));
    assert!(button_event(GamepadButton::Unknown, true).is_none());
}

#[test]
fn capabilities() {
    let pad = gamepad_capabilities();
    assert_eq!(pad.keys, (304u16..=318).collect::<Vec<u16>>());
    assert_eq!(pad.abs_axes.len(), 8);
    assert_eq!(pad.abs_axes[4].code, 2);
    assert_eq!(pad.abs_axes[4].maximum, 255);
    assert_eq!(pad.abs_axes[7].minimum, -1);
    let kb = desktop_capabilities(DeviceType::Keyboard);
    assert_eq!(kb.keys.len(), 88 + 16 + 3);
    assert_eq!(kb.keys[88], 96);
    assert_eq!(*kb.keys.last().unwrap(), 126);
    let mouse = desktop_capabilities(DeviceType::Mouse);
    assert_eq!(mouse.keys, vec![272, 273, 274, 275, 276]);
    assert_eq!(mouse.rel_axes, vec![0, 1, 8, 6]);
    assert!(desktop_capabilities(DeviceType::Gamepad).keys.is_empty());
}

#[test]
fn raw_device_names() {
    assert_eq!(generate_device_name("p", DeviceType::Keyboard, 0x046D, 1), "Logitech Keyboard");
    assert_eq!(generate_device_name("p", DeviceType::Mouse, 0, 0), "Generic Mouse");
    assert_eq!(generate_device_name("p", DeviceType::Other, 0xBEEF, 0x00a1), "BEEF:00A1 Device");
}

#[test]
fn raw_keyboard_reports() {
    assert_eq!(windows_vkey_to_evdev(0x41), 30);
    assert_eq!(windows_vkey_to_evdev(0x2C), 99);
    assert_eq!(windows_vkey_to_evdev(0xFF), 0);
    assert_eq!(triples(&raw_keyboard_events(0x41, 0)), vec![(1, 30, 1), (0, 0, 0)]);
    assert_eq!(triples(&raw_keyboard_events(0x41, 1)), vec![(1, 30, 0), (0, 0, 0)]);
    assert!(raw_keyboard_events(0xFF, 0).is_empty());
}

#[test]
fn raw_mouse_reports() {
    // Relative movement, left down, right up, one wheel notch down.
    let wheel_down: u16 = (-120i16) as u16;
    let out = raw_mouse_events(0, 3, -2, 0x0001 | 0x0008 | 0x0400, wheel_down);
    assert_eq!(
        triples(&out),
        vec![(2, 0, 3), (2, 1, -2), (1, 272, 1), (1, 273, 0), (2, 8, -1), (0, 0, 0)]
    );
    // Absolute reports do not move; small wheel data rounds toward zero.
    let out = raw_mouse_events(1, 3, 4, 0x0800, (-60i16) as u16);
    assert!(out.is_empty());
    let out = raw_mouse_events(1, 0, 0, 0x0800 | 0x0100, 240);
    assert_eq!(triples(&out), vec![(1, 276, 1), (2, 6, 2), (0, 0, 0)]);
}

#[test]
fn vendor_and_product_read_from_device_path() {
    use_parse();
}

fn use_parse() {
    let p = remapper::desktop_input::parse_vid_pid_from_path;
    assert_eq!(p(r"\\?\HID#VID_045E&PID_028E#7&1234"), Some((0x045E, 0x028E)));
    assert_eq!(p(r"\\?\hid#vid_046d&pid_c52b&mi_00#8"), Some((0x046D, 0xC52B)));
    assert_eq!(p(r"\\?\HID#VID_+12F&PID_0001#x"), Some((0x12F, 0x0001)));
    assert_eq!(p(r"\\?\HID#NOVENDOR#x"), None);
    assert_eq!(p(r"\\?\HID#VID_ZZZZ&PID_0001#x"), None);
    assert_eq!(p(r"\\?\HID#VID_045E#x-no-product"), None);
}

#[test]
fn checked_path_reading_refuses_cut_characters() {
    let c = remapper::desktop_input::checked_vid_pid_from_path;
    assert_eq!(c(r"\\?\HID#VID_045E&PID_028E#7"), Some(Some((0x045E, 0x028E))));
    assert_eq!(c(r"\\?\HID#NOVENDOR"), Some(None));
    // Fewer than four bytes follow the tag.
    assert_eq!(c(r"\\?\HID#VID_04"), None);
    // The fourth byte falls inside a character.
    assert_eq!(c("VID_00\u{20AC}&PID_0001"), None);
    // The fourth byte ends a character that is no hex digit.
    assert_eq!(c("VID_0\u{20AC}&PID_0001"), Some(None));
}
