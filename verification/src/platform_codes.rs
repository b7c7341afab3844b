//! Code tables for the macOS backends: HID keyboard usages to kernel key
//! codes, kernel key codes to macOS virtual key codes, and the reading of a
//! HID input value as a platform event.
use vstd::prelude::*;

use crate::keycodes::{
    key_code_of_name, law_key_names_read_to_codes_1, law_key_names_read_to_codes_2,
    law_key_names_read_to_codes_3, law_key_names_read_to_codes_4, law_key_names_read_to_codes_5,
    law_key_names_read_to_codes_6, law_key_names_read_to_codes_7,
};
use crate::platform::{DeviceType, PlatformInputEvent};

verus! {

/// HID usage page: generic desktop controls.
pub const HID_PAGE_GENERIC_DESKTOP: u32 = 0x01;
/// HID usage page: keyboard/keypad.
pub const HID_PAGE_KEYBOARD: u32 = 0x07;
/// HID usage page: buttons.
pub const HID_PAGE_BUTTON: u32 = 0x09;
/// Generic desktop usage: pointer.
pub const HID_USAGE_GD_POINTER: u32 = 0x01;
/// Generic desktop usage: mouse.
pub const HID_USAGE_GD_MOUSE: u32 = 0x02;
/// Generic desktop usage: keyboard.
pub const HID_USAGE_GD_KEYBOARD: u32 = 0x06;
/// Generic desktop usage: keypad.
pub const HID_USAGE_GD_KEYPAD: u32 = 0x07;
/// Generic desktop usage: X axis.
pub const HID_USAGE_GD_X: u32 = 0x30;
/// Generic desktop usage: Y axis.
pub const HID_USAGE_GD_Y: u32 = 0x31;
/// Generic desktop usage: wheel.
pub const HID_USAGE_GD_WHEEL: u32 = 0x38;

/// The kernel key code of a HID keyboard usage; other usages keep their number, cut to 16 bits.
pub open spec fn hid_usage_key_code(u: u32) -> u16 {
    if u == 4 {
        30
    } else if u == 5 {
        48
    } else if u == 6 {
        46
    } else if u == 7 {
        32
    } else if u == 8 {
        18
    } else if u == 9 {
        33
    } else if u == 10 {
        34
    } else if u == 11 {
        35
    } else if u == 12 {
        23
    } else if u == 13 {
        36
    } else if u == 14 {
        37
    } else if u == 15 {
        38
    } else if u == 16 {
        50
    } else if u == 17 {
        49
    } else if u == 18 {
        24
    } else if u == 19 {
        25
    } else if u == 20 {
        16
    } else if u == 21 {
        19
    } else if u == 22 {
        31
    } else if u == 23 {
        20
    } else if u == 24 {
        22
    } else if u == 25 {
        47
    } else if u == 26 {
        17
    } else if u == 27 {
        45
    } else if u == 28 {
        21
    } else if u == 29 {
        44
    } else if u == 30 {
        2
    } else if u == 31 {
        3
    } else if u == 32 {
        4
    } else if u == 33 {
        5
    } else if u == 34 {
        6
    } else if u == 35 {
        7
    } else if u == 36 {
        8
    } else if u == 37 {
        9
    } else if u == 38 {
        10
    } else if u == 39 {
        11
    } else if u == 40 {
        28
    } else if u == 41 {
        1
    } else if u == 42 {
        14
    } else if u == 43 {
        15
    } else if u == 44 {
        57
    } else if u == 45 {
        12
    } else if u == 46 {
        13
    } else if u == 47 {
        26
    } else if u == 48 {
        27
    } else if u == 49 {
        43
    } else if u == 51 {
        39
    } else if u == 52 {
        40
    } else if u == 53 {
        41
    } else if u == 54 {
        51
    } else if u == 55 {
        52
    } else if u == 56 {
        53
    } else if u == 57 {
        58
    } else if u == 58 {
        59
    } else if u == 59 {
        60
    } else if u == 60 {
        61
    } else if u == 61 {
        62
    } else if u == 62 {
        63
    } else if u == 63 {
        64
    } else if u == 64 {
        65
    } else if u == 65 {
        66
    } else if u == 66 {
        67
    } else if u == 67 {
        68
    } else if u == 68 {
        87
    } else if u == 69 {
        88
    } else if u == 70 {
        99
    } else if u == 71 {
        70
    } else if u == 72 {
        119
    } else if u == 73 {
        110
    } else if u == 74 {
        102
    } else if u == 75 {
        104
    } else if u == 76 {
        111
    } else if u == 77 {
        107
    } else if u == 78 {
        109
    } else if u == 79 {
        106
    } else if u == 80 {
        105
    } else if u == 81 {
        108
    } else if u == 82 {
        103
    } else if u == 83 {
        69
    } else if u == 84 {
        98
    } else if u == 85 {
        55
    } else if u == 86 {
        74
    } else if u == 87 {
        78
    } else if u == 88 {
        96
    } else if u == 89 {
        79
    } else if u == 90 {
        80
    } else if u == 91 {
        81
    } else if u == 92 {
        75
    } else if u == 93 {
        76
    } else if u == 94 {
        77
    } else if u == 95 {
        71
    } else if u == 96 {
        72
    } else if u == 97 {
        73
    } else if u == 98 {
        82
    } else if u == 99 {
        83
    } else if u == 224 {
        29
    } else if u == 225 {
        42
    } else if u == 226 {
        56
    } else if u == 227 {
        125
    } else if u == 228 {
        97
    } else if u == 229 {
        54
    } else if u == 230 {
        100
    } else if u == 231 {
        126
    } else {
        u as u16
    }
}

/// Convert a HID keyboard usage code to a kernel key code.
pub fn hid_keyboard_to_evdev(u: u32) -> (r: u16)
    ensures
        r == hid_usage_key_code(u),
{
    match u {
        4 => 30,
        5 => 48,
        6 => 46,
        7 => 32,
        8 => 18,
        9 => 33,
        10 => 34,
        11 => 35,
        12 => 23,
        13 => 36,
        14 => 37,
        15 => 38,
        16 => 50,
        17 => 49,
        18 => 24,
        19 => 25,
        20 => 16,
        21 => 19,
        22 => 31,
        23 => 20,
        24 => 22,
        25 => 47,
        26 => 17,
        27 => 45,
        28 => 21,
        29 => 44,
        30 => 2,
        31 => 3,
        32 => 4,
        33 => 5,
        34 => 6,
        35 => 7,
        36 => 8,
        37 => 9,
        38 => 10,
        39 => 11,
        40 => 28,
        41 => 1,
        42 => 14,
        43 => 15,
        44 => 57,
        45 => 12,
        46 => 13,
        47 => 26,
        48 => 27,
        49 => 43,
        51 => 39,
        52 => 40,
        53 => 41,
        54 => 51,
        55 => 52,
        56 => 53,
        57 => 58,
        58 => 59,
        59 => 60,
        60 => 61,
        61 => 62,
        62 => 63,
        63 => 64,
        64 => 65,
        65 => 66,
        66 => 67,
        67 => 68,
        68 => 87,
        69 => 88,
        70 => 99,
        71 => 70,
        72 => 119,
        73 => 110,
        74 => 102,
        75 => 104,
        76 => 111,
        77 => 107,
        78 => 109,
        79 => 106,
        80 => 105,
        81 => 108,
        82 => 103,
        83 => 69,
        84 => 98,
        85 => 55,
        86 => 74,
        87 => 78,
        88 => 96,
        89 => 79,
        90 => 80,
        91 => 81,
        92 => 75,
        93 => 76,
        94 => 77,
        95 => 71,
        96 => 72,
        97 => 73,
        98 => 82,
        99 => 83,
        224 => 29,
        225 => 42,
        226 => 56,
        227 => 125,
        228 => 97,
        229 => 54,
        230 => 100,
        231 => 126,
        _ => #[verifier::truncate] (u as u16),
    }
}

/// The macOS virtual key code of a kernel key code; codes without one keep their number.
pub open spec fn macos_key_code(u: u16) -> u16 {
    if u == 1 {
        53
    } else if u == 2 {
        18
    } else if u == 3 {
        19
    } else if u == 4 {
        20
    } else if u == 5 {
        21
    } else if u == 6 {
        23
    } else if u == 7 {
        22
    } else if u == 8 {
        26
    } else if u == 9 {
        28
    } else if u == 10 {
        25
    } else if u == 11 {
        29
    } else if u == 12 {
        27
    } else if u == 13 {
        24
    } else if u == 14 {
        51
    } else if u == 15 {
        48
    } else if u == 16 {
        12
    } else if u == 17 {
        13
    } else if u == 18 {
        14
    } else if u == 19 {
        15
    } else if u == 20 {
        17
    } else if u == 21 {
        16
    } else if u == 22 {
        32
    } else if u == 23 {
        34
    } else if u == 24 {
        31
    } else if u == 25 {
        35
    } else if u == 26 {
        33
    } else if u == 27 {
        30
    } else if u == 28 {
        36
    } else if u == 29 {
        59
    } else if u == 30 {
        0
    } else if u == 31 {
        1
    } else if u == 32 {
        2
    } else if u == 33 {
        3
    } else if u == 34 {
        5
    } else if u == 35 {
        4
    } else if u == 36 {
        38
    } else if u == 37 {
        40
    } else if u == 38 {
        37
    } else if u == 39 {
        41
    } else if u == 40 {
        39
    } else if u == 41 {
        50
    } else if u == 42 {
        56
    } else if u == 43 {
        42
    } else if u == 44 {
        6
    } else if u == 45 {
        7
    } else if u == 46 {
        8
    } else if u == 47 {
        9
    } else if u == 48 {
        11
    } else if u == 49 {
        45
    } else if u == 50 {
        46
    } else if u == 51 {
        43
    } else if u == 52 {
        47
    } else if u == 53 {
        44
    } else if u == 54 {
        60
    } else if u == 56 {
        58
    } else if u == 57 {
        49
    } else if u == 58 {
        57
    } else if u == 59 {
        122
    } else if u == 60 {
        120
    } else if u == 61 {
        99
    } else if u == 62 {
        118
    } else if u == 63 {
        96
    } else if u == 64 {
        97
    } else if u == 65 {
        98
    } else if u == 66 {
        100
    } else if u == 67 {
        101
    } else if u == 68 {
        109
    } else if u == 87 {
        103
    } else if u == 88 {
        111
    } else if u == 103 {
        126
    } else if u == 105 {
        123
    } else if u == 106 {
        124
    } else if u == 108 {
        125
    } else if u == 125 {
        55
    } else {
        u
    }
}

/// Convert a kernel key code to a macOS virtual key code.
pub fn evdev_key_to_macos_keycode(u: u16) -> (r: u16)
    ensures
        r == macos_key_code(u),
{
    match u {
        1 => 53,
        2 => 18,
        3 => 19,
        4 => 20,
        5 => 21,
        6 => 23,
        7 => 22,
        8 => 26,
        9 => 28,
        10 => 25,
        11 => 29,
        12 => 27,
        13 => 24,
        14 => 51,
        15 => 48,
        16 => 12,
        17 => 13,
        18 => 14,
        19 => 15,
        20 => 17,
        21 => 16,
        22 => 32,
        23 => 34,
        24 => 31,
        25 => 35,
        26 => 33,
        27 => 30,
        28 => 36,
        29 => 59,
        30 => 0,
        31 => 1,
        32 => 2,
        33 => 3,
        34 => 5,
        35 => 4,
        36 => 38,
        37 => 40,
        38 => 37,
        39 => 41,
        40 => 39,
        41 => 50,
        42 => 56,
        43 => 42,
        44 => 6,
        45 => 7,
        46 => 8,
        47 => 9,
        48 => 11,
        49 => 45,
        50 => 46,
        51 => 43,
        52 => 47,
        53 => 44,
        54 => 60,
        56 => 58,
        57 => 49,
        58 => 57,
        59 => 122,
        60 => 120,
        61 => 99,
        62 => 118,
        63 => 96,
        64 => 97,
        65 => 98,
        66 => 100,
        67 => 101,
        68 => 109,
        87 => 103,
        88 => 111,
        103 => 126,
        105 => 123,
        106 => 124,
        108 => 125,
        125 => 55,
        _ => u,
    }
}

/// The device type that a HID usage page and usage describe.
pub open spec fn usage_device_type(usage_page: u32, usage: u32) -> DeviceType {
    if usage_page == HID_PAGE_GENERIC_DESKTOP {
        if usage == HID_USAGE_GD_KEYBOARD || usage == HID_USAGE_GD_KEYPAD {
            DeviceType::Keyboard
        } else if usage == HID_USAGE_GD_MOUSE || usage == HID_USAGE_GD_POINTER {
            DeviceType::Mouse
        } else {
            DeviceType::Other
        }
    } else {
        DeviceType::Other
    }
}

/// Get the device type from a usage page and usage.
pub fn get_device_type_from_usage(usage_page: u32, usage: u32) -> (r: DeviceType)
    ensures
        r == usage_device_type(usage_page, usage),
{
    if usage_page == HID_PAGE_GENERIC_DESKTOP {
        if usage == HID_USAGE_GD_KEYBOARD || usage == HID_USAGE_GD_KEYPAD {
            DeviceType::Keyboard
        } else if usage == HID_USAGE_GD_MOUSE || usage == HID_USAGE_GD_POINTER {
            DeviceType::Mouse
        } else {
            DeviceType::Other
        }
    } else {
        DeviceType::Other
    }
}

/// The (type, code, value) that a HID input value reads as, if any: keyboard
/// usages 4 to 231 as keys pressed or released, mouse axes and wheel as
/// relative motion, mouse buttons 1 to 5 as button presses or releases.
pub open spec fn hid_event(device_type: DeviceType, usage_page: u32, usage: u32, value: i32) -> Option<
    (u16, u16, i32),
> {
    let pressed: i32 = if value != 0 {
        1
    } else {
        0
    };
    match device_type {
        DeviceType::Keyboard => if usage_page == HID_PAGE_KEYBOARD && 4 <= usage <= 231 {
            Some((1u16, hid_usage_key_code(usage), pressed))
        } else {
            None
        },
        DeviceType::Mouse => if usage_page == HID_PAGE_GENERIC_DESKTOP {
            if usage == HID_USAGE_GD_X {
                Some((2u16, 0u16, value))
            } else if usage == HID_USAGE_GD_Y {
                Some((2u16, 1u16, value))
            } else if usage == HID_USAGE_GD_WHEEL {
                Some((2u16, 8u16, value))
            } else {
                None
            }
        } else if usage_page == HID_PAGE_BUTTON && 1 <= usage <= 5 {
            Some((1u16, (271 + usage) as u16, pressed))
        } else {
            None
        },
        _ => None,
    }
}

/// Convert a HID input value to a platform event, stamped with the current
/// time.
pub fn hid_to_platform_event(device_type: DeviceType, usage_page: u32, usage: u32, value: i32) -> (r:
    Option<PlatformInputEvent>)
    ensures
        match hid_event(device_type, usage_page, usage, value) {
            Some((t, c, v)) => r matches Some(e) && e.event_type == t && e.code == c && e.value
                == v,
            None => r is None,
        },
{
    let pressed: i32 = if value != 0 {
        1
    } else {
        0
    };
    match device_type {
        DeviceType::Keyboard => {
            if usage_page == HID_PAGE_KEYBOARD && 4 <= usage && usage <= 231 {
                let code = hid_keyboard_to_evdev(usage);
                Some(PlatformInputEvent::new(1, code, pressed))
            } else {
                None
            }
        },
        DeviceType::Mouse => {
            if usage_page == HID_PAGE_GENERIC_DESKTOP {
                if usage == HID_USAGE_GD_X {
                    Some(PlatformInputEvent::new(2, 0, value))
                } else if usage == HID_USAGE_GD_Y {
                    Some(PlatformInputEvent::new(2, 1, value))
                } else if usage == HID_USAGE_GD_WHEEL {
                    Some(PlatformInputEvent::new(2, 8, value))
                } else {
                    None
                }
            } else if usage_page == HID_PAGE_BUTTON {
                let button_code: u16 = if usage == 1 {
                    272
                } else if usage == 2 {
                    273
                } else if usage == 3 {
                    274
                } else if usage == 4 {
                    275
                } else if usage == 5 {
                    276
                } else {
                    return None;
                };
                Some(PlatformInputEvent::new(1, button_code, pressed))
            } else {
                None
            }
        },
        _ => None,
    }
}

/// The HID usages of the letters and of the digit row map to the keys of
/// the same names.
pub proof fn law_hid_letters_and_digits_keep_their_names()
    ensures
        hid_usage_key_code(4) == key_code_of_name("KEY_A"@)->0,
        hid_usage_key_code(5) == key_code_of_name("KEY_B"@)->0,
        hid_usage_key_code(6) == key_code_of_name("KEY_C"@)->0,
        hid_usage_key_code(7) == key_code_of_name("KEY_D"@)->0,
        hid_usage_key_code(8) == key_code_of_name("KEY_E"@)->0,
        hid_usage_key_code(9) == key_code_of_name("KEY_F"@)->0,
        hid_usage_key_code(10) == key_code_of_name("KEY_G"@)->0,
        hid_usage_key_code(11) == key_code_of_name("KEY_H"@)->0,
        hid_usage_key_code(12) == key_code_of_name("KEY_I"@)->0,
        hid_usage_key_code(13) == key_code_of_name("KEY_J"@)->0,
        hid_usage_key_code(14) == key_code_of_name("KEY_K"@)->0,
        hid_usage_key_code(15) == key_code_of_name("KEY_L"@)->0,
        hid_usage_key_code(16) == key_code_of_name("KEY_M"@)->0,
        hid_usage_key_code(17) == key_code_of_name("KEY_N"@)->0,
        hid_usage_key_code(18) == key_code_of_name("KEY_O"@)->0,
        hid_usage_key_code(19) == key_code_of_name("KEY_P"@)->0,
        hid_usage_key_code(20) == key_code_of_name("KEY_Q"@)->0,
        hid_usage_key_code(21) == key_code_of_name("KEY_R"@)->0,
        hid_usage_key_code(22) == key_code_of_name("KEY_S"@)->0,
        hid_usage_key_code(23) == key_code_of_name("KEY_T"@)->0,
        hid_usage_key_code(24) == key_code_of_name("KEY_U"@)->0,
        hid_usage_key_code(25) == key_code_of_name("KEY_V"@)->0,
        hid_usage_key_code(26) == key_code_of_name("KEY_W"@)->0,
        hid_usage_key_code(27) == key_code_of_name("KEY_X"@)->0,
        hid_usage_key_code(28) == key_code_of_name("KEY_Y"@)->0,
        hid_usage_key_code(29) == key_code_of_name("KEY_Z"@)->0,
        hid_usage_key_code(30) == key_code_of_name("KEY_1"@)->0,
        hid_usage_key_code(31) == key_code_of_name("KEY_2"@)->0,
        hid_usage_key_code(32) == key_code_of_name("KEY_3"@)->0,
        hid_usage_key_code(33) == key_code_of_name("KEY_4"@)->0,
        hid_usage_key_code(34) == key_code_of_name("KEY_5"@)->0,
        hid_usage_key_code(35) == key_code_of_name("KEY_6"@)->0,
        hid_usage_key_code(36) == key_code_of_name("KEY_7"@)->0,
        hid_usage_key_code(37) == key_code_of_name("KEY_8"@)->0,
        hid_usage_key_code(38) == key_code_of_name("KEY_9"@)->0,
        hid_usage_key_code(39) == key_code_of_name("KEY_0"@)->0,
{
    law_key_names_read_to_codes_1();
    law_key_names_read_to_codes_2();
    law_key_names_read_to_codes_3();
    law_key_names_read_to_codes_4();
    law_key_names_read_to_codes_5();
    law_key_names_read_to_codes_6();
    law_key_names_read_to_codes_7();
}

} // verus!
