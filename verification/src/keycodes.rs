//! Key, absolute-axis and relative-axis code names: the tables that turn a
//! name such as `KEY_ESC` into its numeric code and a numeric code back into
//! its name.
use vstd::prelude::*;
use vstd::string::*;

use crate::text::{dec_str, is_digit, lemma_dec_str_digits, push_dec, str_eq};

verus! {

/// The numeric code of a key or button name, if the table knows the name.
pub open spec fn key_code_of_name(name: Seq<char>) -> Option<u16> {
    if name == "KEY_ESC"@ {
        Some(1u16)
    } else if name == "KEY_1"@ {
        Some(2u16)
    } else if name == "KEY_2"@ {
        Some(3u16)
    } else if name == "KEY_3"@ {
        Some(4u16)
    } else if name == "KEY_4"@ {
        Some(5u16)
    } else if name == "KEY_5"@ {
        Some(6u16)
    } else if name == "KEY_6"@ {
        Some(7u16)
    } else if name == "KEY_7"@ {
        Some(8u16)
    } else if name == "KEY_8"@ {
        Some(9u16)
    } else if name == "KEY_9"@ {
        Some(10u16)
    } else if name == "KEY_0"@ {
        Some(11u16)
    } else if name == "KEY_MINUS"@ {
        Some(12u16)
    } else if name == "KEY_EQUAL"@ {
        Some(13u16)
    } else if name == "KEY_BACKSPACE"@ {
        Some(14u16)
    } else if name == "KEY_TAB"@ {
        Some(15u16)
    } else if name == "KEY_Q"@ {
        Some(16u16)
    } else if name == "KEY_W"@ {
        Some(17u16)
    } else if name == "KEY_E"@ {
        Some(18u16)
    } else if name == "KEY_R"@ {
        Some(19u16)
    } else if name == "KEY_T"@ {
        Some(20u16)
    } else if name == "KEY_Y"@ {
        Some(21u16)
    } else if name == "KEY_U"@ {
        Some(22u16)
    } else if name == "KEY_I"@ {
        Some(23u16)
    } else if name == "KEY_O"@ {
        Some(24u16)
    } else if name == "KEY_P"@ {
        Some(25u16)
    } else if name == "KEY_LEFTBRACE"@ {
        Some(26u16)
    } else if name == "KEY_RIGHTBRACE"@ {
        Some(27u16)
    } else if name == "KEY_ENTER"@ {
        Some(28u16)
    } else if name == "KEY_LEFTCTRL"@ {
        Some(29u16)
    } else if name == "KEY_A"@ {
        Some(30u16)
    } else if name == "KEY_S"@ {
        Some(31u16)
    } else if name == "KEY_D"@ {
        Some(32u16)
    } else if name == "KEY_F"@ {
        Some(33u16)
    } else if name == "KEY_G"@ {
        Some(34u16)
    } else if name == "KEY_H"@ {
        Some(35u16)
    } else if name == "KEY_J"@ {
        Some(36u16)
    } else if name == "KEY_K"@ {
        Some(37u16)
    } else if name == "KEY_L"@ {
        Some(38u16)
    } else if name == "KEY_SEMICOLON"@ {
        Some(39u16)
    } else if name == "KEY_APOSTROPHE"@ {
        Some(40u16)
    } else if name == "KEY_GRAVE"@ {
        Some(41u16)
    } else if name == "KEY_LEFTSHIFT"@ {
        Some(42u16)
    } else if name == "KEY_BACKSLASH"@ {
        Some(43u16)
    } else if name == "KEY_Z"@ {
        Some(44u16)
    } else if name == "KEY_X"@ {
        Some(45u16)
    } else if name == "KEY_C"@ {
        Some(46u16)
    } else if name == "KEY_V"@ {
        Some(47u16)
    } else if name == "KEY_B"@ {
        Some(48u16)
    } else if name == "KEY_N"@ {
        Some(49u16)
    } else if name == "KEY_M"@ {
        Some(50u16)
    } else if name == "KEY_COMMA"@ {
        Some(51u16)
    } else if name == "KEY_DOT"@ {
        Some(52u16)
    } else if name == "KEY_SLASH"@ {
        Some(53u16)
    } else if name == "KEY_RIGHTSHIFT"@ {
        Some(54u16)
    } else if name == "KEY_KPASTERISK"@ {
        Some(55u16)
    } else if name == "KEY_LEFTALT"@ {
        Some(56u16)
    } else if name == "KEY_SPACE"@ {
        Some(57u16)
    } else if name == "KEY_CAPSLOCK"@ {
        Some(58u16)
    } else if name == "KEY_F1"@ {
        Some(59u16)
    } else if name == "KEY_F2"@ {
        Some(60u16)
    } else if name == "KEY_F3"@ {
        Some(61u16)
    } else if name == "KEY_F4"@ {
        Some(62u16)
    } else if name == "KEY_F5"@ {
        Some(63u16)
    } else if name == "KEY_F6"@ {
        Some(64u16)
    } else if name == "KEY_F7"@ {
        Some(65u16)
    } else if name == "KEY_F8"@ {
        Some(66u16)
    } else if name == "KEY_F9"@ {
        Some(67u16)
    } else if name == "KEY_F10"@ {
        Some(68u16)
    } else if name == "KEY_F11"@ {
        Some(87u16)
    } else if name == "KEY_F12"@ {
        Some(88u16)
    } else if name == "KEY_RIGHTCTRL"@ {
        Some(97u16)
    } else if name == "KEY_RIGHTALT"@ {
        Some(100u16)
    } else if name == "KEY_HOME"@ {
        Some(102u16)
    } else if name == "KEY_UP"@ {
        Some(103u16)
    } else if name == "KEY_PAGEUP"@ {
        Some(104u16)
    } else if name == "KEY_LEFT"@ {
        Some(105u16)
    } else if name == "KEY_RIGHT"@ {
        Some(106u16)
    } else if name == "KEY_END"@ {
        Some(107u16)
    } else if name == "KEY_DOWN"@ {
        Some(108u16)
    } else if name == "KEY_PAGEDOWN"@ {
        Some(109u16)
    } else if name == "KEY_INSERT"@ {
        Some(110u16)
    } else if name == "KEY_DELETE"@ {
        Some(111u16)
    } else if name == "KEY_LEFTMETA"@ {
        Some(125u16)
    } else if name == "KEY_RIGHTMETA"@ {
        Some(126u16)
    } else if name == "BTN_A"@ || name == "BTN_SOUTH"@ {
        Some(304u16)
    } else if name == "BTN_B"@ || name == "BTN_EAST"@ {
        Some(305u16)
    } else if name == "BTN_C"@ {
        Some(306u16)
    } else if name == "BTN_X"@ || name == "BTN_NORTH"@ {
        Some(307u16)
    } else if name == "BTN_Y"@ || name == "BTN_WEST"@ {
        Some(308u16)
    } else if name == "BTN_Z"@ {
        Some(309u16)
    } else if name == "BTN_TL"@ {
        Some(310u16)
    } else if name == "BTN_TR"@ {
        Some(311u16)
    } else if name == "BTN_TL2"@ {
        Some(312u16)
    } else if name == "BTN_TR2"@ {
        Some(313u16)
    } else if name == "BTN_SELECT"@ {
        Some(314u16)
    } else if name == "BTN_START"@ {
        Some(315u16)
    } else if name == "BTN_MODE"@ {
        Some(316u16)
    } else if name == "BTN_THUMBL"@ {
        Some(317u16)
    } else if name == "BTN_THUMBR"@ {
        Some(318u16)
    } else if name == "BTN_DPAD_UP"@ {
        Some(544u16)
    } else if name == "BTN_DPAD_DOWN"@ {
        Some(545u16)
    } else if name == "BTN_DPAD_LEFT"@ {
        Some(546u16)
    } else if name == "BTN_DPAD_RIGHT"@ {
        Some(547u16)
    } else if name == "BTN_LEFT"@ {
        Some(272u16)
    } else if name == "BTN_RIGHT"@ {
        Some(273u16)
    } else if name == "BTN_MIDDLE"@ {
        Some(274u16)
    } else if name == "BTN_SIDE"@ {
        Some(275u16)
    } else if name == "BTN_EXTRA"@ {
        Some(276u16)
    } else if name == "BTN_FORWARD"@ {
        Some(277u16)
    } else if name == "BTN_BACK"@ {
        Some(278u16)
    } else {
        None
    }
}

/// Parses a key or button name such as `KEY_ESC` or `BTN_SOUTH` to its numeric code.
pub fn parse_key_code_numeric(code: &str) -> (r: Option<u16>)
    ensures
        r == key_code_of_name(code@),
{
    if str_eq(code, "KEY_ESC") {
        Some(1)
    } else if str_eq(code, "KEY_1") {
        Some(2)
    } else if str_eq(code, "KEY_2") {
        Some(3)
    } else if str_eq(code, "KEY_3") {
        Some(4)
    } else if str_eq(code, "KEY_4") {
        Some(5)
    } else if str_eq(code, "KEY_5") {
        Some(6)
    } else if str_eq(code, "KEY_6") {
        Some(7)
    } else if str_eq(code, "KEY_7") {
        Some(8)
    } else if str_eq(code, "KEY_8") {
        Some(9)
    } else if str_eq(code, "KEY_9") {
        Some(10)
    } else if str_eq(code, "KEY_0") {
        Some(11)
    } else if str_eq(code, "KEY_MINUS") {
        Some(12)
    } else if str_eq(code, "KEY_EQUAL") {
        Some(13)
    } else if str_eq(code, "KEY_BACKSPACE") {
        Some(14)
    } else if str_eq(code, "KEY_TAB") {
        Some(15)
    } else if str_eq(code, "KEY_Q") {
        Some(16)
    } else if str_eq(code, "KEY_W") {
        Some(17)
    } else if str_eq(code, "KEY_E") {
        Some(18)
    } else if str_eq(code, "KEY_R") {
        Some(19)
    } else if str_eq(code, "KEY_T") {
        Some(20)
    } else if str_eq(code, "KEY_Y") {
        Some(21)
    } else if str_eq(code, "KEY_U") {
        Some(22)
    } else if str_eq(code, "KEY_I") {
        Some(23)
    } else if str_eq(code, "KEY_O") {
        Some(24)
    } else if str_eq(code, "KEY_P") {
        Some(25)
    } else if str_eq(code, "KEY_LEFTBRACE") {
        Some(26)
    } else if str_eq(code, "KEY_RIGHTBRACE") {
        Some(27)
    } else if str_eq(code, "KEY_ENTER") {
        Some(28)
    } else if str_eq(code, "KEY_LEFTCTRL") {
        Some(29)
    } else if str_eq(code, "KEY_A") {
        Some(30)
    } else if str_eq(code, "KEY_S") {
        Some(31)
    } else if str_eq(code, "KEY_D") {
        Some(32)
    } else if str_eq(code, "KEY_F") {
        Some(33)
    } else if str_eq(code, "KEY_G") {
        Some(34)
    } else if str_eq(code, "KEY_H") {
        Some(35)
    } else if str_eq(code, "KEY_J") {
        Some(36)
    } else if str_eq(code, "KEY_K") {
        Some(37)
    } else if str_eq(code, "KEY_L") {
        Some(38)
    } else if str_eq(code, "KEY_SEMICOLON") {
        Some(39)
    } else if str_eq(code, "KEY_APOSTROPHE") {
        Some(40)
    } else if str_eq(code, "KEY_GRAVE") {
        Some(41)
    } else if str_eq(code, "KEY_LEFTSHIFT") {
        Some(42)
    } else if str_eq(code, "KEY_BACKSLASH") {
        Some(43)
    } else if str_eq(code, "KEY_Z") {
        Some(44)
    } else if str_eq(code, "KEY_X") {
        Some(45)
    } else if str_eq(code, "KEY_C") {
        Some(46)
    } else if str_eq(code, "KEY_V") {
        Some(47)
    } else if str_eq(code, "KEY_B") {
        Some(48)
    } else if str_eq(code, "KEY_N") {
        Some(49)
    } else if str_eq(code, "KEY_M") {
        Some(50)
    } else if str_eq(code, "KEY_COMMA") {
        Some(51)
    } else if str_eq(code, "KEY_DOT") {
        Some(52)
    } else if str_eq(code, "KEY_SLASH") {
        Some(53)
    } else if str_eq(code, "KEY_RIGHTSHIFT") {
        Some(54)
    } else if str_eq(code, "KEY_KPASTERISK") {
        Some(55)
    } else if str_eq(code, "KEY_LEFTALT") {
        Some(56)
    } else if str_eq(code, "KEY_SPACE") {
        Some(57)
    } else if str_eq(code, "KEY_CAPSLOCK") {
        Some(58)
    } else if str_eq(code, "KEY_F1") {
        Some(59)
    } else if str_eq(code, "KEY_F2") {
        Some(60)
    } else if str_eq(code, "KEY_F3") {
        Some(61)
    } else if str_eq(code, "KEY_F4") {
        Some(62)
    } else if str_eq(code, "KEY_F5") {
        Some(63)
    } else if str_eq(code, "KEY_F6") {
        Some(64)
    } else if str_eq(code, "KEY_F7") {
        Some(65)
    } else if str_eq(code, "KEY_F8") {
        Some(66)
    } else if str_eq(code, "KEY_F9") {
        Some(67)
    } else if str_eq(code, "KEY_F10") {
        Some(68)
    } else if str_eq(code, "KEY_F11") {
        Some(87)
    } else if str_eq(code, "KEY_F12") {
        Some(88)
    } else if str_eq(code, "KEY_RIGHTCTRL") {
        Some(97)
    } else if str_eq(code, "KEY_RIGHTALT") {
        Some(100)
    } else if str_eq(code, "KEY_HOME") {
        Some(102)
    } else if str_eq(code, "KEY_UP") {
        Some(103)
    } else if str_eq(code, "KEY_PAGEUP") {
        Some(104)
    } else if str_eq(code, "KEY_LEFT") {
        Some(105)
    } else if str_eq(code, "KEY_RIGHT") {
        Some(106)
    } else if str_eq(code, "KEY_END") {
        Some(107)
    } else if str_eq(code, "KEY_DOWN") {
        Some(108)
    } else if str_eq(code, "KEY_PAGEDOWN") {
        Some(109)
    } else if str_eq(code, "KEY_INSERT") {
        Some(110)
    } else if str_eq(code, "KEY_DELETE") {
        Some(111)
    } else if str_eq(code, "KEY_LEFTMETA") {
        Some(125)
    } else if str_eq(code, "KEY_RIGHTMETA") {
        Some(126)
    } else if str_eq(code, "BTN_A") || str_eq(code, "BTN_SOUTH") {
        Some(304)
    } else if str_eq(code, "BTN_B") || str_eq(code, "BTN_EAST") {
        Some(305)
    } else if str_eq(code, "BTN_C") {
        Some(306)
    } else if str_eq(code, "BTN_X") || str_eq(code, "BTN_NORTH") {
        Some(307)
    } else if str_eq(code, "BTN_Y") || str_eq(code, "BTN_WEST") {
        Some(308)
    } else if str_eq(code, "BTN_Z") {
        Some(309)
    } else if str_eq(code, "BTN_TL") {
        Some(310)
    } else if str_eq(code, "BTN_TR") {
        Some(311)
    } else if str_eq(code, "BTN_TL2") {
        Some(312)
    } else if str_eq(code, "BTN_TR2") {
        Some(313)
    } else if str_eq(code, "BTN_SELECT") {
        Some(314)
    } else if str_eq(code, "BTN_START") {
        Some(315)
    } else if str_eq(code, "BTN_MODE") {
        Some(316)
    } else if str_eq(code, "BTN_THUMBL") {
        Some(317)
    } else if str_eq(code, "BTN_THUMBR") {
        Some(318)
    } else if str_eq(code, "BTN_DPAD_UP") {
        Some(544)
    } else if str_eq(code, "BTN_DPAD_DOWN") {
        Some(545)
    } else if str_eq(code, "BTN_DPAD_LEFT") {
        Some(546)
    } else if str_eq(code, "BTN_DPAD_RIGHT") {
        Some(547)
    } else if str_eq(code, "BTN_LEFT") {
        Some(272)
    } else if str_eq(code, "BTN_RIGHT") {
        Some(273)
    } else if str_eq(code, "BTN_MIDDLE") {
        Some(274)
    } else if str_eq(code, "BTN_SIDE") {
        Some(275)
    } else if str_eq(code, "BTN_EXTRA") {
        Some(276)
    } else if str_eq(code, "BTN_FORWARD") {
        Some(277)
    } else if str_eq(code, "BTN_BACK") {
        Some(278)
    } else {
        None
    }
}

/// The numeric code of an absolute-axis name, if the table knows the name.
pub open spec fn abs_code_of_name(name: Seq<char>) -> Option<u16> {
    if name == "ABS_X"@ {
        Some(0u16)
    } else if name == "ABS_Y"@ {
        Some(1u16)
    } else if name == "ABS_Z"@ {
        Some(2u16)
    } else if name == "ABS_RX"@ {
        Some(3u16)
    } else if name == "ABS_RY"@ {
        Some(4u16)
    } else if name == "ABS_RZ"@ {
        Some(5u16)
    } else if name == "ABS_THROTTLE"@ {
        Some(6u16)
    } else if name == "ABS_RUDDER"@ {
        Some(7u16)
    } else if name == "ABS_WHEEL"@ {
        Some(8u16)
    } else if name == "ABS_GAS"@ {
        Some(9u16)
    } else if name == "ABS_BRAKE"@ {
        Some(10u16)
    } else if name == "ABS_HAT0X"@ {
        Some(16u16)
    } else if name == "ABS_HAT0Y"@ {
        Some(17u16)
    } else if name == "ABS_HAT1X"@ {
        Some(18u16)
    } else if name == "ABS_HAT1Y"@ {
        Some(19u16)
    } else if name == "ABS_HAT2X"@ {
        Some(20u16)
    } else if name == "ABS_HAT2Y"@ {
        Some(21u16)
    } else if name == "ABS_HAT3X"@ {
        Some(22u16)
    } else if name == "ABS_HAT3Y"@ {
        Some(23u16)
    } else if name == "ABS_PRESSURE"@ {
        Some(24u16)
    } else if name == "ABS_DISTANCE"@ {
        Some(25u16)
    } else if name == "ABS_TILT_X"@ {
        Some(26u16)
    } else if name == "ABS_TILT_Y"@ {
        Some(27u16)
    } else if name == "ABS_MISC"@ {
        Some(40u16)
    } else {
        None
    }
}

/// Parses an absolute-axis name such as `ABS_X` to its numeric code.
pub fn parse_abs_code_numeric(code: &str) -> (r: Option<u16>)
    ensures
        r == abs_code_of_name(code@),
{
    if str_eq(code, "ABS_X") {
        Some(0)
    } else if str_eq(code, "ABS_Y") {
        Some(1)
    } else if str_eq(code, "ABS_Z") {
        Some(2)
    } else if str_eq(code, "ABS_RX") {
        Some(3)
    } else if str_eq(code, "ABS_RY") {
        Some(4)
    } else if str_eq(code, "ABS_RZ") {
        Some(5)
    } else if str_eq(code, "ABS_THROTTLE") {
        Some(6)
    } else if str_eq(code, "ABS_RUDDER") {
        Some(7)
    } else if str_eq(code, "ABS_WHEEL") {
        Some(8)
    } else if str_eq(code, "ABS_GAS") {
        Some(9)
    } else if str_eq(code, "ABS_BRAKE") {
        Some(10)
    } else if str_eq(code, "ABS_HAT0X") {
        Some(16)
    } else if str_eq(code, "ABS_HAT0Y") {
        Some(17)
    } else if str_eq(code, "ABS_HAT1X") {
        Some(18)
    } else if str_eq(code, "ABS_HAT1Y") {
        Some(19)
    } else if str_eq(code, "ABS_HAT2X") {
        Some(20)
    } else if str_eq(code, "ABS_HAT2Y") {
        Some(21)
    } else if str_eq(code, "ABS_HAT3X") {
        Some(22)
    } else if str_eq(code, "ABS_HAT3Y") {
        Some(23)
    } else if str_eq(code, "ABS_PRESSURE") {
        Some(24)
    } else if str_eq(code, "ABS_DISTANCE") {
        Some(25)
    } else if str_eq(code, "ABS_TILT_X") {
        Some(26)
    } else if str_eq(code, "ABS_TILT_Y") {
        Some(27)
    } else if str_eq(code, "ABS_MISC") {
        Some(40)
    } else {
        None
    }
}

/// The numeric code of a relative-axis name, if the table knows the name.
pub open spec fn rel_code_of_name(name: Seq<char>) -> Option<u16> {
    if name == "REL_X"@ {
        Some(0u16)
    } else if name == "REL_Y"@ {
        Some(1u16)
    } else if name == "REL_Z"@ {
        Some(2u16)
    } else if name == "REL_RX"@ {
        Some(3u16)
    } else if name == "REL_RY"@ {
        Some(4u16)
    } else if name == "REL_RZ"@ {
        Some(5u16)
    } else if name == "REL_HWHEEL"@ {
        Some(6u16)
    } else if name == "REL_DIAL"@ {
        Some(7u16)
    } else if name == "REL_WHEEL"@ {
        Some(8u16)
    } else if name == "REL_MISC"@ {
        Some(9u16)
    } else {
        None
    }
}

/// Parses a relative-axis name such as `REL_WHEEL` to its numeric code.
pub fn parse_rel_code_numeric(code: &str) -> (r: Option<u16>)
    ensures
        r == rel_code_of_name(code@),
{
    if str_eq(code, "REL_X") {
        Some(0)
    } else if str_eq(code, "REL_Y") {
        Some(1)
    } else if str_eq(code, "REL_Z") {
        Some(2)
    } else if str_eq(code, "REL_RX") {
        Some(3)
    } else if str_eq(code, "REL_RY") {
        Some(4)
    } else if str_eq(code, "REL_RZ") {
        Some(5)
    } else if str_eq(code, "REL_HWHEEL") {
        Some(6)
    } else if str_eq(code, "REL_DIAL") {
        Some(7)
    } else if str_eq(code, "REL_WHEEL") {
        Some(8)
    } else if str_eq(code, "REL_MISC") {
        Some(9)
    } else {
        None
    }
}

/// The display name of a key or button code; codes without a name read `KEY_<n>`.
pub open spec fn key_name_of_code(code: u16) -> Seq<char> {
    if code == 1 {
        "KEY_ESC"@
    } else if code == 2 {
        "KEY_1"@
    } else if code == 3 {
        "KEY_2"@
    } else if code == 4 {
        "KEY_3"@
    } else if code == 5 {
        "KEY_4"@
    } else if code == 6 {
        "KEY_5"@
    } else if code == 7 {
        "KEY_6"@
    } else if code == 8 {
        "KEY_7"@
    } else if code == 9 {
        "KEY_8"@
    } else if code == 10 {
        "KEY_9"@
    } else if code == 11 {
        "KEY_0"@
    } else if code == 12 {
        "KEY_MINUS"@
    } else if code == 13 {
        "KEY_EQUAL"@
    } else if code == 14 {
        "KEY_BACKSPACE"@
    } else if code == 15 {
        "KEY_TAB"@
    } else if code == 16 {
        "KEY_Q"@
    } else if code == 17 {
        "KEY_W"@
    } else if code == 18 {
        "KEY_E"@
    } else if code == 19 {
        "KEY_R"@
    } else if code == 20 {
        "KEY_T"@
    } else if code == 21 {
        "KEY_Y"@
    } else if code == 22 {
        "KEY_U"@
    } else if code == 23 {
        "KEY_I"@
    } else if code == 24 {
        "KEY_O"@
    } else if code == 25 {
        "KEY_P"@
    } else if code == 26 {
        "KEY_LEFTBRACE"@
    } else if code == 27 {
        "KEY_RIGHTBRACE"@
    } else if code == 28 {
        "KEY_ENTER"@
    } else if code == 29 {
        "KEY_LEFTCTRL"@
    } else if code == 30 {
        "KEY_A"@
    } else if code == 31 {
        "KEY_S"@
    } else if code == 32 {
        "KEY_D"@
    } else if code == 33 {
        "KEY_F"@
    } else if code == 34 {
        "KEY_G"@
    } else if code == 35 {
        "KEY_H"@
    } else if code == 36 {
        "KEY_J"@
    } else if code == 37 {
        "KEY_K"@
    } else if code == 38 {
        "KEY_L"@
    } else if code == 39 {
        "KEY_SEMICOLON"@
    } else if code == 40 {
        "KEY_APOSTROPHE"@
    } else if code == 41 {
        "KEY_GRAVE"@
    } else if code == 42 {
        "KEY_LEFTSHIFT"@
    } else if code == 43 {
        "KEY_BACKSLASH"@
    } else if code == 44 {
        "KEY_Z"@
    } else if code == 45 {
        "KEY_X"@
    } else if code == 46 {
        "KEY_C"@
    } else if code == 47 {
        "KEY_V"@
    } else if code == 48 {
        "KEY_B"@
    } else if code == 49 {
        "KEY_N"@
    } else if code == 50 {
        "KEY_M"@
    } else if code == 51 {
        "KEY_COMMA"@
    } else if code == 52 {
        "KEY_DOT"@
    } else if code == 53 {
        "KEY_SLASH"@
    } else if code == 54 {
        "KEY_RIGHTSHIFT"@
    } else if code == 55 {
        "KEY_KPASTERISK"@
    } else if code == 56 {
        "KEY_LEFTALT"@
    } else if code == 57 {
        "KEY_SPACE"@
    } else if code == 58 {
        "KEY_CAPSLOCK"@
    } else if code == 59 {
        "KEY_F1"@
    } else if code == 60 {
        "KEY_F2"@
    } else if code == 61 {
        "KEY_F3"@
    } else if code == 62 {
        "KEY_F4"@
    } else if code == 63 {
        "KEY_F5"@
    } else if code == 64 {
        "KEY_F6"@
    } else if code == 65 {
        "KEY_F7"@
    } else if code == 66 {
        "KEY_F8"@
    } else if code == 67 {
        "KEY_F9"@
    } else if code == 68 {
        "KEY_F10"@
    } else if code == 87 {
        "KEY_F11"@
    } else if code == 88 {
        "KEY_F12"@
    } else if code == 97 {
        "KEY_RIGHTCTRL"@
    } else if code == 100 {
        "KEY_RIGHTALT"@
    } else if code == 102 {
        "KEY_HOME"@
    } else if code == 103 {
        "KEY_UP"@
    } else if code == 104 {
        "KEY_PAGEUP"@
    } else if code == 105 {
        "KEY_LEFT"@
    } else if code == 106 {
        "KEY_RIGHT"@
    } else if code == 107 {
        "KEY_END"@
    } else if code == 108 {
        "KEY_DOWN"@
    } else if code == 109 {
        "KEY_PAGEDOWN"@
    } else if code == 110 {
        "KEY_INSERT"@
    } else if code == 111 {
        "KEY_DELETE"@
    } else if code == 125 {
        "KEY_LEFTMETA"@
    } else if code == 126 {
        "KEY_RIGHTMETA"@
    } else if code == 272 {
        "BTN_LEFT"@
    } else if code == 273 {
        "BTN_RIGHT"@
    } else if code == 274 {
        "BTN_MIDDLE"@
    } else if code == 275 {
        "BTN_SIDE"@
    } else if code == 276 {
        "BTN_EXTRA"@
    } else if code == 304 {
        "BTN_SOUTH"@
    } else if code == 305 {
        "BTN_EAST"@
    } else if code == 306 {
        "BTN_C"@
    } else if code == 307 {
        "BTN_NORTH"@
    } else if code == 308 {
        "BTN_WEST"@
    } else if code == 309 {
        "BTN_Z"@
    } else if code == 310 {
        "BTN_TL"@
    } else if code == 311 {
        "BTN_TR"@
    } else if code == 312 {
        "BTN_TL2"@
    } else if code == 313 {
        "BTN_TR2"@
    } else if code == 314 {
        "BTN_SELECT"@
    } else if code == 315 {
        "BTN_START"@
    } else if code == 316 {
        "BTN_MODE"@
    } else if code == 317 {
        "BTN_THUMBL"@
    } else if code == 318 {
        "BTN_THUMBR"@
    } else {
        "KEY_"@ + dec_str(code as nat)
    }
}

/// Whether the key table shows `code` by a name of its own.
pub open spec fn key_code_is_named(code: u16) -> bool {
    code == 1 || code == 2 || code == 3 || code == 4 || code == 5 || code == 6 || code == 7 || code == 8 || code == 9 || code == 10 || code == 11 || code == 12 || code == 13 || code == 14 || code == 15 || code == 16 || code == 17 || code == 18 || code == 19 || code == 20 || code == 21 || code == 22 || code == 23 || code == 24 || code == 25 || code == 26 || code == 27 || code == 28 || code == 29 || code == 30 || code == 31 || code == 32 || code == 33 || code == 34 || code == 35 || code == 36 || code == 37 || code == 38 || code == 39 || code == 40 || code == 41 || code == 42 || code == 43 || code == 44 || code == 45 || code == 46 || code == 47 || code == 48 || code == 49 || code == 50 || code == 51 || code == 52 || code == 53 || code == 54 || code == 55 || code == 56 || code == 57 || code == 58 || code == 59 || code == 60 || code == 61 || code == 62 || code == 63 || code == 64 || code == 65 || code == 66 || code == 67 || code == 68 || code == 87 || code == 88 || code == 97 || code == 100 || code == 102 || code == 103 || code == 104 || code == 105 || code == 106 || code == 107 || code == 108 || code == 109 || code == 110 || code == 111 || code == 125 || code == 126 || code == 272 || code == 273 || code == 274 || code == 275 || code == 276 || code == 304 || code == 305 || code == 306 || code == 307 || code == 308 || code == 309 || code == 310 || code == 311 || code == 312 || code == 313 || code == 314 || code == 315 || code == 316 || code == 317 || code == 318
}

/// Names of the key table read to their codes (part 1).
pub proof fn law_key_names_read_to_codes_1()
    ensures
        key_code_of_name("KEY_ESC"@) == Some(1u16),
        key_code_of_name("KEY_1"@) == Some(2u16),
        key_code_of_name("KEY_2"@) == Some(3u16),
        key_code_of_name("KEY_3"@) == Some(4u16),
        key_code_of_name("KEY_4"@) == Some(5u16),
        key_code_of_name("KEY_5"@) == Some(6u16),
        key_code_of_name("KEY_6"@) == Some(7u16),
        key_code_of_name("KEY_7"@) == Some(8u16),
        key_code_of_name("KEY_8"@) == Some(9u16),
        key_code_of_name("KEY_9"@) == Some(10u16),
        key_code_of_name("KEY_0"@) == Some(11u16),
        key_code_of_name("KEY_MINUS"@) == Some(12u16),
        key_code_of_name("KEY_EQUAL"@) == Some(13u16),
        key_code_of_name("KEY_BACKSPACE"@) == Some(14u16),
        key_code_of_name("KEY_TAB"@) == Some(15u16),
        key_code_of_name("KEY_Q"@) == Some(16u16),
{
    reveal_strlit("KEY_0");
    reveal_strlit("KEY_1");
    reveal_strlit("KEY_2");
    reveal_strlit("KEY_3");
    reveal_strlit("KEY_4");
    reveal_strlit("KEY_5");
    reveal_strlit("KEY_6");
    reveal_strlit("KEY_7");
    reveal_strlit("KEY_8");
    reveal_strlit("KEY_9");
    reveal_strlit("KEY_BACKSPACE");
    reveal_strlit("KEY_EQUAL");
    reveal_strlit("KEY_ESC");
    reveal_strlit("KEY_MINUS");
    reveal_strlit("KEY_Q");
    reveal_strlit("KEY_TAB");
    assert("KEY_0"@.len() == 5 && "KEY_1"@.len() == 5 && "KEY_2"@.len() == 5 && "KEY_3"@.len() == 5 && "KEY_4"@.len() == 5 && "KEY_5"@.len() == 5 && "KEY_6"@.len() == 5 && "KEY_7"@.len() == 5 && "KEY_8"@.len() == 5 && "KEY_9"@.len() == 5 && "KEY_BACKSPACE"@.len() == 13 && "KEY_EQUAL"@.len() == 9 && "KEY_ESC"@.len() == 7 && "KEY_MINUS"@.len() == 9 && "KEY_Q"@.len() == 5 && "KEY_TAB"@.len() == 7);
    assert("KEY_2"@[4] != "KEY_1"@[4]);
    assert("KEY_3"@[4] != "KEY_1"@[4] && "KEY_3"@[4] != "KEY_2"@[4]);
    assert("KEY_4"@[4] != "KEY_1"@[4] && "KEY_4"@[4] != "KEY_2"@[4] && "KEY_4"@[4] != "KEY_3"@[4]);
    assert("KEY_5"@[4] != "KEY_1"@[4] && "KEY_5"@[4] != "KEY_2"@[4] && "KEY_5"@[4] != "KEY_3"@[4] && "KEY_5"@[4] != "KEY_4"@[4]);
    assert("KEY_6"@[4] != "KEY_1"@[4] && "KEY_6"@[4] != "KEY_2"@[4] && "KEY_6"@[4] != "KEY_3"@[4] && "KEY_6"@[4] != "KEY_4"@[4] && "KEY_6"@[4] != "KEY_5"@[4]);
    assert("KEY_7"@[4] != "KEY_1"@[4] && "KEY_7"@[4] != "KEY_2"@[4] && "KEY_7"@[4] != "KEY_3"@[4] && "KEY_7"@[4] != "KEY_4"@[4] && "KEY_7"@[4] != "KEY_5"@[4] && "KEY_7"@[4] != "KEY_6"@[4]);
    assert("KEY_8"@[4] != "KEY_1"@[4] && "KEY_8"@[4] != "KEY_2"@[4] && "KEY_8"@[4] != "KEY_3"@[4] && "KEY_8"@[4] != "KEY_4"@[4] && "KEY_8"@[4] != "KEY_5"@[4] && "KEY_8"@[4] != "KEY_6"@[4] && "KEY_8"@[4] != "KEY_7"@[4]);
    assert("KEY_9"@[4] != "KEY_1"@[4] && "KEY_9"@[4] != "KEY_2"@[4] && "KEY_9"@[4] != "KEY_3"@[4] && "KEY_9"@[4] != "KEY_4"@[4] && "KEY_9"@[4] != "KEY_5"@[4] && "KEY_9"@[4] != "KEY_6"@[4] && "KEY_9"@[4] != "KEY_7"@[4] && "KEY_9"@[4] != "KEY_8"@[4]);
    assert("KEY_0"@[4] != "KEY_1"@[4] && "KEY_0"@[4] != "KEY_2"@[4] && "KEY_0"@[4] != "KEY_3"@[4] && "KEY_0"@[4] != "KEY_4"@[4] && "KEY_0"@[4] != "KEY_5"@[4] && "KEY_0"@[4] != "KEY_6"@[4] && "KEY_0"@[4] != "KEY_7"@[4] && "KEY_0"@[4] != "KEY_8"@[4] && "KEY_0"@[4] != "KEY_9"@[4]);
    assert("KEY_EQUAL"@[4] != "KEY_MINUS"@[4]);
    assert("KEY_TAB"@[4] != "KEY_ESC"@[4]);
    assert("KEY_Q"@[4] != "KEY_1"@[4] && "KEY_Q"@[4] != "KEY_2"@[4] && "KEY_Q"@[4] != "KEY_3"@[4] && "KEY_Q"@[4] != "KEY_4"@[4] && "KEY_Q"@[4] != "KEY_5"@[4] && "KEY_Q"@[4] != "KEY_6"@[4] && "KEY_Q"@[4] != "KEY_7"@[4] && "KEY_Q"@[4] != "KEY_8"@[4] && "KEY_Q"@[4] != "KEY_9"@[4] && "KEY_Q"@[4] != "KEY_0"@[4]);
}

/// Names of the key table read to their codes (part 2).
pub proof fn law_key_names_read_to_codes_2()
    ensures
        key_code_of_name("KEY_W"@) == Some(17u16),
        key_code_of_name("KEY_E"@) == Some(18u16),
        key_code_of_name("KEY_R"@) == Some(19u16),
        key_code_of_name("KEY_T"@) == Some(20u16),
        key_code_of_name("KEY_Y"@) == Some(21u16),
        key_code_of_name("KEY_U"@) == Some(22u16),
        key_code_of_name("KEY_I"@) == Some(23u16),
        key_code_of_name("KEY_O"@) == Some(24u16),
        key_code_of_name("KEY_P"@) == Some(25u16),
        key_code_of_name("KEY_LEFTBRACE"@) == Some(26u16),
        key_code_of_name("KEY_RIGHTBRACE"@) == Some(27u16),
        key_code_of_name("KEY_ENTER"@) == Some(28u16),
        key_code_of_name("KEY_LEFTCTRL"@) == Some(29u16),
        key_code_of_name("KEY_A"@) == Some(30u16),
        key_code_of_name("KEY_S"@) == Some(31u16),
        key_code_of_name("KEY_D"@) == Some(32u16),
{
    reveal_strlit("KEY_0");
    reveal_strlit("KEY_1");
    reveal_strlit("KEY_2");
    reveal_strlit("KEY_3");
    reveal_strlit("KEY_4");
    reveal_strlit("KEY_5");
    reveal_strlit("KEY_6");
    reveal_strlit("KEY_7");
    reveal_strlit("KEY_8");
    reveal_strlit("KEY_9");
    reveal_strlit("KEY_A");
    reveal_strlit("KEY_BACKSPACE");
    reveal_strlit("KEY_D");
    reveal_strlit("KEY_E");
    reveal_strlit("KEY_ENTER");
    reveal_strlit("KEY_EQUAL");
    reveal_strlit("KEY_ESC");
    reveal_strlit("KEY_I");
    reveal_strlit("KEY_LEFTBRACE");
    reveal_strlit("KEY_LEFTCTRL");
    reveal_strlit("KEY_MINUS");
    reveal_strlit("KEY_O");
    reveal_strlit("KEY_P");
    reveal_strlit("KEY_Q");
    reveal_strlit("KEY_R");
    reveal_strlit("KEY_RIGHTBRACE");
    reveal_strlit("KEY_S");
    reveal_strlit("KEY_T");
    reveal_strlit("KEY_TAB");
    reveal_strlit("KEY_U");
    reveal_strlit("KEY_W");
    reveal_strlit("KEY_Y");
    assert("KEY_0"@.len() == 5 && "KEY_1"@.len() == 5 && "KEY_2"@.len() == 5 && "KEY_3"@.len() == 5 && "KEY_4"@.len() == 5 && "KEY_5"@.len() == 5 && "KEY_6"@.len() == 5 && "KEY_7"@.len() == 5 && "KEY_8"@.len() == 5 && "KEY_9"@.len() == 5 && "KEY_A"@.len() == 5 && "KEY_BACKSPACE"@.len() == 13 && "KEY_D"@.len() == 5 && "KEY_E"@.len() == 5 && "KEY_ENTER"@.len() == 9 && "KEY_EQUAL"@.len() == 9 && "KEY_ESC"@.len() == 7 && "KEY_I"@.len() == 5 && "KEY_LEFTBRACE"@.len() == 13 && "KEY_LEFTCTRL"@.len() == 12 && "KEY_MINUS"@.len() == 9 && "KEY_O"@.len() == 5 && "KEY_P"@.len() == 5 && "KEY_Q"@.len() == 5 && "KEY_R"@.len() == 5 && "KEY_RIGHTBRACE"@.len() == 14 && "KEY_S"@.len() == 5 && "KEY_T"@.len() == 5 && "KEY_TAB"@.len() == 7 && "KEY_U"@.len() == 5 && "KEY_W"@.len() == 5 && "KEY_Y"@.len() == 5);
    assert("KEY_W"@[4] != "KEY_1"@[4] && "KEY_W"@[4] != "KEY_2"@[4] && "KEY_W"@[4] != "KEY_3"@[4] && "KEY_W"@[4] != "KEY_4"@[4] && "KEY_W"@[4] != "KEY_5"@[4] && "KEY_W"@[4] != "KEY_6"@[4] && "KEY_W"@[4] != "KEY_7"@[4] && "KEY_W"@[4] != "KEY_8"@[4] && "KEY_W"@[4] != "KEY_9"@[4] && "KEY_W"@[4] != "KEY_0"@[4] && "KEY_W"@[4] != "KEY_Q"@[4]);
    assert("KEY_E"@[4] != "KEY_1"@[4] && "KEY_E"@[4] != "KEY_2"@[4] && "KEY_E"@[4] != "KEY_3"@[4] && "KEY_E"@[4] != "KEY_4"@[4] && "KEY_E"@[4] != "KEY_5"@[4] && "KEY_E"@[4] != "KEY_6"@[4] && "KEY_E"@[4] != "KEY_7"@[4] && "KEY_E"@[4] != "KEY_8"@[4] && "KEY_E"@[4] != "KEY_9"@[4] && "KEY_E"@[4] != "KEY_0"@[4] && "KEY_E"@[4] != "KEY_Q"@[4] && "KEY_E"@[4] != "KEY_W"@[4]);
    assert("KEY_R"@[4] != "KEY_1"@[4] && "KEY_R"@[4] != "KEY_2"@[4] && "KEY_R"@[4] != "KEY_3"@[4] && "KEY_R"@[4] != "KEY_4"@[4] && "KEY_R"@[4] != "KEY_5"@[4] && "KEY_R"@[4] != "KEY_6"@[4] && "KEY_R"@[4] != "KEY_7"@[4] && "KEY_R"@[4] != "KEY_8"@[4] && "KEY_R"@[4] != "KEY_9"@[4] && "KEY_R"@[4] != "KEY_0"@[4] && "KEY_R"@[4] != "KEY_Q"@[4] && "KEY_R"@[4] != "KEY_W"@[4] && "KEY_R"@[4] != "KEY_E"@[4]);
    assert("KEY_T"@[4] != "KEY_1"@[4] && "KEY_T"@[4] != "KEY_2"@[4] && "KEY_T"@[4] != "KEY_3"@[4] && "KEY_T"@[4] != "KEY_4"@[4] && "KEY_T"@[4] != "KEY_5"@[4] && "KEY_T"@[4] != "KEY_6"@[4] && "KEY_T"@[4] != "KEY_7"@[4] && "KEY_T"@[4] != "KEY_8"@[4] && "KEY_T"@[4] != "KEY_9"@[4] && "KEY_T"@[4] != "KEY_0"@[4] && "KEY_T"@[4] != "KEY_Q"@[4] && "KEY_T"@[4] != "KEY_W"@[4] && "KEY_T"@[4] != "KEY_E"@[4] && "KEY_T"@[4] != "KEY_R"@[4]);
    assert("KEY_Y"@[4] != "KEY_1"@[4] && "KEY_Y"@[4] != "KEY_2"@[4] && "KEY_Y"@[4] != "KEY_3"@[4] && "KEY_Y"@[4] != "KEY_4"@[4] && "KEY_Y"@[4] != "KEY_5"@[4] && "KEY_Y"@[4] != "KEY_6"@[4] && "KEY_Y"@[4] != "KEY_7"@[4] && "KEY_Y"@[4] != "KEY_8"@[4] && "KEY_Y"@[4] != "KEY_9"@[4] && "KEY_Y"@[4] != "KEY_0"@[4] && "KEY_Y"@[4] != "KEY_Q"@[4] && "KEY_Y"@[4] != "KEY_W"@[4] && "KEY_Y"@[4] != "KEY_E"@[4] && "KEY_Y"@[4] != "KEY_R"@[4] && "KEY_Y"@[4] != "KEY_T"@[4]);
    assert("KEY_U"@[4] != "KEY_1"@[4] && "KEY_U"@[4] != "KEY_2"@[4] && "KEY_U"@[4] != "KEY_3"@[4] && "KEY_U"@[4] != "KEY_4"@[4] && "KEY_U"@[4] != "KEY_5"@[4] && "KEY_U"@[4] != "KEY_6"@[4] && "KEY_U"@[4] != "KEY_7"@[4] && "KEY_U"@[4] != "KEY_8"@[4] && "KEY_U"@[4] != "KEY_9"@[4] && "KEY_U"@[4] != "KEY_0"@[4] && "KEY_U"@[4] != "KEY_Q"@[4] && "KEY_U"@[4] != "KEY_W"@[4] && "KEY_U"@[4] != "KEY_E"@[4] && "KEY_U"@[4] != "KEY_R"@[4] && "KEY_U"@[4] != "KEY_T"@[4] && "KEY_U"@[4] != "KEY_Y"@[4]);
    assert("KEY_I"@[4] != "KEY_1"@[4] && "KEY_I"@[4] != "KEY_2"@[4] && "KEY_I"@[4] != "KEY_3"@[4] && "KEY_I"@[4] != "KEY_4"@[4] && "KEY_I"@[4] != "KEY_5"@[4] && "KEY_I"@[4] != "KEY_6"@[4] && "KEY_I"@[4] != "KEY_7"@[4] && "KEY_I"@[4] != "KEY_8"@[4] && "KEY_I"@[4] != "KEY_9"@[4] && "KEY_I"@[4] != "KEY_0"@[4] && "KEY_I"@[4] != "KEY_Q"@[4] && "KEY_I"@[4] != "KEY_W"@[4] && "KEY_I"@[4] != "KEY_E"@[4] && "KEY_I"@[4] != "KEY_R"@[4] && "KEY_I"@[4] != "KEY_T"@[4] && "KEY_I"@[4] != "KEY_Y"@[4] && "KEY_I"@[4] != "KEY_U"@[4]);
    assert("KEY_O"@[4] != "KEY_1"@[4] && "KEY_O"@[4] != "KEY_2"@[4] && "KEY_O"@[4] != "KEY_3"@[4] && "KEY_O"@[4] != "KEY_4"@[4] && "KEY_O"@[4] != "KEY_5"@[4] && "KEY_O"@[4] != "KEY_6"@[4] && "KEY_O"@[4] != "KEY_7"@[4] && "KEY_O"@[4] != "KEY_8"@[4] && "KEY_O"@[4] != "KEY_9"@[4] && "KEY_O"@[4] != "KEY_0"@[4] && "KEY_O"@[4] != "KEY_Q"@[4] && "KEY_O"@[4] != "KEY_W"@[4] && "KEY_O"@[4] != "KEY_E"@[4] && "KEY_O"@[4] != "KEY_R"@[4] && "KEY_O"@[4] != "KEY_T"@[4] && "KEY_O"@[4] != "KEY_Y"@[4] && "KEY_O"@[4] != "KEY_U"@[4] && "KEY_O"@[4] != "KEY_I"@[4]);
    assert("KEY_P"@[4] != "KEY_1"@[4] && "KEY_P"@[4] != "KEY_2"@[4] && "KEY_P"@[4] != "KEY_3"@[4] && "KEY_P"@[4] != "KEY_4"@[4] && "KEY_P"@[4] != "KEY_5"@[4] && "KEY_P"@[4] != "KEY_6"@[4] && "KEY_P"@[4] != "KEY_7"@[4] && "KEY_P"@[4] != "KEY_8"@[4] && "KEY_P"@[4] != "KEY_9"@[4] && "KEY_P"@[4] != "KEY_0"@[4] && "KEY_P"@[4] != "KEY_Q"@[4] && "KEY_P"@[4] != "KEY_W"@[4] && "KEY_P"@[4] != "KEY_E"@[4] && "KEY_P"@[4] != "KEY_R"@[4] && "KEY_P"@[4] != "KEY_T"@[4] && "KEY_P"@[4] != "KEY_Y"@[4] && "KEY_P"@[4] != "KEY_U"@[4] && "KEY_P"@[4] != "KEY_I"@[4] && "KEY_P"@[4] != "KEY_O"@[4]);
    assert("KEY_LEFTBRACE"@[4] != "KEY_BACKSPACE"@[4]);
    assert("KEY_ENTER"@[4] != "KEY_MINUS"@[4] && "KEY_ENTER"@[5] != "KEY_EQUAL"@[5]);
    assert("KEY_A"@[4] != "KEY_1"@[4] && "KEY_A"@[4] != "KEY_2"@[4] && "KEY_A"@[4] != "KEY_3"@[4] && "KEY_A"@[4] != "KEY_4"@[4] && "KEY_A"@[4] != "KEY_5"@[4] && "KEY_A"@[4] != "KEY_6"@[4] && "KEY_A"@[4] != "KEY_7"@[4] && "KEY_A"@[4] != "KEY_8"@[4] && "KEY_A"@[4] != "KEY_9"@[4] && "KEY_A"@[4] != "KEY_0"@[4] && "KEY_A"@[4] != "KEY_Q"@[4] && "KEY_A"@[4] != "KEY_W"@[4] && "KEY_A"@[4] != "KEY_E"@[4] && "KEY_A"@[4] != "KEY_R"@[4] && "KEY_A"@[4] != "KEY_T"@[4] && "KEY_A"@[4] != "KEY_Y"@[4] && "KEY_A"@[4] != "KEY_U"@[4] && "KEY_A"@[4] != "KEY_I"@[4] && "KEY_A"@[4] != "KEY_O"@[4] && "KEY_A"@[4] != "KEY_P"@[4]);
    assert("KEY_S"@[4] != "KEY_1"@[4] && "KEY_S"@[4] != "KEY_2"@[4] && "KEY_S"@[4] != "KEY_3"@[4] && "KEY_S"@[4] != "KEY_4"@[4] && "KEY_S"@[4] != "KEY_5"@[4] && "KEY_S"@[4] != "KEY_6"@[4] && "KEY_S"@[4] != "KEY_7"@[4] && "KEY_S"@[4] != "KEY_8"@[4] && "KEY_S"@[4] != "KEY_9"@[4] && "KEY_S"@[4] != "KEY_0"@[4] && "KEY_S"@[4] != "KEY_Q"@[4] && "KEY_S"@[4] != "KEY_W"@[4] && "KEY_S"@[4] != "KEY_E"@[4] && "KEY_S"@[4] != "KEY_R"@[4] && "KEY_S"@[4] != "KEY_T"@[4] && "KEY_S"@[4] != "KEY_Y"@[4] && "KEY_S"@[4] != "KEY_U"@[4] && "KEY_S"@[4] != "KEY_I"@[4] && "KEY_S"@[4] != "KEY_O"@[4] && "KEY_S"@[4] != "KEY_P"@[4] && "KEY_S"@[4] != "KEY_A"@[4]);
    assert("KEY_D"@[4] != "KEY_1"@[4] && "KEY_D"@[4] != "KEY_2"@[4] && "KEY_D"@[4] != "KEY_3"@[4] && "KEY_D"@[4] != "KEY_4"@[4] && "KEY_D"@[4] != "KEY_5"@[4] && "KEY_D"@[4] != "KEY_6"@[4] && "KEY_D"@[4] != "KEY_7"@[4] && "KEY_D"@[4] != "KEY_8"@[4] && "KEY_D"@[4] != "KEY_9"@[4] && "KEY_D"@[4] != "KEY_0"@[4] && "KEY_D"@[4] != "KEY_Q"@[4] && "KEY_D"@[4] != "KEY_W"@[4] && "KEY_D"@[4] != "KEY_E"@[4] && "KEY_D"@[4] != "KEY_R"@[4] && "KEY_D"@[4] != "KEY_T"@[4] && "KEY_D"@[4] != "KEY_Y"@[4] && "KEY_D"@[4] != "KEY_U"@[4] && "KEY_D"@[4] != "KEY_I"@[4] && "KEY_D"@[4] != "KEY_O"@[4] && "KEY_D"@[4] != "KEY_P"@[4] && "KEY_D"@[4] != "KEY_A"@[4] && "KEY_D"@[4] != "KEY_S"@[4]);
}

/// Names of the key table read to their codes (part 3).
pub proof fn law_key_names_read_to_codes_3()
    ensures
        key_code_of_name("KEY_F"@) == Some(33u16),
        key_code_of_name("KEY_G"@) == Some(34u16),
        key_code_of_name("KEY_H"@) == Some(35u16),
        key_code_of_name("KEY_J"@) == Some(36u16),
        key_code_of_name("KEY_K"@) == Some(37u16),
        key_code_of_name("KEY_L"@) == Some(38u16),
        key_code_of_name("KEY_SEMICOLON"@) == Some(39u16),
        key_code_of_name("KEY_APOSTROPHE"@) == Some(40u16),
        key_code_of_name("KEY_GRAVE"@) == Some(41u16),
        key_code_of_name("KEY_LEFTSHIFT"@) == Some(42u16),
        key_code_of_name("KEY_BACKSLASH"@) == Some(43u16),
        key_code_of_name("KEY_Z"@) == Some(44u16),
        key_code_of_name("KEY_X"@) == Some(45u16),
        key_code_of_name("KEY_C"@) == Some(46u16),
        key_code_of_name("KEY_V"@) == Some(47u16),
        key_code_of_name("KEY_B"@) == Some(48u16),
{
    reveal_strlit("KEY_0");
    reveal_strlit("KEY_1");
    reveal_strlit("KEY_2");
    reveal_strlit("KEY_3");
    reveal_strlit("KEY_4");
    reveal_strlit("KEY_5");
    reveal_strlit("KEY_6");
    reveal_strlit("KEY_7");
    reveal_strlit("KEY_8");
    reveal_strlit("KEY_9");
    reveal_strlit("KEY_A");
    reveal_strlit("KEY_APOSTROPHE");
    reveal_strlit("KEY_B");
    reveal_strlit("KEY_BACKSLASH");
    reveal_strlit("KEY_BACKSPACE");
    reveal_strlit("KEY_C");
    reveal_strlit("KEY_D");
    reveal_strlit("KEY_E");
    reveal_strlit("KEY_ENTER");
    reveal_strlit("KEY_EQUAL");
    reveal_strlit("KEY_ESC");
    reveal_strlit("KEY_F");
    reveal_strlit("KEY_G");
    reveal_strlit("KEY_GRAVE");
    reveal_strlit("KEY_H");
    reveal_strlit("KEY_I");
    reveal_strlit("KEY_J");
    reveal_strlit("KEY_K");
    reveal_strlit("KEY_L");
    reveal_strlit("KEY_LEFTBRACE");
    reveal_strlit("KEY_LEFTCTRL");
    reveal_strlit("KEY_LEFTSHIFT");
    reveal_strlit("KEY_MINUS");
    reveal_strlit("KEY_O");
    reveal_strlit("KEY_P");
    reveal_strlit("KEY_Q");
    reveal_strlit("KEY_R");
    reveal_strlit("KEY_RIGHTBRACE");
    reveal_strlit("KEY_S");
    reveal_strlit("KEY_SEMICOLON");
    reveal_strlit("KEY_T");
    reveal_strlit("KEY_TAB");
    reveal_strlit("KEY_U");
    reveal_strlit("KEY_V");
    reveal_strlit("KEY_W");
    reveal_strlit("KEY_X");
    reveal_strlit("KEY_Y");
    reveal_strlit("KEY_Z");
    assert("KEY_0"@.len() == 5 && "KEY_1"@.len() == 5 && "KEY_2"@.len() == 5 && "KEY_3"@.len() == 5 && "KEY_4"@.len() == 5 && "KEY_5"@.len() == 5 && "KEY_6"@.len() == 5 && "KEY_7"@.len() == 5 && "KEY_8"@.len() == 5 && "KEY_9"@.len() == 5 && "KEY_A"@.len() == 5 && "KEY_APOSTROPHE"@.len() == 14 && "KEY_B"@.len() == 5 && "KEY_BACKSLASH"@.len() == 13 && "KEY_BACKSPACE"@.len() == 13 && "KEY_C"@.len() == 5 && "KEY_D"@.len() == 5 && "KEY_E"@.len() == 5 && "KEY_ENTER"@.len() == 9 && "KEY_EQUAL"@.len() == 9 && "KEY_ESC"@.len() == 7 && "KEY_F"@.len() == 5 && "KEY_G"@.len() == 5 && "KEY_GRAVE"@.len() == 9 && "KEY_H"@.len() == 5 && "KEY_I"@.len() == 5 && "KEY_J"@.len() == 5 && "KEY_K"@.len() == 5 && "KEY_L"@.len() == 5 && "KEY_LEFTBRACE"@.len() == 13 && "KEY_LEFTCTRL"@.len() == 12 && "KEY_LEFTSHIFT"@.len() == 13 && "KEY_MINUS"@.len() == 9 && "KEY_O"@.len() == 5 && "KEY_P"@.len() == 5 && "KEY_Q"@.len() == 5 && "KEY_R"@.len() == 5 && "KEY_RIGHTBRACE"@.len() == 14 && "KEY_S"@.len() == 5 && "KEY_SEMICOLON"@.len() == 13 && "KEY_T"@.len() == 5 && "KEY_TAB"@.len() == 7 && "KEY_U"@.len() == 5 && "KEY_V"@.len() == 5 && "KEY_W"@.len() == 5 && "KEY_X"@.len() == 5 && "KEY_Y"@.len() == 5 && "KEY_Z"@.len() == 5);
    assert("KEY_F"@[4] != "KEY_1"@[4] && "KEY_F"@[4] != "KEY_2"@[4] && "KEY_F"@[4] != "KEY_3"@[4] && "KEY_F"@[4] != "KEY_4"@[4] && "KEY_F"@[4] != "KEY_5"@[4] && "KEY_F"@[4] != "KEY_6"@[4] && "KEY_F"@[4] != "KEY_7"@[4] && "KEY_F"@[4] != "KEY_8"@[4] && "KEY_F"@[4] != "KEY_9"@[4] && "KEY_F"@[4] != "KEY_0"@[4] && "KEY_F"@[4] != "KEY_Q"@[4] && "KEY_F"@[4] != "KEY_W"@[4] && "KEY_F"@[4] != "KEY_E"@[4] && "KEY_F"@[4] != "KEY_R"@[4] && "KEY_F"@[4] != "KEY_T"@[4] && "KEY_F"@[4] != "KEY_Y"@[4] && "KEY_F"@[4] != "KEY_U"@[4] && "KEY_F"@[4] != "KEY_I"@[4] && "KEY_F"@[4] != "KEY_O"@[4] && "KEY_F"@[4] != "KEY_P"@[4] && "KEY_F"@[4] != "KEY_A"@[4] && "KEY_F"@[4] != "KEY_S"@[4] && "KEY_F"@[4] != "KEY_D"@[4]);
    assert("KEY_G"@[4] != "KEY_1"@[4] && "KEY_G"@[4] != "KEY_2"@[4] && "KEY_G"@[4] != "KEY_3"@[4] && "KEY_G"@[4] != "KEY_4"@[4] && "KEY_G"@[4] != "KEY_5"@[4] && "KEY_G"@[4] != "KEY_6"@[4] && "KEY_G"@[4] != "KEY_7"@[4] && "KEY_G"@[4] != "KEY_8"@[4] && "KEY_G"@[4] != "KEY_9"@[4] && "KEY_G"@[4] != "KEY_0"@[4] && "KEY_G"@[4] != "KEY_Q"@[4] && "KEY_G"@[4] != "KEY_W"@[4] && "KEY_G"@[4] != "KEY_E"@[4] && "KEY_G"@[4] != "KEY_R"@[4] && "KEY_G"@[4] != "KEY_T"@[4] && "KEY_G"@[4] != "KEY_Y"@[4] && "KEY_G"@[4] != "KEY_U"@[4] && "KEY_G"@[4] != "KEY_I"@[4] && "KEY_G"@[4] != "KEY_O"@[4] && "KEY_G"@[4] != "KEY_P"@[4] && "KEY_G"@[4] != "KEY_A"@[4] && "KEY_G"@[4] != "KEY_S"@[4] && "KEY_G"@[4] != "KEY_D"@[4] && "KEY_G"@[4] != "KEY_F"@[4]);
    assert("KEY_H"@[4] != "KEY_1"@[4] && "KEY_H"@[4] != "KEY_2"@[4] && "KEY_H"@[4] != "KEY_3"@[4] && "KEY_H"@[4] != "KEY_4"@[4] && "KEY_H"@[4] != "KEY_5"@[4] && "KEY_H"@[4] != "KEY_6"@[4] && "KEY_H"@[4] != "KEY_7"@[4] && "KEY_H"@[4] != "KEY_8"@[4] && "KEY_H"@[4] != "KEY_9"@[4] && "KEY_H"@[4] != "KEY_0"@[4] && "KEY_H"@[4] != "KEY_Q"@[4] && "KEY_H"@[4] != "KEY_W"@[4] && "KEY_H"@[4] != "KEY_E"@[4] && "KEY_H"@[4] != "KEY_R"@[4] && "KEY_H"@[4] != "KEY_T"@[4] && "KEY_H"@[4] != "KEY_Y"@[4] && "KEY_H"@[4] != "KEY_U"@[4] && "KEY_H"@[4] != "KEY_I"@[4] && "KEY_H"@[4] != "KEY_O"@[4] && "KEY_H"@[4] != "KEY_P"@[4] && "KEY_H"@[4] != "KEY_A"@[4] && "KEY_H"@[4] != "KEY_S"@[4] && "KEY_H"@[4] != "KEY_D"@[4] && "KEY_H"@[4] != "KEY_F"@[4] && "KEY_H"@[4] != "KEY_G"@[4]);
    assert("KEY_J"@[4] != "KEY_1"@[4] && "KEY_J"@[4] != "KEY_2"@[4] && "KEY_J"@[4] != "KEY_3"@[4] && "KEY_J"@[4] != "KEY_4"@[4] && "KEY_J"@[4] != "KEY_5"@[4] && "KEY_J"@[4] != "KEY_6"@[4] && "KEY_J"@[4] != "KEY_7"@[4] && "KEY_J"@[4] != "KEY_8"@[4] && "KEY_J"@[4] != "KEY_9"@[4] && "KEY_J"@[4] != "KEY_0"@[4] && "KEY_J"@[4] != "KEY_Q"@[4] && "KEY_J"@[4] != "KEY_W"@[4] && "KEY_J"@[4] != "KEY_E"@[4] && "KEY_J"@[4] != "KEY_R"@[4] && "KEY_J"@[4] != "KEY_T"@[4] && "KEY_J"@[4] != "KEY_Y"@[4] && "KEY_J"@[4] != "KEY_U"@[4] && "KEY_J"@[4] != "KEY_I"@[4] && "KEY_J"@[4] != "KEY_O"@[4] && "KEY_J"@[4] != "KEY_P"@[4] && "KEY_J"@[4] != "KEY_A"@[4] && "KEY_J"@[4] != "KEY_S"@[4] && "KEY_J"@[4] != "KEY_D"@[4] && "KEY_J"@[4] != "KEY_F"@[4] && "KEY_J"@[4] != "KEY_G"@[4] && "KEY_J"@[4] != "KEY_H"@[4]);
    assert("KEY_K"@[4] != "KEY_1"@[4] && "KEY_K"@[4] != "KEY_2"@[4] && "KEY_K"@[4] != "KEY_3"@[4] && "KEY_K"@[4] != "KEY_4"@[4] && "KEY_K"@[4] != "KEY_5"@[4] && "KEY_K"@[4] != "KEY_6"@[4] && "KEY_K"@[4] != "KEY_7"@[4] && "KEY_K"@[4] != "KEY_8"@[4] && "KEY_K"@[4] != "KEY_9"@[4] && "KEY_K"@[4] != "KEY_0"@[4] && "KEY_K"@[4] != "KEY_Q"@[4] && "KEY_K"@[4] != "KEY_W"@[4] && "KEY_K"@[4] != "KEY_E"@[4] && "KEY_K"@[4] != "KEY_R"@[4] && "KEY_K"@[4] != "KEY_T"@[4] && "KEY_K"@[4] != "KEY_Y"@[4] && "KEY_K"@[4] != "KEY_U"@[4] && "KEY_K"@[4] != "KEY_I"@[4] && "KEY_K"@[4] != "KEY_O"@[4] && "KEY_K"@[4] != "KEY_P"@[4] && "KEY_K"@[4] != "KEY_A"@[4] && "KEY_K"@[4] != "KEY_S"@[4] && "KEY_K"@[4] != "KEY_D"@[4] && "KEY_K"@[4] != "KEY_F"@[4] && "KEY_K"@[4] != "KEY_G"@[4] && "KEY_K"@[4] != "KEY_H"@[4] && "KEY_K"@[4] != "KEY_J"@[4]);
    assert("KEY_L"@[4] != "KEY_1"@[4] && "KEY_L"@[4] != "KEY_2"@[4] && "KEY_L"@[4] != "KEY_3"@[4] && "KEY_L"@[4] != "KEY_4"@[4] && "KEY_L"@[4] != "KEY_5"@[4] && "KEY_L"@[4] != "KEY_6"@[4] && "KEY_L"@[4] != "KEY_7"@[4] && "KEY_L"@[4] != "KEY_8"@[4] && "KEY_L"@[4] != "KEY_9"@[4] && "KEY_L"@[4] != "KEY_0"@[4] && "KEY_L"@[4] != "KEY_Q"@[4] && "KEY_L"@[4] != "KEY_W"@[4] && "KEY_L"@[4] != "KEY_E"@[4] && "KEY_L"@[4] != "KEY_R"@[4] && "KEY_L"@[4] != "KEY_T"@[4] && "KEY_L"@[4] != "KEY_Y"@[4] && "KEY_L"@[4] != "KEY_U"@[4] && "KEY_L"@[4] != "KEY_I"@[4] && "KEY_L"@[4] != "KEY_O"@[4] && "KEY_L"@[4] != "KEY_P"@[4] && "KEY_L"@[4] != "KEY_A"@[4] && "KEY_L"@[4] != "KEY_S"@[4] && "KEY_L"@[4] != "KEY_D"@[4] && "KEY_L"@[4] != "KEY_F"@[4] && "KEY_L"@[4] != "KEY_G"@[4] && "KEY_L"@[4] != "KEY_H"@[4] && "KEY_L"@[4] != "KEY_J"@[4] && "KEY_L"@[4] != "KEY_K"@[4]);
    assert("KEY_SEMICOLON"@[4] != "KEY_BACKSPACE"@[4] && "KEY_SEMICOLON"@[4] != "KEY_LEFTBRACE"@[4]);
    assert("KEY_APOSTROPHE"@[4] != "KEY_RIGHTBRACE"@[4]);
    assert("KEY_GRAVE"@[4] != "KEY_MINUS"@[4] && "KEY_GRAVE"@[4] != "KEY_EQUAL"@[4] && "KEY_GRAVE"@[4] != "KEY_ENTER"@[4]);
    assert("KEY_LEFTSHIFT"@[4] != "KEY_BACKSPACE"@[4] && "KEY_LEFTSHIFT"@[8] != "KEY_LEFTBRACE"@[8] && "KEY_LEFTSHIFT"@[4] != "KEY_SEMICOLON"@[4]);
    assert("KEY_BACKSLASH"@[9] != "KEY_BACKSPACE"@[9] && "KEY_BACKSLASH"@[4] != "KEY_LEFTBRACE"@[4] && "KEY_BACKSLASH"@[4] != "KEY_SEMICOLON"@[4] && "KEY_BACKSLASH"@[4] != "KEY_LEFTSHIFT"@[4]);
    assert("KEY_Z"@[4] != "KEY_1"@[4] && "KEY_Z"@[4] != "KEY_2"@[4] && "KEY_Z"@[4] != "KEY_3"@[4] && "KEY_Z"@[4] != "KEY_4"@[4] && "KEY_Z"@[4] != "KEY_5"@[4] && "KEY_Z"@[4] != "KEY_6"@[4] && "KEY_Z"@[4] != "KEY_7"@[4] && "KEY_Z"@[4] != "KEY_8"@[4] && "KEY_Z"@[4] != "KEY_9"@[4] && "KEY_Z"@[4] != "KEY_0"@[4] && "KEY_Z"@[4] != "KEY_Q"@[4] && "KEY_Z"@[4] != "KEY_W"@[4] && "KEY_Z"@[4] != "KEY_E"@[4] && "KEY_Z"@[4] != "KEY_R"@[4] && "KEY_Z"@[4] != "KEY_T"@[4] && "KEY_Z"@[4] != "KEY_Y"@[4] && "KEY_Z"@[4] != "KEY_U"@[4] && "KEY_Z"@[4] != "KEY_I"@[4] && "KEY_Z"@[4] != "KEY_O"@[4] && "KEY_Z"@[4] != "KEY_P"@[4] && "KEY_Z"@[4] != "KEY_A"@[4] && "KEY_Z"@[4] != "KEY_S"@[4] && "KEY_Z"@[4] != "KEY_D"@[4] && "KEY_Z"@[4] != "KEY_F"@[4] && "KEY_Z"@[4] != "KEY_G"@[4] && "KEY_Z"@[4] != "KEY_H"@[4] && "KEY_Z"@[4] != "KEY_J"@[4] && "KEY_Z"@[4] != "KEY_K"@[4] && "KEY_Z"@[4] != "KEY_L"@[4]);
    assert("KEY_X"@[4] != "KEY_1"@[4] && "KEY_X"@[4] != "KEY_2"@[4] && "KEY_X"@[4] != "KEY_3"@[4] && "KEY_X"@[4] != "KEY_4"@[4] && "KEY_X"@[4] != "KEY_5"@[4] && "KEY_X"@[4] != "KEY_6"@[4] && "KEY_X"@[4] != "KEY_7"@[4] && "KEY_X"@[4] != "KEY_8"@[4] && "KEY_X"@[4] != "KEY_9"@[4] && "KEY_X"@[4] != "KEY_0"@[4] && "KEY_X"@[4] != "KEY_Q"@[4] && "KEY_X"@[4] != "KEY_W"@[4] && "KEY_X"@[4] != "KEY_E"@[4] && "KEY_X"@[4] != "KEY_R"@[4] && "KEY_X"@[4] != "KEY_T"@[4] && "KEY_X"@[4] != "KEY_Y"@[4] && "KEY_X"@[4] != "KEY_U"@[4] && "KEY_X"@[4] != "KEY_I"@[4] && "KEY_X"@[4] != "KEY_O"@[4] && "KEY_X"@[4] != "KEY_P"@[4] && "KEY_X"@[4] != "KEY_A"@[4] && "KEY_X"@[4] != "KEY_S"@[4] && "KEY_X"@[4] != "KEY_D"@[4] && "KEY_X"@[4] != "KEY_F"@[4] && "KEY_X"@[4] != "KEY_G"@[4] && "KEY_X"@[4] != "KEY_H"@[4] && "KEY_X"@[4] != "KEY_J"@[4] && "KEY_X"@[4] != "KEY_K"@[4] && "KEY_X"@[4] != "KEY_L"@[4] && "KEY_X"@[4] != "KEY_Z"@[4]);
    assert("KEY_C"@[4] != "KEY_1"@[4] && "KEY_C"@[4] != "KEY_2"@[4] && "KEY_C"@[4] != "KEY_3"@[4] && "KEY_C"@[4] != "KEY_4"@[4] && "KEY_C"@[4] != "KEY_5"@[4] && "KEY_C"@[4] != "KEY_6"@[4] && "KEY_C"@[4] != "KEY_7"@[4] && "KEY_C"@[4] != "KEY_8"@[4] && "KEY_C"@[4] != "KEY_9"@[4] && "KEY_C"@[4] != "KEY_0"@[4] && "KEY_C"@[4] != "KEY_Q"@[4] && "KEY_C"@[4] != "KEY_W"@[4] && "KEY_C"@[4] != "KEY_E"@[4] && "KEY_C"@[4] != "KEY_R"@[4] && "KEY_C"@[4] != "KEY_T"@[4] && "KEY_C"@[4] != "KEY_Y"@[4] && "KEY_C"@[4] != "KEY_U"@[4] && "KEY_C"@[4] != "KEY_I"@[4] && "KEY_C"@[4] != "KEY_O"@[4] && "KEY_C"@[4] != "KEY_P"@[4] && "KEY_C"@[4] != "KEY_A"@[4] && "KEY_C"@[4] != "KEY_S"@[4] && "KEY_C"@[4] != "KEY_D"@[4] && "KEY_C"@[4] != "KEY_F"@[4] && "KEY_C"@[4] != "KEY_G"@[4] && "KEY_C"@[4] != "KEY_H"@[4] && "KEY_C"@[4] != "KEY_J"@[4] && "KEY_C"@[4] != "KEY_K"@[4] && "KEY_C"@[4] != "KEY_L"@[4] && "KEY_C"@[4] != "KEY_Z"@[4] && "KEY_C"@[4] != "KEY_X"@[4]);
    assert("KEY_V"@[4] != "KEY_1"@[4] && "KEY_V"@[4] != "KEY_2"@[4] && "KEY_V"@[4] != "KEY_3"@[4] && "KEY_V"@[4] != "KEY_4"@[4] && "KEY_V"@[4] != "KEY_5"@[4] && "KEY_V"@[4] != "KEY_6"@[4] && "KEY_V"@[4] != "KEY_7"@[4] && "KEY_V"@[4] != "KEY_8"@[4] && "KEY_V"@[4] != "KEY_9"@[4] && "KEY_V"@[4] != "KEY_0"@[4] && "KEY_V"@[4] != "KEY_Q"@[4] && "KEY_V"@[4] != "KEY_W"@[4] && "KEY_V"@[4] != "KEY_E"@[4] && "KEY_V"@[4] != "KEY_R"@[4] && "KEY_V"@[4] != "KEY_T"@[4] && "KEY_V"@[4] != "KEY_Y"@[4] && "KEY_V"@[4] != "KEY_U"@[4] && "KEY_V"@[4] != "KEY_I"@[4] && "KEY_V"@[4] != "KEY_O"@[4] && "KEY_V"@[4] != "KEY_P"@[4] && "KEY_V"@[4] != "KEY_A"@[4] && "KEY_V"@[4] != "KEY_S"@[4] && "KEY_V"@[4] != "KEY_D"@[4] && "KEY_V"@[4] != "KEY_F"@[4] && "KEY_V"@[4] != "KEY_G"@[4] && "KEY_V"@[4] != "KEY_H"@[4] && "KEY_V"@[4] != "KEY_J"@[4] && "KEY_V"@[4] != "KEY_K"@[4] && "KEY_V"@[4] != "KEY_L"@[4] && "KEY_V"@[4] != "KEY_Z"@[4] && "KEY_V"@[4] != "KEY_X"@[4] && "KEY_V"@[4] != "KEY_C"@[4]);
    assert("KEY_B"@[4] != "KEY_1"@[4] && "KEY_B"@[4] != "KEY_2"@[4] && "KEY_B"@[4] != "KEY_3"@[4] && "KEY_B"@[4] != "KEY_4"@[4] && "KEY_B"@[4] != "KEY_5"@[4] && "KEY_B"@[4] != "KEY_6"@[4] && "KEY_B"@[4] != "KEY_7"@[4] && "KEY_B"@[4] != "KEY_8"@[4] && "KEY_B"@[4] != "KEY_9"@[4] && "KEY_B"@[4] != "KEY_0"@[4] && "KEY_B"@[4] != "KEY_Q"@[4] && "KEY_B"@[4] != "KEY_W"@[4] && "KEY_B"@[4] != "KEY_E"@[4] && "KEY_B"@[4] != "KEY_R"@[4] && "KEY_B"@[4] != "KEY_T"@[4] && "KEY_B"@[4] != "KEY_Y"@[4] && "KEY_B"@[4] != "KEY_U"@[4] && "KEY_B"@[4] != "KEY_I"@[4] && "KEY_B"@[4] != "KEY_O"@[4] && "KEY_B"@[4] != "KEY_P"@[4] && "KEY_B"@[4] != "KEY_A"@[4] && "KEY_B"@[4] != "KEY_S"@[4] && "KEY_B"@[4] != "KEY_D"@[4] && "KEY_B"@[4] != "KEY_F"@[4] && "KEY_B"@[4] != "KEY_G"@[4] && "KEY_B"@[4] != "KEY_H"@[4] && "KEY_B"@[4] != "KEY_J"@[4] && "KEY_B"@[4] != "KEY_K"@[4] && "KEY_B"@[4] != "KEY_L"@[4] && "KEY_B"@[4] != "KEY_Z"@[4] && "KEY_B"@[4] != "KEY_X"@[4] && "KEY_B"@[4] != "KEY_C"@[4] && "KEY_B"@[4] != "KEY_V"@[4]);
}

/// Names of the key table read to their codes (part 4).
pub proof fn law_key_names_read_to_codes_4()
    ensures
        key_code_of_name("KEY_N"@) == Some(49u16),
        key_code_of_name("KEY_M"@) == Some(50u16),
        key_code_of_name("KEY_COMMA"@) == Some(51u16),
        key_code_of_name("KEY_DOT"@) == Some(52u16),
        key_code_of_name("KEY_SLASH"@) == Some(53u16),
        key_code_of_name("KEY_RIGHTSHIFT"@) == Some(54u16),
        key_code_of_name("KEY_KPASTERISK"@) == Some(55u16),
        key_code_of_name("KEY_LEFTALT"@) == Some(56u16),
        key_code_of_name("KEY_SPACE"@) == Some(57u16),
        key_code_of_name("KEY_CAPSLOCK"@) == Some(58u16),
        key_code_of_name("KEY_F1"@) == Some(59u16),
        key_code_of_name("KEY_F2"@) == Some(60u16),
        key_code_of_name("KEY_F3"@) == Some(61u16),
        key_code_of_name("KEY_F4"@) == Some(62u16),
        key_code_of_name("KEY_F5"@) == Some(63u16),
        key_code_of_name("KEY_F6"@) == Some(64u16),
{
    reveal_strlit("KEY_0");
    reveal_strlit("KEY_1");
    reveal_strlit("KEY_2");
    reveal_strlit("KEY_3");
    reveal_strlit("KEY_4");
    reveal_strlit("KEY_5");
    reveal_strlit("KEY_6");
    reveal_strlit("KEY_7");
    reveal_strlit("KEY_8");
    reveal_strlit("KEY_9");
    reveal_strlit("KEY_A");
    reveal_strlit("KEY_APOSTROPHE");
    reveal_strlit("KEY_B");
    reveal_strlit("KEY_BACKSLASH");
    reveal_strlit("KEY_BACKSPACE");
    reveal_strlit("KEY_C");
    reveal_strlit("KEY_CAPSLOCK");
    reveal_strlit("KEY_COMMA");
    reveal_strlit("KEY_D");
    reveal_strlit("KEY_DOT");
    reveal_strlit("KEY_E");
    reveal_strlit("KEY_ENTER");
    reveal_strlit("KEY_EQUAL");
    reveal_strlit("KEY_ESC");
    reveal_strlit("KEY_F");
    reveal_strlit("KEY_F1");
    reveal_strlit("KEY_F2");
    reveal_strlit("KEY_F3");
    reveal_strlit("KEY_F4");
    reveal_strlit("KEY_F5");
    reveal_strlit("KEY_F6");
    reveal_strlit("KEY_G");
    reveal_strlit("KEY_GRAVE");
    reveal_strlit("KEY_H");
    reveal_strlit("KEY_I");
    reveal_strlit("KEY_J");
    reveal_strlit("KEY_K");
    reveal_strlit("KEY_KPASTERISK");
    reveal_strlit("KEY_L");
    reveal_strlit("KEY_LEFTALT");
    reveal_strlit("KEY_LEFTBRACE");
    reveal_strlit("KEY_LEFTCTRL");
    reveal_strlit("KEY_LEFTSHIFT");
    reveal_strlit("KEY_M");
    reveal_strlit("KEY_MINUS");
    reveal_strlit("KEY_N");
    reveal_strlit("KEY_O");
    reveal_strlit("KEY_P");
    reveal_strlit("KEY_Q");
    reveal_strlit("KEY_R");
    reveal_strlit("KEY_RIGHTBRACE");
    reveal_strlit("KEY_RIGHTSHIFT");
    reveal_strlit("KEY_S");
    reveal_strlit("KEY_SEMICOLON");
    reveal_strlit("KEY_SLASH");
    reveal_strlit("KEY_SPACE");
    reveal_strlit("KEY_T");
    reveal_strlit("KEY_TAB");
    reveal_strlit("KEY_U");
    reveal_strlit("KEY_V");
    reveal_strlit("KEY_W");
    reveal_strlit("KEY_X");
    reveal_strlit("KEY_Y");
    reveal_strlit("KEY_Z");
    assert("KEY_0"@.len() == 5 && "KEY_1"@.len() == 5 && "KEY_2"@.len() == 5 && "KEY_3"@.len() == 5 && "KEY_4"@.len() == 5 && "KEY_5"@.len() == 5 && "KEY_6"@.len() == 5 && "KEY_7"@.len() == 5 && "KEY_8"@.len() == 5 && "KEY_9"@.len() == 5 && "KEY_A"@.len() == 5 && "KEY_APOSTROPHE"@.len() == 14 && "KEY_B"@.len() == 5 && "KEY_BACKSLASH"@.len() == 13 && "KEY_BACKSPACE"@.len() == 13 && "KEY_C"@.len() == 5 && "KEY_CAPSLOCK"@.len() == 12 && "KEY_COMMA"@.len() == 9 && "KEY_D"@.len() == 5 && "KEY_DOT"@.len() == 7 && "KEY_E"@.len() == 5 && "KEY_ENTER"@.len() == 9 && "KEY_EQUAL"@.len() == 9 && "KEY_ESC"@.len() == 7 && "KEY_F"@.len() == 5 && "KEY_F1"@.len() == 6 && "KEY_F2"@.len() == 6 && "KEY_F3"@.len() == 6 && "KEY_F4"@.len() == 6 && "KEY_F5"@.len() == 6 && "KEY_F6"@.len() == 6 && "KEY_G"@.len() == 5 && "KEY_GRAVE"@.len() == 9 && "KEY_H"@.len() == 5 && "KEY_I"@.len() == 5 && "KEY_J"@.len() == 5 && "KEY_K"@.len() == 5 && "KEY_KPASTERISK"@.len() == 14 && "KEY_L"@.len() == 5 && "KEY_LEFTALT"@.len() == 11 && "KEY_LEFTBRACE"@.len() == 13 && "KEY_LEFTCTRL"@.len() == 12 && "KEY_LEFTSHIFT"@.len() == 13 && "KEY_M"@.len() == 5 && "KEY_MINUS"@.len() == 9 && "KEY_N"@.len() == 5 && "KEY_O"@.len() == 5 && "KEY_P"@.len() == 5 && "KEY_Q"@.len() == 5 && "KEY_R"@.len() == 5 && "KEY_RIGHTBRACE"@.len() == 14 && "KEY_RIGHTSHIFT"@.len() == 14 && "KEY_S"@.len() == 5 && "KEY_SEMICOLON"@.len() == 13 && "KEY_SLASH"@.len() == 9 && "KEY_SPACE"@.len() == 9 && "KEY_T"@.len() == 5 && "KEY_TAB"@.len() == 7 && "KEY_U"@.len() == 5 && "KEY_V"@.len() == 5 && "KEY_W"@.len() == 5 && "KEY_X"@.len() == 5 && "KEY_Y"@.len() == 5 && "KEY_Z"@.len() == 5);
    assert("KEY_N"@[4] != "KEY_1"@[4] && "KEY_N"@[4] != "KEY_2"@[4] && "KEY_N"@[4] != "KEY_3"@[4] && "KEY_N"@[4] != "KEY_4"@[4] && "KEY_N"@[4] != "KEY_5"@[4] && "KEY_N"@[4] != "KEY_6"@[4] && "KEY_N"@[4] != "KEY_7"@[4] && "KEY_N"@[4] != "KEY_8"@[4] && "KEY_N"@[4] != "KEY_9"@[4] && "KEY_N"@[4] != "KEY_0"@[4] && "KEY_N"@[4] != "KEY_Q"@[4] && "KEY_N"@[4] != "KEY_W"@[4] && "KEY_N"@[4] != "KEY_E"@[4] && "KEY_N"@[4] != "KEY_R"@[4] && "KEY_N"@[4] != "KEY_T"@[4] && "KEY_N"@[4] != "KEY_Y"@[4] && "KEY_N"@[4] != "KEY_U"@[4] && "KEY_N"@[4] != "KEY_I"@[4] && "KEY_N"@[4] != "KEY_O"@[4] && "KEY_N"@[4] != "KEY_P"@[4] && "KEY_N"@[4] != "KEY_A"@[4] && "KEY_N"@[4] != "KEY_S"@[4] && "KEY_N"@[4] != "KEY_D"@[4] && "KEY_N"@[4] != "KEY_F"@[4] && "KEY_N"@[4] != "KEY_G"@[4] && "KEY_N"@[4] != "KEY_H"@[4] && "KEY_N"@[4] != "KEY_J"@[4] && "KEY_N"@[4] != "KEY_K"@[4] && "KEY_N"@[4] != "KEY_L"@[4] && "KEY_N"@[4] != "KEY_Z"@[4] && "KEY_N"@[4] != "KEY_X"@[4] && "KEY_N"@[4] != "KEY_C"@[4] && "KEY_N"@[4] != "KEY_V"@[4] && "KEY_N"@[4] != "KEY_B"@[4]);
    assert("KEY_M"@[4] != "KEY_1"@[4] && "KEY_M"@[4] != "KEY_2"@[4] && "KEY_M"@[4] != "KEY_3"@[4] && "KEY_M"@[4] != "KEY_4"@[4] && "KEY_M"@[4] != "KEY_5"@[4] && "KEY_M"@[4] != "KEY_6"@[4] && "KEY_M"@[4] != "KEY_7"@[4] && "KEY_M"@[4] != "KEY_8"@[4] && "KEY_M"@[4] != "KEY_9"@[4] && "KEY_M"@[4] != "KEY_0"@[4] && "KEY_M"@[4] != "KEY_Q"@[4] && "KEY_M"@[4] != "KEY_W"@[4] && "KEY_M"@[4] != "KEY_E"@[4] && "KEY_M"@[4] != "KEY_R"@[4] && "KEY_M"@[4] != "KEY_T"@[4] && "KEY_M"@[4] != "KEY_Y"@[4] && "KEY_M"@[4] != "KEY_U"@[4] && "KEY_M"@[4] != "KEY_I"@[4] && "KEY_M"@[4] != "KEY_O"@[4] && "KEY_M"@[4] != "KEY_P"@[4] && "KEY_M"@[4] != "KEY_A"@[4] && "KEY_M"@[4] != "KEY_S"@[4] && "KEY_M"@[4] != "KEY_D"@[4] && "KEY_M"@[4] != "KEY_F"@[4] && "KEY_M"@[4] != "KEY_G"@[4] && "KEY_M"@[4] != "KEY_H"@[4] && "KEY_M"@[4] != "KEY_J"@[4] && "KEY_M"@[4] != "KEY_K"@[4] && "KEY_M"@[4] != "KEY_L"@[4] && "KEY_M"@[4] != "KEY_Z"@[4] && "KEY_M"@[4] != "KEY_X"@[4] && "KEY_M"@[4] != "KEY_C"@[4] && "KEY_M"@[4] != "KEY_V"@[4] && "KEY_M"@[4] != "KEY_B"@[4] && "KEY_M"@[4] != "KEY_N"@[4]);
    assert("KEY_COMMA"@[4] != "KEY_MINUS"@[4] && "KEY_COMMA"@[4] != "KEY_EQUAL"@[4] && "KEY_COMMA"@[4] != "KEY_ENTER"@[4] && "KEY_COMMA"@[4] != "KEY_GRAVE"@[4]);
    assert("KEY_DOT"@[4] != "KEY_ESC"@[4] && "KEY_DOT"@[4] != "KEY_TAB"@[4]);
    assert("KEY_SLASH"@[4] != "KEY_MINUS"@[4] && "KEY_SLASH"@[4] != "KEY_EQUAL"@[4] && "KEY_SLASH"@[4] != "KEY_ENTER"@[4] && "KEY_SLASH"@[4] != "KEY_GRAVE"@[4] && "KEY_SLASH"@[4] != "KEY_COMMA"@[4]);
    assert("KEY_RIGHTSHIFT"@[9] != "KEY_RIGHTBRACE"@[9] && "KEY_RIGHTSHIFT"@[4] != "KEY_APOSTROPHE"@[4]);
    assert("KEY_KPASTERISK"@[4] != "KEY_RIGHTBRACE"@[4] && "KEY_KPASTERISK"@[4] != "KEY_APOSTROPHE"@[4] && "KEY_KPASTERISK"@[4] != "KEY_RIGHTSHIFT"@[4]);
    assert("KEY_SPACE"@[4] != "KEY_MINUS"@[4] && "KEY_SPACE"@[4] != "KEY_EQUAL"@[4] && "KEY_SPACE"@[4] != "KEY_ENTER"@[4] && "KEY_SPACE"@[4] != "KEY_GRAVE"@[4] && "KEY_SPACE"@[4] != "KEY_COMMA"@[4] && "KEY_SPACE"@[5] != "KEY_SLASH"@[5]);
    assert("KEY_CAPSLOCK"@[4] != "KEY_LEFTCTRL"@[4]);
    assert("KEY_F2"@[5] != "KEY_F1"@[5]);
    assert("KEY_F3"@[5] != "KEY_F1"@[5] && "KEY_F3"@[5] != "KEY_F2"@[5]);
    assert("KEY_F4"@[5] != "KEY_F1"@[5] && "KEY_F4"@[5] != "KEY_F2"@[5] && "KEY_F4"@[5] != "KEY_F3"@[5]);
    assert("KEY_F5"@[5] != "KEY_F1"@[5] && "KEY_F5"@[5] != "KEY_F2"@[5] && "KEY_F5"@[5] != "KEY_F3"@[5] && "KEY_F5"@[5] != "KEY_F4"@[5]);
    assert("KEY_F6"@[5] != "KEY_F1"@[5] && "KEY_F6"@[5] != "KEY_F2"@[5] && "KEY_F6"@[5] != "KEY_F3"@[5] && "KEY_F6"@[5] != "KEY_F4"@[5] && "KEY_F6"@[5] != "KEY_F5"@[5]);
}

/// Names of the key table read to their codes (part 5).
pub proof fn law_key_names_read_to_codes_5()
    ensures
        key_code_of_name("KEY_F7"@) == Some(65u16),
        key_code_of_name("KEY_F8"@) == Some(66u16),
        key_code_of_name("KEY_F9"@) == Some(67u16),
        key_code_of_name("KEY_F10"@) == Some(68u16),
        key_code_of_name("KEY_F11"@) == Some(87u16),
        key_code_of_name("KEY_F12"@) == Some(88u16),
        key_code_of_name("KEY_RIGHTCTRL"@) == Some(97u16),
        key_code_of_name("KEY_RIGHTALT"@) == Some(100u16),
        key_code_of_name("KEY_HOME"@) == Some(102u16),
        key_code_of_name("KEY_UP"@) == Some(103u16),
        key_code_of_name("KEY_PAGEUP"@) == Some(104u16),
        key_code_of_name("KEY_LEFT"@) == Some(105u16),
        key_code_of_name("KEY_RIGHT"@) == Some(106u16),
        key_code_of_name("KEY_END"@) == Some(107u16),
        key_code_of_name("KEY_DOWN"@) == Some(108u16),
        key_code_of_name("KEY_PAGEDOWN"@) == Some(109u16),
{
    reveal_strlit("KEY_0");
    reveal_strlit("KEY_1");
    reveal_strlit("KEY_2");
    reveal_strlit("KEY_3");
    reveal_strlit("KEY_4");
    reveal_strlit("KEY_5");
    reveal_strlit("KEY_6");
    reveal_strlit("KEY_7");
    reveal_strlit("KEY_8");
    reveal_strlit("KEY_9");
    reveal_strlit("KEY_A");
    reveal_strlit("KEY_APOSTROPHE");
    reveal_strlit("KEY_B");
    reveal_strlit("KEY_BACKSLASH");
    reveal_strlit("KEY_BACKSPACE");
    reveal_strlit("KEY_C");
    reveal_strlit("KEY_CAPSLOCK");
    reveal_strlit("KEY_COMMA");
    reveal_strlit("KEY_D");
    reveal_strlit("KEY_DOT");
    reveal_strlit("KEY_DOWN");
    reveal_strlit("KEY_E");
    reveal_strlit("KEY_END");
    reveal_strlit("KEY_ENTER");
    reveal_strlit("KEY_EQUAL");
    reveal_strlit("KEY_ESC");
    reveal_strlit("KEY_F");
    reveal_strlit("KEY_F1");
    reveal_strlit("KEY_F10");
    reveal_strlit("KEY_F11");
    reveal_strlit("KEY_F12");
    reveal_strlit("KEY_F2");
    reveal_strlit("KEY_F3");
    reveal_strlit("KEY_F4");
    reveal_strlit("KEY_F5");
    reveal_strlit("KEY_F6");
    reveal_strlit("KEY_F7");
    reveal_strlit("KEY_F8");
    reveal_strlit("KEY_F9");
    reveal_strlit("KEY_G");
    reveal_strlit("KEY_GRAVE");
    reveal_strlit("KEY_H");
    reveal_strlit("KEY_HOME");
    reveal_strlit("KEY_I");
    reveal_strlit("KEY_J");
    reveal_strlit("KEY_K");
    reveal_strlit("KEY_KPASTERISK");
    reveal_strlit("KEY_L");
    reveal_strlit("KEY_LEFT");
    reveal_strlit("KEY_LEFTALT");
    reveal_strlit("KEY_LEFTBRACE");
    reveal_strlit("KEY_LEFTCTRL");
    reveal_strlit("KEY_LEFTSHIFT");
    reveal_strlit("KEY_M");
    reveal_strlit("KEY_MINUS");
    reveal_strlit("KEY_N");
    reveal_strlit("KEY_O");
    reveal_strlit("KEY_P");
    reveal_strlit("KEY_PAGEDOWN");
    reveal_strlit("KEY_PAGEUP");
    reveal_strlit("KEY_Q");
    reveal_strlit("KEY_R");
    reveal_strlit("KEY_RIGHT");
    reveal_strlit("KEY_RIGHTALT");
    reveal_strlit("KEY_RIGHTBRACE");
    reveal_strlit("KEY_RIGHTCTRL");
    reveal_strlit("KEY_RIGHTSHIFT");
    reveal_strlit("KEY_S");
    reveal_strlit("KEY_SEMICOLON");
    reveal_strlit("KEY_SLASH");
    reveal_strlit("KEY_SPACE");
    reveal_strlit("KEY_T");
    reveal_strlit("KEY_TAB");
    reveal_strlit("KEY_U");
    reveal_strlit("KEY_UP");
    reveal_strlit("KEY_V");
    reveal_strlit("KEY_W");
    reveal_strlit("KEY_X");
    reveal_strlit("KEY_Y");
    reveal_strlit("KEY_Z");
    assert("KEY_0"@.len() == 5 && "KEY_1"@.len() == 5 && "KEY_2"@.len() == 5 && "KEY_3"@.len() == 5 && "KEY_4"@.len() == 5 && "KEY_5"@.len() == 5 && "KEY_6"@.len() == 5 && "KEY_7"@.len() == 5 && "KEY_8"@.len() == 5 && "KEY_9"@.len() == 5 && "KEY_A"@.len() == 5 && "KEY_APOSTROPHE"@.len() == 14 && "KEY_B"@.len() == 5 && "KEY_BACKSLASH"@.len() == 13 && "KEY_BACKSPACE"@.len() == 13 && "KEY_C"@.len() == 5 && "KEY_CAPSLOCK"@.len() == 12 && "KEY_COMMA"@.len() == 9 && "KEY_D"@.len() == 5 && "KEY_DOT"@.len() == 7 && "KEY_DOWN"@.len() == 8 && "KEY_E"@.len() == 5 && "KEY_END"@.len() == 7 && "KEY_ENTER"@.len() == 9 && "KEY_EQUAL"@.len() == 9 && "KEY_ESC"@.len() == 7 && "KEY_F"@.len() == 5 && "KEY_F1"@.len() == 6 && "KEY_F10"@.len() == 7 && "KEY_F11"@.len() == 7 && "KEY_F12"@.len() == 7 && "KEY_F2"@.len() == 6 && "KEY_F3"@.len() == 6 && "KEY_F4"@.len() == 6 && "KEY_F5"@.len() == 6 && "KEY_F6"@.len() == 6 && "KEY_F7"@.len() == 6 && "KEY_F8"@.len() == 6 && "KEY_F9"@.len() == 6 && "KEY_G"@.len() == 5 && "KEY_GRAVE"@.len() == 9 && "KEY_H"@.len() == 5 && "KEY_HOME"@.len() == 8 && "KEY_I"@.len() == 5 && "KEY_J"@.len() == 5 && "KEY_K"@.len() == 5 && "KEY_KPASTERISK"@.len() == 14 && "KEY_L"@.len() == 5 && "KEY_LEFT"@.len() == 8 && "KEY_LEFTALT"@.len() == 11 && "KEY_LEFTBRACE"@.len() == 13 && "KEY_LEFTCTRL"@.len() == 12 && "KEY_LEFTSHIFT"@.len() == 13 && "KEY_M"@.len() == 5 && "KEY_MINUS"@.len() == 9 && "KEY_N"@.len() == 5 && "KEY_O"@.len() == 5 && "KEY_P"@.len() == 5 && "KEY_PAGEDOWN"@.len() == 12 && "KEY_PAGEUP"@.len() == 10 && "KEY_Q"@.len() == 5 && "KEY_R"@.len() == 5 && "KEY_RIGHT"@.len() == 9 && "KEY_RIGHTALT"@.len() == 12 && "KEY_RIGHTBRACE"@.len() == 14 && "KEY_RIGHTCTRL"@.len() == 13 && "KEY_RIGHTSHIFT"@.len() == 14 && "KEY_S"@.len() == 5 && "KEY_SEMICOLON"@.len() == 13 && "KEY_SLASH"@.len() == 9 && "KEY_SPACE"@.len() == 9 && "KEY_T"@.len() == 5 && "KEY_TAB"@.len() == 7 && "KEY_U"@.len() == 5 && "KEY_UP"@.len() == 6 && "KEY_V"@.len() == 5 && "KEY_W"@.len() == 5 && "KEY_X"@.len() == 5 && "KEY_Y"@.len() == 5 && "KEY_Z"@.len() == 5);
    assert("KEY_F7"@[5] != "KEY_F1"@[5] && "KEY_F7"@[5] != "KEY_F2"@[5] && "KEY_F7"@[5] != "KEY_F3"@[5] && "KEY_F7"@[5] != "KEY_F4"@[5] && "KEY_F7"@[5] != "KEY_F5"@[5] && "KEY_F7"@[5] != "KEY_F6"@[5]);
    assert("KEY_F8"@[5] != "KEY_F1"@[5] && "KEY_F8"@[5] != "KEY_F2"@[5] && "KEY_F8"@[5] != "KEY_F3"@[5] && "KEY_F8"@[5] != "KEY_F4"@[5] && "KEY_F8"@[5] != "KEY_F5"@[5] && "KEY_F8"@[5] != "KEY_F6"@[5] && "KEY_F8"@[5] != "KEY_F7"@[5]);
    assert("KEY_F9"@[5] != "KEY_F1"@[5] && "KEY_F9"@[5] != "KEY_F2"@[5] && "KEY_F9"@[5] != "KEY_F3"@[5] && "KEY_F9"@[5] != "KEY_F4"@[5] && "KEY_F9"@[5] != "KEY_F5"@[5] && "KEY_F9"@[5] != "KEY_F6"@[5] && "KEY_F9"@[5] != "KEY_F7"@[5] && "KEY_F9"@[5] != "KEY_F8"@[5]);
    assert("KEY_F10"@[4] != "KEY_ESC"@[4] && "KEY_F10"@[4] != "KEY_TAB"@[4] && "KEY_F10"@[4] != "KEY_DOT"@[4]);
    assert("KEY_F11"@[4] != "KEY_ESC"@[4] && "KEY_F11"@[4] != "KEY_TAB"@[4] && "KEY_F11"@[4] != "KEY_DOT"@[4] && "KEY_F11"@[6] != "KEY_F10"@[6]);
    assert("KEY_F12"@[4] != "KEY_ESC"@[4] && "KEY_F12"@[4] != "KEY_TAB"@[4] && "KEY_F12"@[4] != "KEY_DOT"@[4] && "KEY_F12"@[6] != "KEY_F10"@[6] && "KEY_F12"@[6] != "KEY_F11"@[6]);
    assert("KEY_RIGHTCTRL"@[4] != "KEY_BACKSPACE"@[4] && "KEY_RIGHTCTRL"@[4] != "KEY_LEFTBRACE"@[4] && "KEY_RIGHTCTRL"@[4] != "KEY_SEMICOLON"@[4] && "KEY_RIGHTCTRL"@[4] != "KEY_LEFTSHIFT"@[4] && "KEY_RIGHTCTRL"@[4] != "KEY_BACKSLASH"@[4]);
    assert("KEY_RIGHTALT"@[4] != "KEY_LEFTCTRL"@[4] && "KEY_RIGHTALT"@[4] != "KEY_CAPSLOCK"@[4]);
    assert("KEY_UP"@[4] != "KEY_F1"@[4] && "KEY_UP"@[4] != "KEY_F2"@[4] && "KEY_UP"@[4] != "KEY_F3"@[4] && "KEY_UP"@[4] != "KEY_F4"@[4] && "KEY_UP"@[4] != "KEY_F5"@[4] && "KEY_UP"@[4] != "KEY_F6"@[4] && "KEY_UP"@[4] != "KEY_F7"@[4] && "KEY_UP"@[4] != "KEY_F8"@[4] && "KEY_UP"@[4] != "KEY_F9"@[4]);
    assert("KEY_LEFT"@[4] != "KEY_HOME"@[4]);
    assert("KEY_RIGHT"@[4] != "KEY_MINUS"@[4] && "KEY_RIGHT"@[4] != "KEY_EQUAL"@[4] && "KEY_RIGHT"@[4] != "KEY_ENTER"@[4] && "KEY_RIGHT"@[4] != "KEY_GRAVE"@[4] && "KEY_RIGHT"@[4] != "KEY_COMMA"@[4] && "KEY_RIGHT"@[4] != "KEY_SLASH"@[4] && "KEY_RIGHT"@[4] != "KEY_SPACE"@[4]);
    assert("KEY_END"@[5] != "KEY_ESC"@[5] && "KEY_END"@[4] != "KEY_TAB"@[4] && "KEY_END"@[4] != "KEY_DOT"@[4] && "KEY_END"@[4] != "KEY_F10"@[4] && "KEY_END"@[4] != "KEY_F11"@[4] && "KEY_END"@[4] != "KEY_F12"@[4]);
    assert("KEY_DOWN"@[4] != "KEY_HOME"@[4] && "KEY_DOWN"@[4] != "KEY_LEFT"@[4]);
    assert("KEY_PAGEDOWN"@[4] != "KEY_LEFTCTRL"@[4] && "KEY_PAGEDOWN"@[4] != "KEY_CAPSLOCK"@[4] && "KEY_PAGEDOWN"@[4] != "KEY_RIGHTALT"@[4]);
}

/// Names of the key table read to their codes (part 6).
pub proof fn law_key_names_read_to_codes_6()
    ensures
        key_code_of_name("KEY_INSERT"@) == Some(110u16),
        key_code_of_name("KEY_DELETE"@) == Some(111u16),
        key_code_of_name("KEY_LEFTMETA"@) == Some(125u16),
        key_code_of_name("KEY_RIGHTMETA"@) == Some(126u16),
        key_code_of_name("BTN_LEFT"@) == Some(272u16),
        key_code_of_name("BTN_RIGHT"@) == Some(273u16),
        key_code_of_name("BTN_MIDDLE"@) == Some(274u16),
        key_code_of_name("BTN_SIDE"@) == Some(275u16),
        key_code_of_name("BTN_EXTRA"@) == Some(276u16),
        key_code_of_name("BTN_SOUTH"@) == Some(304u16),
        key_code_of_name("BTN_EAST"@) == Some(305u16),
        key_code_of_name("BTN_C"@) == Some(306u16),
        key_code_of_name("BTN_NORTH"@) == Some(307u16),
        key_code_of_name("BTN_WEST"@) == Some(308u16),
        key_code_of_name("BTN_Z"@) == Some(309u16),
        key_code_of_name("BTN_TL"@) == Some(310u16),
{
    reveal_strlit("BTN_A");
    reveal_strlit("BTN_B");
    reveal_strlit("BTN_C");
    reveal_strlit("BTN_DPAD_DOWN");
    reveal_strlit("BTN_DPAD_LEFT");
    reveal_strlit("BTN_DPAD_RIGHT");
    reveal_strlit("BTN_DPAD_UP");
    reveal_strlit("BTN_EAST");
    reveal_strlit("BTN_EXTRA");
    reveal_strlit("BTN_LEFT");
    reveal_strlit("BTN_MIDDLE");
    reveal_strlit("BTN_MODE");
    reveal_strlit("BTN_NORTH");
    reveal_strlit("BTN_RIGHT");
    reveal_strlit("BTN_SELECT");
    reveal_strlit("BTN_SIDE");
    reveal_strlit("BTN_SOUTH");
    reveal_strlit("BTN_START");
    reveal_strlit("BTN_THUMBL");
    reveal_strlit("BTN_THUMBR");
    reveal_strlit("BTN_TL");
    reveal_strlit("BTN_TL2");
    reveal_strlit("BTN_TR");
    reveal_strlit("BTN_TR2");
    reveal_strlit("BTN_WEST");
    reveal_strlit("BTN_X");
    reveal_strlit("BTN_Y");
    reveal_strlit("BTN_Z");
    reveal_strlit("KEY_0");
    reveal_strlit("KEY_1");
    reveal_strlit("KEY_2");
    reveal_strlit("KEY_3");
    reveal_strlit("KEY_4");
    reveal_strlit("KEY_5");
    reveal_strlit("KEY_6");
    reveal_strlit("KEY_7");
    reveal_strlit("KEY_8");
    reveal_strlit("KEY_9");
    reveal_strlit("KEY_A");
    reveal_strlit("KEY_APOSTROPHE");
    reveal_strlit("KEY_B");
    reveal_strlit("KEY_BACKSLASH");
    reveal_strlit("KEY_BACKSPACE");
    reveal_strlit("KEY_C");
    reveal_strlit("KEY_CAPSLOCK");
    reveal_strlit("KEY_COMMA");
    reveal_strlit("KEY_D");
    reveal_strlit("KEY_DELETE");
    reveal_strlit("KEY_DOT");
    reveal_strlit("KEY_DOWN");
    reveal_strlit("KEY_E");
    reveal_strlit("KEY_END");
    reveal_strlit("KEY_ENTER");
    reveal_strlit("KEY_EQUAL");
    reveal_strlit("KEY_ESC");
    reveal_strlit("KEY_F");
    reveal_strlit("KEY_F1");
    reveal_strlit("KEY_F10");
    reveal_strlit("KEY_F11");
    reveal_strlit("KEY_F12");
    reveal_strlit("KEY_F2");
    reveal_strlit("KEY_F3");
    reveal_strlit("KEY_F4");
    reveal_strlit("KEY_F5");
    reveal_strlit("KEY_F6");
    reveal_strlit("KEY_F7");
    reveal_strlit("KEY_F8");
    reveal_strlit("KEY_F9");
    reveal_strlit("KEY_G");
    reveal_strlit("KEY_GRAVE");
    reveal_strlit("KEY_H");
    reveal_strlit("KEY_HOME");
    reveal_strlit("KEY_I");
    reveal_strlit("KEY_INSERT");
    reveal_strlit("KEY_J");
    reveal_strlit("KEY_K");
    reveal_strlit("KEY_KPASTERISK");
    reveal_strlit("KEY_L");
    reveal_strlit("KEY_LEFT");
    reveal_strlit("KEY_LEFTALT");
    reveal_strlit("KEY_LEFTBRACE");
    reveal_strlit("KEY_LEFTCTRL");
    reveal_strlit("KEY_LEFTMETA");
    reveal_strlit("KEY_LEFTSHIFT");
    reveal_strlit("KEY_M");
    reveal_strlit("KEY_MINUS");
    reveal_strlit("KEY_N");
    reveal_strlit("KEY_O");
    reveal_strlit("KEY_P");
    reveal_strlit("KEY_PAGEDOWN");
    reveal_strlit("KEY_PAGEUP");
    reveal_strlit("KEY_Q");
    reveal_strlit("KEY_R");
    reveal_strlit("KEY_RIGHT");
    reveal_strlit("KEY_RIGHTALT");
    reveal_strlit("KEY_RIGHTBRACE");
    reveal_strlit("KEY_RIGHTCTRL");
    reveal_strlit("KEY_RIGHTMETA");
    reveal_strlit("KEY_RIGHTSHIFT");
    reveal_strlit("KEY_S");
    reveal_strlit("KEY_SEMICOLON");
    reveal_strlit("KEY_SLASH");
    reveal_strlit("KEY_SPACE");
    reveal_strlit("KEY_T");
    reveal_strlit("KEY_TAB");
    reveal_strlit("KEY_U");
    reveal_strlit("KEY_UP");
    reveal_strlit("KEY_V");
    reveal_strlit("KEY_W");
    reveal_strlit("KEY_X");
    reveal_strlit("KEY_Y");
    reveal_strlit("KEY_Z");
    assert("BTN_A"@.len() == 5 && "BTN_B"@.len() == 5 && "BTN_C"@.len() == 5 && "BTN_DPAD_DOWN"@.len() == 13 && "BTN_DPAD_LEFT"@.len() == 13 && "BTN_DPAD_RIGHT"@.len() == 14 && "BTN_DPAD_UP"@.len() == 11 && "BTN_EAST"@.len() == 8 && "BTN_EXTRA"@.len() == 9 && "BTN_LEFT"@.len() == 8 && "BTN_MIDDLE"@.len() == 10 && "BTN_MODE"@.len() == 8 && "BTN_NORTH"@.len() == 9 && "BTN_RIGHT"@.len() == 9 && "BTN_SELECT"@.len() == 10 && "BTN_SIDE"@.len() == 8 && "BTN_SOUTH"@.len() == 9 && "BTN_START"@.len() == 9 && "BTN_THUMBL"@.len() == 10 && "BTN_THUMBR"@.len() == 10 && "BTN_TL"@.len() == 6 && "BTN_TL2"@.len() == 7 && "BTN_TR"@.len() == 6 && "BTN_TR2"@.len() == 7 && "BTN_WEST"@.len() == 8 && "BTN_X"@.len() == 5 && "BTN_Y"@.len() == 5 && "BTN_Z"@.len() == 5 && "KEY_0"@.len() == 5 && "KEY_1"@.len() == 5 && "KEY_2"@.len() == 5 && "KEY_3"@.len() == 5 && "KEY_4"@.len() == 5 && "KEY_5"@.len() == 5 && "KEY_6"@.len() == 5 && "KEY_7"@.len() == 5 && "KEY_8"@.len() == 5 && "KEY_9"@.len() == 5 && "KEY_A"@.len() == 5 && "KEY_APOSTROPHE"@.len() == 14 && "KEY_B"@.len() == 5 && "KEY_BACKSLASH"@.len() == 13 && "KEY_BACKSPACE"@.len() == 13 && "KEY_C"@.len() == 5 && "KEY_CAPSLOCK"@.len() == 12 && "KEY_COMMA"@.len() == 9 && "KEY_D"@.len() == 5 && "KEY_DELETE"@.len() == 10 && "KEY_DOT"@.len() == 7 && "KEY_DOWN"@.len() == 8 && "KEY_E"@.len() == 5 && "KEY_END"@.len() == 7 && "KEY_ENTER"@.len() == 9 && "KEY_EQUAL"@.len() == 9 && "KEY_ESC"@.len() == 7 && "KEY_F"@.len() == 5 && "KEY_F1"@.len() == 6 && "KEY_F10"@.len() == 7 && "KEY_F11"@.len() == 7 && "KEY_F12"@.len() == 7 && "KEY_F2"@.len() == 6 && "KEY_F3"@.len() == 6 && "KEY_F4"@.len() == 6 && "KEY_F5"@.len() == 6 && "KEY_F6"@.len() == 6 && "KEY_F7"@.len() == 6 && "KEY_F8"@.len() == 6 && "KEY_F9"@.len() == 6 && "KEY_G"@.len() == 5 && "KEY_GRAVE"@.len() == 9 && "KEY_H"@.len() == 5 && "KEY_HOME"@.len() == 8 && "KEY_I"@.len() == 5 && "KEY_INSERT"@.len() == 10 && "KEY_J"@.len() == 5 && "KEY_K"@.len() == 5 && "KEY_KPASTERISK"@.len() == 14 && "KEY_L"@.len() == 5 && "KEY_LEFT"@.len() == 8 && "KEY_LEFTALT"@.len() == 11 && "KEY_LEFTBRACE"@.len() == 13 && "KEY_LEFTCTRL"@.len() == 12 && "KEY_LEFTMETA"@.len() == 12 && "KEY_LEFTSHIFT"@.len() == 13 && "KEY_M"@.len() == 5 && "KEY_MINUS"@.len() == 9 && "KEY_N"@.len() == 5 && "KEY_O"@.len() == 5 && "KEY_P"@.len() == 5 && "KEY_PAGEDOWN"@.len() == 12 && "KEY_PAGEUP"@.len() == 10 && "KEY_Q"@.len() == 5 && "KEY_R"@.len() == 5 && "KEY_RIGHT"@.len() == 9 && "KEY_RIGHTALT"@.len() == 12 && "KEY_RIGHTBRACE"@.len() == 14 && "KEY_RIGHTCTRL"@.len() == 13 && "KEY_RIGHTMETA"@.len() == 13 && "KEY_RIGHTSHIFT"@.len() == 14 && "KEY_S"@.len() == 5 && "KEY_SEMICOLON"@.len() == 13 && "KEY_SLASH"@.len() == 9 && "KEY_SPACE"@.len() == 9 && "KEY_T"@.len() == 5 && "KEY_TAB"@.len() == 7 && "KEY_U"@.len() == 5 && "KEY_UP"@.len() == 6 && "KEY_V"@.len() == 5 && "KEY_W"@.len() == 5 && "KEY_X"@.len() == 5 && "KEY_Y"@.len() == 5 && "KEY_Z"@.len() == 5);
    assert("KEY_INSERT"@[4] != "KEY_PAGEUP"@[4]);
    assert("KEY_DELETE"@[4] != "KEY_PAGEUP"@[4] && "KEY_DELETE"@[4] != "KEY_INSERT"@[4]);
    assert("KEY_LEFTMETA"@[8] != "KEY_LEFTCTRL"@[8] && "KEY_LEFTMETA"@[4] != "KEY_CAPSLOCK"@[4] && "KEY_LEFTMETA"@[4] != "KEY_RIGHTALT"@[4] && "KEY_LEFTMETA"@[4] != "KEY_PAGEDOWN"@[4]);
    assert("KEY_RIGHTMETA"@[4] != "KEY_BACKSPACE"@[4] && "KEY_RIGHTMETA"@[4] != "KEY_LEFTBRACE"@[4] && "KEY_RIGHTMETA"@[4] != "KEY_SEMICOLON"@[4] && "KEY_RIGHTMETA"@[4] != "KEY_LEFTSHIFT"@[4] && "KEY_RIGHTMETA"@[4] != "KEY_BACKSLASH"@[4] && "KEY_RIGHTMETA"@[9] != "KEY_RIGHTCTRL"@[9]);
    assert("BTN_LEFT"@[0] != "KEY_HOME"@[0] && "BTN_LEFT"@[0] != "KEY_LEFT"@[0] && "BTN_LEFT"@[0] != "KEY_DOWN"@[0] && "BTN_LEFT"@[4] != "BTN_EAST"@[4] && "BTN_LEFT"@[4] != "BTN_WEST"@[4] && "BTN_LEFT"@[4] != "BTN_MODE"@[4]);
    assert("BTN_RIGHT"@[0] != "KEY_MINUS"@[0] && "BTN_RIGHT"@[0] != "KEY_EQUAL"@[0] && "BTN_RIGHT"@[0] != "KEY_ENTER"@[0] && "BTN_RIGHT"@[0] != "KEY_GRAVE"@[0] && "BTN_RIGHT"@[0] != "KEY_COMMA"@[0] && "BTN_RIGHT"@[0] != "KEY_SLASH"@[0] && "BTN_RIGHT"@[0] != "KEY_SPACE"@[0] && "BTN_RIGHT"@[0] != "KEY_RIGHT"@[0] && "BTN_RIGHT"@[4] != "BTN_SOUTH"@[4] && "BTN_RIGHT"@[4] != "BTN_NORTH"@[4] && "BTN_RIGHT"@[4] != "BTN_START"@[4]);
    assert("BTN_MIDDLE"@[0] != "KEY_PAGEUP"@[0] && "BTN_MIDDLE"@[0] != "KEY_INSERT"@[0] && "BTN_MIDDLE"@[0] != "KEY_DELETE"@[0] && "BTN_MIDDLE"@[4] != "BTN_SELECT"@[4] && "BTN_MIDDLE"@[4] != "BTN_THUMBL"@[4] && "BTN_MIDDLE"@[4] != "BTN_THUMBR"@[4]);
    assert("BTN_SIDE"@[0] != "KEY_HOME"@[0] && "BTN_SIDE"@[0] != "KEY_LEFT"@[0] && "BTN_SIDE"@[0] != "KEY_DOWN"@[0] && "BTN_SIDE"@[4] != "BTN_EAST"@[4] && "BTN_SIDE"@[4] != "BTN_WEST"@[4] && "BTN_SIDE"@[4] != "BTN_MODE"@[4] && "BTN_SIDE"@[4] != "BTN_LEFT"@[4]);
    assert("BTN_EXTRA"@[0] != "KEY_MINUS"@[0] && "BTN_EXTRA"@[0] != "KEY_EQUAL"@[0] && "BTN_EXTRA"@[0] != "KEY_ENTER"@[0] && "BTN_EXTRA"@[0] != "KEY_GRAVE"@[0] && "BTN_EXTRA"@[0] != "KEY_COMMA"@[0] && "BTN_EXTRA"@[0] != "KEY_SLASH"@[0] && "BTN_EXTRA"@[0] != "KEY_SPACE"@[0] && "BTN_EXTRA"@[0] != "KEY_RIGHT"@[0] && "BTN_EXTRA"@[4] != "BTN_SOUTH"@[4] && "BTN_EXTRA"@[4] != "BTN_NORTH"@[4] && "BTN_EXTRA"@[4] != "BTN_START"@[4] && "BTN_EXTRA"@[4] != "BTN_RIGHT"@[4]);
    assert("BTN_SOUTH"@[0] != "KEY_MINUS"@[0] && "BTN_SOUTH"@[0] != "KEY_EQUAL"@[0] && "BTN_SOUTH"@[0] != "KEY_ENTER"@[0] && "BTN_SOUTH"@[0] != "KEY_GRAVE"@[0] && "BTN_SOUTH"@[0] != "KEY_COMMA"@[0] && "BTN_SOUTH"@[0] != "KEY_SLASH"@[0] && "BTN_SOUTH"@[0] != "KEY_SPACE"@[0] && "BTN_SOUTH"@[0] != "KEY_RIGHT"@[0]);
    assert("BTN_EAST"@[0] != "KEY_HOME"@[0] && "BTN_EAST"@[0] != "KEY_LEFT"@[0] && "BTN_EAST"@[0] != "KEY_DOWN"@[0]);
    assert("BTN_C"@[0] != "KEY_1"@[0] && "BTN_C"@[0] != "KEY_2"@[0] && "BTN_C"@[0] != "KEY_3"@[0] && "BTN_C"@[0] != "KEY_4"@[0] && "BTN_C"@[0] != "KEY_5"@[0] && "BTN_C"@[0] != "KEY_6"@[0] && "BTN_C"@[0] != "KEY_7"@[0] && "BTN_C"@[0] != "KEY_8"@[0] && "BTN_C"@[0] != "KEY_9"@[0] && "BTN_C"@[0] != "KEY_0"@[0] && "BTN_C"@[0] != "KEY_Q"@[0] && "BTN_C"@[0] != "KEY_W"@[0] && "BTN_C"@[0] != "KEY_E"@[0] && "BTN_C"@[0] != "KEY_R"@[0] && "BTN_C"@[0] != "KEY_T"@[0] && "BTN_C"@[0] != "KEY_Y"@[0] && "BTN_C"@[0] != "KEY_U"@[0] && "BTN_C"@[0] != "KEY_I"@[0] && "BTN_C"@[0] != "KEY_O"@[0] && "BTN_C"@[0] != "KEY_P"@[0] && "BTN_C"@[0] != "KEY_A"@[0] && "BTN_C"@[0] != "KEY_S"@[0] && "BTN_C"@[0] != "KEY_D"@[0] && "BTN_C"@[0] != "KEY_F"@[0] && "BTN_C"@[0] != "KEY_G"@[0] && "BTN_C"@[0] != "KEY_H"@[0] && "BTN_C"@[0] != "KEY_J"@[0] && "BTN_C"@[0] != "KEY_K"@[0] && "BTN_C"@[0] != "KEY_L"@[0] && "BTN_C"@[0] != "KEY_Z"@[0] && "BTN_C"@[0] != "KEY_X"@[0] && "BTN_C"@[0] != "KEY_C"@[0] && "BTN_C"@[0] != "KEY_V"@[0] && "BTN_C"@[0] != "KEY_B"@[0] && "BTN_C"@[0] != "KEY_N"@[0] && "BTN_C"@[0] != "KEY_M"@[0] && "BTN_C"@[4] != "BTN_A"@[4] && "BTN_C"@[4] != "BTN_B"@[4]);
    assert("BTN_NORTH"@[0] != "KEY_MINUS"@[0] && "BTN_NORTH"@[0] != "KEY_EQUAL"@[0] && "BTN_NORTH"@[0] != "KEY_ENTER"@[0] && "BTN_NORTH"@[0] != "KEY_GRAVE"@[0] && "BTN_NORTH"@[0] != "KEY_COMMA"@[0] && "BTN_NORTH"@[0] != "KEY_SLASH"@[0] && "BTN_NORTH"@[0] != "KEY_SPACE"@[0] && "BTN_NORTH"@[0] != "KEY_RIGHT"@[0] && "BTN_NORTH"@[4] != "BTN_SOUTH"@[4]);
    assert("BTN_WEST"@[0] != "KEY_HOME"@[0] && "BTN_WEST"@[0] != "KEY_LEFT"@[0] && "BTN_WEST"@[0] != "KEY_DOWN"@[0] && "BTN_WEST"@[4] != "BTN_EAST"@[4]);
    assert("BTN_Z"@[0] != "KEY_1"@[0] && "BTN_Z"@[0] != "KEY_2"@[0] && "BTN_Z"@[0] != "KEY_3"@[0] && "BTN_Z"@[0] != "KEY_4"@[0] && "BTN_Z"@[0] != "KEY_5"@[0] && "BTN_Z"@[0] != "KEY_6"@[0] && "BTN_Z"@[0] != "KEY_7"@[0] && "BTN_Z"@[0] != "KEY_8"@[0] && "BTN_Z"@[0] != "KEY_9"@[0] && "BTN_Z"@[0] != "KEY_0"@[0] && "BTN_Z"@[0] != "KEY_Q"@[0] && "BTN_Z"@[0] != "KEY_W"@[0] && "BTN_Z"@[0] != "KEY_E"@[0] && "BTN_Z"@[0] != "KEY_R"@[0] && "BTN_Z"@[0] != "KEY_T"@[0] && "BTN_Z"@[0] != "KEY_Y"@[0] && "BTN_Z"@[0] != "KEY_U"@[0] && "BTN_Z"@[0] != "KEY_I"@[0] && "BTN_Z"@[0] != "KEY_O"@[0] && "BTN_Z"@[0] != "KEY_P"@[0] && "BTN_Z"@[0] != "KEY_A"@[0] && "BTN_Z"@[0] != "KEY_S"@[0] && "BTN_Z"@[0] != "KEY_D"@[0] && "BTN_Z"@[0] != "KEY_F"@[0] && "BTN_Z"@[0] != "KEY_G"@[0] && "BTN_Z"@[0] != "KEY_H"@[0] && "BTN_Z"@[0] != "KEY_J"@[0] && "BTN_Z"@[0] != "KEY_K"@[0] && "BTN_Z"@[0] != "KEY_L"@[0] && "BTN_Z"@[0] != "KEY_Z"@[0] && "BTN_Z"@[0] != "KEY_X"@[0] && "BTN_Z"@[0] != "KEY_C"@[0] && "BTN_Z"@[0] != "KEY_V"@[0] && "BTN_Z"@[0] != "KEY_B"@[0] && "BTN_Z"@[0] != "KEY_N"@[0] && "BTN_Z"@[0] != "KEY_M"@[0] && "BTN_Z"@[4] != "BTN_A"@[4] && "BTN_Z"@[4] != "BTN_B"@[4] && "BTN_Z"@[4] != "BTN_C"@[4] && "BTN_Z"@[4] != "BTN_X"@[4] && "BTN_Z"@[4] != "BTN_Y"@[4]);
    assert("BTN_TL"@[0] != "KEY_F1"@[0] && "BTN_TL"@[0] != "KEY_F2"@[0] && "BTN_TL"@[0] != "KEY_F3"@[0] && "BTN_TL"@[0] != "KEY_F4"@[0] && "BTN_TL"@[0] != "KEY_F5"@[0] && "BTN_TL"@[0] != "KEY_F6"@[0] && "BTN_TL"@[0] != "KEY_F7"@[0] && "BTN_TL"@[0] != "KEY_F8"@[0] && "BTN_TL"@[0] != "KEY_F9"@[0] && "BTN_TL"@[0] != "KEY_UP"@[0]);
}

/// Names of the key table read to their codes (part 7).
pub proof fn law_key_names_read_to_codes_7()
    ensures
        key_code_of_name("BTN_TR"@) == Some(311u16),
        key_code_of_name("BTN_TL2"@) == Some(312u16),
        key_code_of_name("BTN_TR2"@) == Some(313u16),
        key_code_of_name("BTN_SELECT"@) == Some(314u16),
        key_code_of_name("BTN_START"@) == Some(315u16),
        key_code_of_name("BTN_MODE"@) == Some(316u16),
        key_code_of_name("BTN_THUMBL"@) == Some(317u16),
        key_code_of_name("BTN_THUMBR"@) == Some(318u16),
{
    reveal_strlit("BTN_A");
    reveal_strlit("BTN_B");
    reveal_strlit("BTN_C");
    reveal_strlit("BTN_EAST");
    reveal_strlit("BTN_MODE");
    reveal_strlit("BTN_NORTH");
    reveal_strlit("BTN_SELECT");
    reveal_strlit("BTN_SOUTH");
    reveal_strlit("BTN_START");
    reveal_strlit("BTN_THUMBL");
    reveal_strlit("BTN_THUMBR");
    reveal_strlit("BTN_TL");
    reveal_strlit("BTN_TL2");
    reveal_strlit("BTN_TR");
    reveal_strlit("BTN_TR2");
    reveal_strlit("BTN_WEST");
    reveal_strlit("BTN_X");
    reveal_strlit("BTN_Y");
    reveal_strlit("BTN_Z");
    reveal_strlit("KEY_0");
    reveal_strlit("KEY_1");
    reveal_strlit("KEY_2");
    reveal_strlit("KEY_3");
    reveal_strlit("KEY_4");
    reveal_strlit("KEY_5");
    reveal_strlit("KEY_6");
    reveal_strlit("KEY_7");
    reveal_strlit("KEY_8");
    reveal_strlit("KEY_9");
    reveal_strlit("KEY_A");
    reveal_strlit("KEY_APOSTROPHE");
    reveal_strlit("KEY_B");
    reveal_strlit("KEY_BACKSLASH");
    reveal_strlit("KEY_BACKSPACE");
    reveal_strlit("KEY_C");
    reveal_strlit("KEY_CAPSLOCK");
    reveal_strlit("KEY_COMMA");
    reveal_strlit("KEY_D");
    reveal_strlit("KEY_DELETE");
    reveal_strlit("KEY_DOT");
    reveal_strlit("KEY_DOWN");
    reveal_strlit("KEY_E");
    reveal_strlit("KEY_END");
    reveal_strlit("KEY_ENTER");
    reveal_strlit("KEY_EQUAL");
    reveal_strlit("KEY_ESC");
    reveal_strlit("KEY_F");
    reveal_strlit("KEY_F1");
    reveal_strlit("KEY_F10");
    reveal_strlit("KEY_F11");
    reveal_strlit("KEY_F12");
    reveal_strlit("KEY_F2");
    reveal_strlit("KEY_F3");
    reveal_strlit("KEY_F4");
    reveal_strlit("KEY_F5");
    reveal_strlit("KEY_F6");
    reveal_strlit("KEY_F7");
    reveal_strlit("KEY_F8");
    reveal_strlit("KEY_F9");
    reveal_strlit("KEY_G");
    reveal_strlit("KEY_GRAVE");
    reveal_strlit("KEY_H");
    reveal_strlit("KEY_HOME");
    reveal_strlit("KEY_I");
    reveal_strlit("KEY_INSERT");
    reveal_strlit("KEY_J");
    reveal_strlit("KEY_K");
    reveal_strlit("KEY_KPASTERISK");
    reveal_strlit("KEY_L");
    reveal_strlit("KEY_LEFT");
    reveal_strlit("KEY_LEFTALT");
    reveal_strlit("KEY_LEFTBRACE");
    reveal_strlit("KEY_LEFTCTRL");
    reveal_strlit("KEY_LEFTMETA");
    reveal_strlit("KEY_LEFTSHIFT");
    reveal_strlit("KEY_M");
    reveal_strlit("KEY_MINUS");
    reveal_strlit("KEY_N");
    reveal_strlit("KEY_O");
    reveal_strlit("KEY_P");
    reveal_strlit("KEY_PAGEDOWN");
    reveal_strlit("KEY_PAGEUP");
    reveal_strlit("KEY_Q");
    reveal_strlit("KEY_R");
    reveal_strlit("KEY_RIGHT");
    reveal_strlit("KEY_RIGHTALT");
    reveal_strlit("KEY_RIGHTBRACE");
    reveal_strlit("KEY_RIGHTCTRL");
    reveal_strlit("KEY_RIGHTMETA");
    reveal_strlit("KEY_RIGHTSHIFT");
    reveal_strlit("KEY_S");
    reveal_strlit("KEY_SEMICOLON");
    reveal_strlit("KEY_SLASH");
    reveal_strlit("KEY_SPACE");
    reveal_strlit("KEY_T");
    reveal_strlit("KEY_TAB");
    reveal_strlit("KEY_U");
    reveal_strlit("KEY_UP");
    reveal_strlit("KEY_V");
    reveal_strlit("KEY_W");
    reveal_strlit("KEY_X");
    reveal_strlit("KEY_Y");
    reveal_strlit("KEY_Z");
    assert("BTN_A"@.len() == 5 && "BTN_B"@.len() == 5 && "BTN_C"@.len() == 5 && "BTN_EAST"@.len() == 8 && "BTN_MODE"@.len() == 8 && "BTN_NORTH"@.len() == 9 && "BTN_SELECT"@.len() == 10 && "BTN_SOUTH"@.len() == 9 && "BTN_START"@.len() == 9 && "BTN_THUMBL"@.len() == 10 && "BTN_THUMBR"@.len() == 10 && "BTN_TL"@.len() == 6 && "BTN_TL2"@.len() == 7 && "BTN_TR"@.len() == 6 && "BTN_TR2"@.len() == 7 && "BTN_WEST"@.len() == 8 && "BTN_X"@.len() == 5 && "BTN_Y"@.len() == 5 && "BTN_Z"@.len() == 5 && "KEY_0"@.len() == 5 && "KEY_1"@.len() == 5 && "KEY_2"@.len() == 5 && "KEY_3"@.len() == 5 && "KEY_4"@.len() == 5 && "KEY_5"@.len() == 5 && "KEY_6"@.len() == 5 && "KEY_7"@.len() == 5 && "KEY_8"@.len() == 5 && "KEY_9"@.len() == 5 && "KEY_A"@.len() == 5 && "KEY_APOSTROPHE"@.len() == 14 && "KEY_B"@.len() == 5 && "KEY_BACKSLASH"@.len() == 13 && "KEY_BACKSPACE"@.len() == 13 && "KEY_C"@.len() == 5 && "KEY_CAPSLOCK"@.len() == 12 && "KEY_COMMA"@.len() == 9 && "KEY_D"@.len() == 5 && "KEY_DELETE"@.len() == 10 && "KEY_DOT"@.len() == 7 && "KEY_DOWN"@.len() == 8 && "KEY_E"@.len() == 5 && "KEY_END"@.len() == 7 && "KEY_ENTER"@.len() == 9 && "KEY_EQUAL"@.len() == 9 && "KEY_ESC"@.len() == 7 && "KEY_F"@.len() == 5 && "KEY_F1"@.len() == 6 && "KEY_F10"@.len() == 7 && "KEY_F11"@.len() == 7 && "KEY_F12"@.len() == 7 && "KEY_F2"@.len() == 6 && "KEY_F3"@.len() == 6 && "KEY_F4"@.len() == 6 && "KEY_F5"@.len() == 6 && "KEY_F6"@.len() == 6 && "KEY_F7"@.len() == 6 && "KEY_F8"@.len() == 6 && "KEY_F9"@.len() == 6 && "KEY_G"@.len() == 5 && "KEY_GRAVE"@.len() == 9 && "KEY_H"@.len() == 5 && "KEY_HOME"@.len() == 8 && "KEY_I"@.len() == 5 && "KEY_INSERT"@.len() == 10 && "KEY_J"@.len() == 5 && "KEY_K"@.len() == 5 && "KEY_KPASTERISK"@.len() == 14 && "KEY_L"@.len() == 5 && "KEY_LEFT"@.len() == 8 && "KEY_LEFTALT"@.len() == 11 && "KEY_LEFTBRACE"@.len() == 13 && "KEY_LEFTCTRL"@.len() == 12 && "KEY_LEFTMETA"@.len() == 12 && "KEY_LEFTSHIFT"@.len() == 13 && "KEY_M"@.len() == 5 && "KEY_MINUS"@.len() == 9 && "KEY_N"@.len() == 5 && "KEY_O"@.len() == 5 && "KEY_P"@.len() == 5 && "KEY_PAGEDOWN"@.len() == 12 && "KEY_PAGEUP"@.len() == 10 && "KEY_Q"@.len() == 5 && "KEY_R"@.len() == 5 && "KEY_RIGHT"@.len() == 9 && "KEY_RIGHTALT"@.len() == 12 && "KEY_RIGHTBRACE"@.len() == 14 && "KEY_RIGHTCTRL"@.len() == 13 && "KEY_RIGHTMETA"@.len() == 13 && "KEY_RIGHTSHIFT"@.len() == 14 && "KEY_S"@.len() == 5 && "KEY_SEMICOLON"@.len() == 13 && "KEY_SLASH"@.len() == 9 && "KEY_SPACE"@.len() == 9 && "KEY_T"@.len() == 5 && "KEY_TAB"@.len() == 7 && "KEY_U"@.len() == 5 && "KEY_UP"@.len() == 6 && "KEY_V"@.len() == 5 && "KEY_W"@.len() == 5 && "KEY_X"@.len() == 5 && "KEY_Y"@.len() == 5 && "KEY_Z"@.len() == 5);
    assert("BTN_TR"@[0] != "KEY_F1"@[0] && "BTN_TR"@[0] != "KEY_F2"@[0] && "BTN_TR"@[0] != "KEY_F3"@[0] && "BTN_TR"@[0] != "KEY_F4"@[0] && "BTN_TR"@[0] != "KEY_F5"@[0] && "BTN_TR"@[0] != "KEY_F6"@[0] && "BTN_TR"@[0] != "KEY_F7"@[0] && "BTN_TR"@[0] != "KEY_F8"@[0] && "BTN_TR"@[0] != "KEY_F9"@[0] && "BTN_TR"@[0] != "KEY_UP"@[0] && "BTN_TR"@[5] != "BTN_TL"@[5]);
    assert("BTN_TL2"@[0] != "KEY_ESC"@[0] && "BTN_TL2"@[0] != "KEY_TAB"@[0] && "BTN_TL2"@[0] != "KEY_DOT"@[0] && "BTN_TL2"@[0] != "KEY_F10"@[0] && "BTN_TL2"@[0] != "KEY_F11"@[0] && "BTN_TL2"@[0] != "KEY_F12"@[0] && "BTN_TL2"@[0] != "KEY_END"@[0]);
    assert("BTN_TR2"@[0] != "KEY_ESC"@[0] && "BTN_TR2"@[0] != "KEY_TAB"@[0] && "BTN_TR2"@[0] != "KEY_DOT"@[0] && "BTN_TR2"@[0] != "KEY_F10"@[0] && "BTN_TR2"@[0] != "KEY_F11"@[0] && "BTN_TR2"@[0] != "KEY_F12"@[0] && "BTN_TR2"@[0] != "KEY_END"@[0] && "BTN_TR2"@[5] != "BTN_TL2"@[5]);
    assert("BTN_SELECT"@[0] != "KEY_PAGEUP"@[0] && "BTN_SELECT"@[0] != "KEY_INSERT"@[0] && "BTN_SELECT"@[0] != "KEY_DELETE"@[0]);
    assert("BTN_START"@[0] != "KEY_MINUS"@[0] && "BTN_START"@[0] != "KEY_EQUAL"@[0] && "BTN_START"@[0] != "KEY_ENTER"@[0] && "BTN_START"@[0] != "KEY_GRAVE"@[0] && "BTN_START"@[0] != "KEY_COMMA"@[0] && "BTN_START"@[0] != "KEY_SLASH"@[0] && "BTN_START"@[0] != "KEY_SPACE"@[0] && "BTN_START"@[0] != "KEY_RIGHT"@[0] && "BTN_START"@[5] != "BTN_SOUTH"@[5] && "BTN_START"@[4] != "BTN_NORTH"@[4]);
    assert("BTN_MODE"@[0] != "KEY_HOME"@[0] && "BTN_MODE"@[0] != "KEY_LEFT"@[0] && "BTN_MODE"@[0] != "KEY_DOWN"@[0] && "BTN_MODE"@[4] != "BTN_EAST"@[4] && "BTN_MODE"@[4] != "BTN_WEST"@[4]);
    assert("BTN_THUMBL"@[0] != "KEY_PAGEUP"@[0] && "BTN_THUMBL"@[0] != "KEY_INSERT"@[0] && "BTN_THUMBL"@[0] != "KEY_DELETE"@[0] && "BTN_THUMBL"@[4] != "BTN_SELECT"@[4]);
    assert("BTN_THUMBR"@[0] != "KEY_PAGEUP"@[0] && "BTN_THUMBR"@[0] != "KEY_INSERT"@[0] && "BTN_THUMBR"@[0] != "KEY_DELETE"@[0] && "BTN_THUMBR"@[4] != "BTN_SELECT"@[4] && "BTN_THUMBR"@[9] != "BTN_THUMBL"@[9]);
}

/// A key name read as a code names that code again, unless it is one of the
/// alternative button names (`BTN_A`, `BTN_B`, `BTN_X`, `BTN_Y`, shown by
/// their direction names) or names a code that is shown by number.
pub proof fn law_key_code_of_name_shows_name(s: Seq<char>)
    requires
        key_code_of_name(s) is Some,
        key_code_is_named(key_code_of_name(s)->0),
        s != "BTN_A"@,
        s != "BTN_B"@,
        s != "BTN_X"@,
        s != "BTN_Y"@,
    ensures
        key_name_of_code(key_code_of_name(s)->0) == s,
{
}

/// An absolute-axis name read as a code names that code again.
pub proof fn law_abs_code_of_name_shows_name(s: Seq<char>)
    requires
        abs_code_of_name(s) is Some,
    ensures
        abs_name_of_code(abs_code_of_name(s)->0) == s,
{
}

/// A relative-axis name read as a code names that code again.
pub proof fn law_rel_code_of_name_shows_name(s: Seq<char>)
    requires
        rel_code_of_name(s) is Some,
    ensures
        rel_name_of_code(rel_code_of_name(s)->0) == s,
{
}

/// The key table's names that no code is shown by (the gamepad aliases and
/// the buttons shown by number) read to their codes.
pub proof fn law_key_names_read_to_codes_8()
    ensures
        key_code_of_name("BTN_A"@) == Some(304u16),
        key_code_of_name("BTN_B"@) == Some(305u16),
        key_code_of_name("BTN_X"@) == Some(307u16),
        key_code_of_name("BTN_Y"@) == Some(308u16),
        key_code_of_name("BTN_DPAD_UP"@) == Some(544u16),
        key_code_of_name("BTN_DPAD_DOWN"@) == Some(545u16),
        key_code_of_name("BTN_DPAD_LEFT"@) == Some(546u16),
        key_code_of_name("BTN_DPAD_RIGHT"@) == Some(547u16),
        key_code_of_name("BTN_FORWARD"@) == Some(277u16),
        key_code_of_name("BTN_BACK"@) == Some(278u16),
{
    reveal_strlit("BTN_A");
    reveal_strlit("BTN_B");
    reveal_strlit("BTN_BACK");
    reveal_strlit("BTN_C");
    reveal_strlit("BTN_DPAD_DOWN");
    reveal_strlit("BTN_DPAD_LEFT");
    reveal_strlit("BTN_DPAD_RIGHT");
    reveal_strlit("BTN_DPAD_UP");
    reveal_strlit("BTN_EAST");
    reveal_strlit("BTN_EXTRA");
    reveal_strlit("BTN_FORWARD");
    reveal_strlit("BTN_LEFT");
    reveal_strlit("BTN_MIDDLE");
    reveal_strlit("BTN_MODE");
    reveal_strlit("BTN_NORTH");
    reveal_strlit("BTN_RIGHT");
    reveal_strlit("BTN_SELECT");
    reveal_strlit("BTN_SIDE");
    reveal_strlit("BTN_SOUTH");
    reveal_strlit("BTN_START");
    reveal_strlit("BTN_THUMBL");
    reveal_strlit("BTN_THUMBR");
    reveal_strlit("BTN_TL");
    reveal_strlit("BTN_TL2");
    reveal_strlit("BTN_TR");
    reveal_strlit("BTN_TR2");
    reveal_strlit("BTN_WEST");
    reveal_strlit("BTN_X");
    reveal_strlit("BTN_Y");
    reveal_strlit("BTN_Z");
    reveal_strlit("KEY_0");
    reveal_strlit("KEY_1");
    reveal_strlit("KEY_2");
    reveal_strlit("KEY_3");
    reveal_strlit("KEY_4");
    reveal_strlit("KEY_5");
    reveal_strlit("KEY_6");
    reveal_strlit("KEY_7");
    reveal_strlit("KEY_8");
    reveal_strlit("KEY_9");
    reveal_strlit("KEY_A");
    reveal_strlit("KEY_APOSTROPHE");
    reveal_strlit("KEY_B");
    reveal_strlit("KEY_BACKSLASH");
    reveal_strlit("KEY_BACKSPACE");
    reveal_strlit("KEY_C");
    reveal_strlit("KEY_CAPSLOCK");
    reveal_strlit("KEY_COMMA");
    reveal_strlit("KEY_D");
    reveal_strlit("KEY_DELETE");
    reveal_strlit("KEY_DOT");
    reveal_strlit("KEY_DOWN");
    reveal_strlit("KEY_E");
    reveal_strlit("KEY_END");
    reveal_strlit("KEY_ENTER");
    reveal_strlit("KEY_EQUAL");
    reveal_strlit("KEY_ESC");
    reveal_strlit("KEY_F");
    reveal_strlit("KEY_F1");
    reveal_strlit("KEY_F10");
    reveal_strlit("KEY_F11");
    reveal_strlit("KEY_F12");
    reveal_strlit("KEY_F2");
    reveal_strlit("KEY_F3");
    reveal_strlit("KEY_F4");
    reveal_strlit("KEY_F5");
    reveal_strlit("KEY_F6");
    reveal_strlit("KEY_F7");
    reveal_strlit("KEY_F8");
    reveal_strlit("KEY_F9");
    reveal_strlit("KEY_G");
    reveal_strlit("KEY_GRAVE");
    reveal_strlit("KEY_H");
    reveal_strlit("KEY_HOME");
    reveal_strlit("KEY_I");
    reveal_strlit("KEY_INSERT");
    reveal_strlit("KEY_J");
    reveal_strlit("KEY_K");
    reveal_strlit("KEY_KPASTERISK");
    reveal_strlit("KEY_L");
    reveal_strlit("KEY_LEFT");
    reveal_strlit("KEY_LEFTALT");
    reveal_strlit("KEY_LEFTBRACE");
    reveal_strlit("KEY_LEFTCTRL");
    reveal_strlit("KEY_LEFTMETA");
    reveal_strlit("KEY_LEFTSHIFT");
    reveal_strlit("KEY_M");
    reveal_strlit("KEY_MINUS");
    reveal_strlit("KEY_N");
    reveal_strlit("KEY_O");
    reveal_strlit("KEY_P");
    reveal_strlit("KEY_PAGEDOWN");
    reveal_strlit("KEY_PAGEUP");
    reveal_strlit("KEY_Q");
    reveal_strlit("KEY_R");
    reveal_strlit("KEY_RIGHT");
    reveal_strlit("KEY_RIGHTALT");
    reveal_strlit("KEY_RIGHTBRACE");
    reveal_strlit("KEY_RIGHTCTRL");
    reveal_strlit("KEY_RIGHTMETA");
    reveal_strlit("KEY_RIGHTSHIFT");
    reveal_strlit("KEY_S");
    reveal_strlit("KEY_SEMICOLON");
    reveal_strlit("KEY_SLASH");
    reveal_strlit("KEY_SPACE");
    reveal_strlit("KEY_T");
    reveal_strlit("KEY_TAB");
    reveal_strlit("KEY_U");
    reveal_strlit("KEY_UP");
    reveal_strlit("KEY_V");
    reveal_strlit("KEY_W");
    reveal_strlit("KEY_X");
    reveal_strlit("KEY_Y");
    reveal_strlit("KEY_Z");
    assert("BTN_A"@.len() == 5 && "BTN_B"@.len() == 5 && "BTN_BACK"@.len() == 8 && "BTN_C"@.len() == 5 && "BTN_DPAD_DOWN"@.len() == 13 && "BTN_DPAD_LEFT"@.len() == 13 && "BTN_DPAD_RIGHT"@.len() == 14 && "BTN_DPAD_UP"@.len() == 11 && "BTN_EAST"@.len() == 8 && "BTN_EXTRA"@.len() == 9 && "BTN_FORWARD"@.len() == 11 && "BTN_LEFT"@.len() == 8 && "BTN_MIDDLE"@.len() == 10 && "BTN_MODE"@.len() == 8 && "BTN_NORTH"@.len() == 9 && "BTN_RIGHT"@.len() == 9 && "BTN_SELECT"@.len() == 10 && "BTN_SIDE"@.len() == 8 && "BTN_SOUTH"@.len() == 9 && "BTN_START"@.len() == 9 && "BTN_THUMBL"@.len() == 10 && "BTN_THUMBR"@.len() == 10 && "BTN_TL"@.len() == 6 && "BTN_TL2"@.len() == 7 && "BTN_TR"@.len() == 6 && "BTN_TR2"@.len() == 7 && "BTN_WEST"@.len() == 8 && "BTN_X"@.len() == 5 && "BTN_Y"@.len() == 5 && "BTN_Z"@.len() == 5 && "KEY_0"@.len() == 5 && "KEY_1"@.len() == 5 && "KEY_2"@.len() == 5 && "KEY_3"@.len() == 5 && "KEY_4"@.len() == 5 && "KEY_5"@.len() == 5 && "KEY_6"@.len() == 5 && "KEY_7"@.len() == 5 && "KEY_8"@.len() == 5 && "KEY_9"@.len() == 5 && "KEY_A"@.len() == 5 && "KEY_APOSTROPHE"@.len() == 14 && "KEY_B"@.len() == 5 && "KEY_BACKSLASH"@.len() == 13 && "KEY_BACKSPACE"@.len() == 13 && "KEY_C"@.len() == 5 && "KEY_CAPSLOCK"@.len() == 12 && "KEY_COMMA"@.len() == 9 && "KEY_D"@.len() == 5 && "KEY_DELETE"@.len() == 10 && "KEY_DOT"@.len() == 7 && "KEY_DOWN"@.len() == 8 && "KEY_E"@.len() == 5 && "KEY_END"@.len() == 7 && "KEY_ENTER"@.len() == 9 && "KEY_EQUAL"@.len() == 9 && "KEY_ESC"@.len() == 7 && "KEY_F"@.len() == 5 && "KEY_F1"@.len() == 6 && "KEY_F10"@.len() == 7 && "KEY_F11"@.len() == 7 && "KEY_F12"@.len() == 7 && "KEY_F2"@.len() == 6 && "KEY_F3"@.len() == 6 && "KEY_F4"@.len() == 6 && "KEY_F5"@.len() == 6 && "KEY_F6"@.len() == 6 && "KEY_F7"@.len() == 6 && "KEY_F8"@.len() == 6 && "KEY_F9"@.len() == 6 && "KEY_G"@.len() == 5 && "KEY_GRAVE"@.len() == 9 && "KEY_H"@.len() == 5 && "KEY_HOME"@.len() == 8 && "KEY_I"@.len() == 5 && "KEY_INSERT"@.len() == 10 && "KEY_J"@.len() == 5 && "KEY_K"@.len() == 5 && "KEY_KPASTERISK"@.len() == 14 && "KEY_L"@.len() == 5 && "KEY_LEFT"@.len() == 8 && "KEY_LEFTALT"@.len() == 11 && "KEY_LEFTBRACE"@.len() == 13 && "KEY_LEFTCTRL"@.len() == 12 && "KEY_LEFTMETA"@.len() == 12 && "KEY_LEFTSHIFT"@.len() == 13 && "KEY_M"@.len() == 5 && "KEY_MINUS"@.len() == 9 && "KEY_N"@.len() == 5 && "KEY_O"@.len() == 5 && "KEY_P"@.len() == 5 && "KEY_PAGEDOWN"@.len() == 12 && "KEY_PAGEUP"@.len() == 10 && "KEY_Q"@.len() == 5 && "KEY_R"@.len() == 5 && "KEY_RIGHT"@.len() == 9 && "KEY_RIGHTALT"@.len() == 12 && "KEY_RIGHTBRACE"@.len() == 14 && "KEY_RIGHTCTRL"@.len() == 13 && "KEY_RIGHTMETA"@.len() == 13 && "KEY_RIGHTSHIFT"@.len() == 14 && "KEY_S"@.len() == 5 && "KEY_SEMICOLON"@.len() == 13 && "KEY_SLASH"@.len() == 9 && "KEY_SPACE"@.len() == 9 && "KEY_T"@.len() == 5 && "KEY_TAB"@.len() == 7 && "KEY_U"@.len() == 5 && "KEY_UP"@.len() == 6 && "KEY_V"@.len() == 5 && "KEY_W"@.len() == 5 && "KEY_X"@.len() == 5 && "KEY_Y"@.len() == 5 && "KEY_Z"@.len() == 5);
    assert("BTN_A"@[0] != "KEY_1"@[0] && "BTN_A"@[0] != "KEY_2"@[0] && "BTN_A"@[0] != "KEY_3"@[0] && "BTN_A"@[0] != "KEY_4"@[0] && "BTN_A"@[0] != "KEY_5"@[0] && "BTN_A"@[0] != "KEY_6"@[0] && "BTN_A"@[0] != "KEY_7"@[0] && "BTN_A"@[0] != "KEY_8"@[0] && "BTN_A"@[0] != "KEY_9"@[0] && "BTN_A"@[0] != "KEY_0"@[0] && "BTN_A"@[0] != "KEY_Q"@[0] && "BTN_A"@[0] != "KEY_W"@[0] && "BTN_A"@[0] != "KEY_E"@[0] && "BTN_A"@[0] != "KEY_R"@[0] && "BTN_A"@[0] != "KEY_T"@[0] && "BTN_A"@[0] != "KEY_Y"@[0] && "BTN_A"@[0] != "KEY_U"@[0] && "BTN_A"@[0] != "KEY_I"@[0] && "BTN_A"@[0] != "KEY_O"@[0] && "BTN_A"@[0] != "KEY_P"@[0] && "BTN_A"@[0] != "KEY_A"@[0] && "BTN_A"@[0] != "KEY_S"@[0] && "BTN_A"@[0] != "KEY_D"@[0] && "BTN_A"@[0] != "KEY_F"@[0] && "BTN_A"@[0] != "KEY_G"@[0] && "BTN_A"@[0] != "KEY_H"@[0] && "BTN_A"@[0] != "KEY_J"@[0] && "BTN_A"@[0] != "KEY_K"@[0] && "BTN_A"@[0] != "KEY_L"@[0] && "BTN_A"@[0] != "KEY_Z"@[0] && "BTN_A"@[0] != "KEY_X"@[0] && "BTN_A"@[0] != "KEY_C"@[0] && "BTN_A"@[0] != "KEY_V"@[0] && "BTN_A"@[0] != "KEY_B"@[0] && "BTN_A"@[0] != "KEY_N"@[0] && "BTN_A"@[0] != "KEY_M"@[0]);
    assert("BTN_B"@[0] != "KEY_1"@[0] && "BTN_B"@[0] != "KEY_2"@[0] && "BTN_B"@[0] != "KEY_3"@[0] && "BTN_B"@[0] != "KEY_4"@[0] && "BTN_B"@[0] != "KEY_5"@[0] && "BTN_B"@[0] != "KEY_6"@[0] && "BTN_B"@[0] != "KEY_7"@[0] && "BTN_B"@[0] != "KEY_8"@[0] && "BTN_B"@[0] != "KEY_9"@[0] && "BTN_B"@[0] != "KEY_0"@[0] && "BTN_B"@[0] != "KEY_Q"@[0] && "BTN_B"@[0] != "KEY_W"@[0] && "BTN_B"@[0] != "KEY_E"@[0] && "BTN_B"@[0] != "KEY_R"@[0] && "BTN_B"@[0] != "KEY_T"@[0] && "BTN_B"@[0] != "KEY_Y"@[0] && "BTN_B"@[0] != "KEY_U"@[0] && "BTN_B"@[0] != "KEY_I"@[0] && "BTN_B"@[0] != "KEY_O"@[0] && "BTN_B"@[0] != "KEY_P"@[0] && "BTN_B"@[0] != "KEY_A"@[0] && "BTN_B"@[0] != "KEY_S"@[0] && "BTN_B"@[0] != "KEY_D"@[0] && "BTN_B"@[0] != "KEY_F"@[0] && "BTN_B"@[0] != "KEY_G"@[0] && "BTN_B"@[0] != "KEY_H"@[0] && "BTN_B"@[0] != "KEY_J"@[0] && "BTN_B"@[0] != "KEY_K"@[0] && "BTN_B"@[0] != "KEY_L"@[0] && "BTN_B"@[0] != "KEY_Z"@[0] && "BTN_B"@[0] != "KEY_X"@[0] && "BTN_B"@[0] != "KEY_C"@[0] && "BTN_B"@[0] != "KEY_V"@[0] && "BTN_B"@[0] != "KEY_B"@[0] && "BTN_B"@[0] != "KEY_N"@[0] && "BTN_B"@[0] != "KEY_M"@[0] && "BTN_B"@[4] != "BTN_A"@[4]);
    assert("BTN_X"@[0] != "KEY_1"@[0] && "BTN_X"@[0] != "KEY_2"@[0] && "BTN_X"@[0] != "KEY_3"@[0] && "BTN_X"@[0] != "KEY_4"@[0] && "BTN_X"@[0] != "KEY_5"@[0] && "BTN_X"@[0] != "KEY_6"@[0] && "BTN_X"@[0] != "KEY_7"@[0] && "BTN_X"@[0] != "KEY_8"@[0] && "BTN_X"@[0] != "KEY_9"@[0] && "BTN_X"@[0] != "KEY_0"@[0] && "BTN_X"@[0] != "KEY_Q"@[0] && "BTN_X"@[0] != "KEY_W"@[0] && "BTN_X"@[0] != "KEY_E"@[0] && "BTN_X"@[0] != "KEY_R"@[0] && "BTN_X"@[0] != "KEY_T"@[0] && "BTN_X"@[0] != "KEY_Y"@[0] && "BTN_X"@[0] != "KEY_U"@[0] && "BTN_X"@[0] != "KEY_I"@[0] && "BTN_X"@[0] != "KEY_O"@[0] && "BTN_X"@[0] != "KEY_P"@[0] && "BTN_X"@[0] != "KEY_A"@[0] && "BTN_X"@[0] != "KEY_S"@[0] && "BTN_X"@[0] != "KEY_D"@[0] && "BTN_X"@[0] != "KEY_F"@[0] && "BTN_X"@[0] != "KEY_G"@[0] && "BTN_X"@[0] != "KEY_H"@[0] && "BTN_X"@[0] != "KEY_J"@[0] && "BTN_X"@[0] != "KEY_K"@[0] && "BTN_X"@[0] != "KEY_L"@[0] && "BTN_X"@[0] != "KEY_Z"@[0] && "BTN_X"@[0] != "KEY_X"@[0] && "BTN_X"@[0] != "KEY_C"@[0] && "BTN_X"@[0] != "KEY_V"@[0] && "BTN_X"@[0] != "KEY_B"@[0] && "BTN_X"@[0] != "KEY_N"@[0] && "BTN_X"@[0] != "KEY_M"@[0] && "BTN_X"@[4] != "BTN_A"@[4] && "BTN_X"@[4] != "BTN_B"@[4] && "BTN_X"@[4] != "BTN_C"@[4]);
    assert("BTN_Y"@[0] != "KEY_1"@[0] && "BTN_Y"@[0] != "KEY_2"@[0] && "BTN_Y"@[0] != "KEY_3"@[0] && "BTN_Y"@[0] != "KEY_4"@[0] && "BTN_Y"@[0] != "KEY_5"@[0] && "BTN_Y"@[0] != "KEY_6"@[0] && "BTN_Y"@[0] != "KEY_7"@[0] && "BTN_Y"@[0] != "KEY_8"@[0] && "BTN_Y"@[0] != "KEY_9"@[0] && "BTN_Y"@[0] != "KEY_0"@[0] && "BTN_Y"@[0] != "KEY_Q"@[0] && "BTN_Y"@[0] != "KEY_W"@[0] && "BTN_Y"@[0] != "KEY_E"@[0] && "BTN_Y"@[0] != "KEY_R"@[0] && "BTN_Y"@[0] != "KEY_T"@[0] && "BTN_Y"@[0] != "KEY_Y"@[0] && "BTN_Y"@[0] != "KEY_U"@[0] && "BTN_Y"@[0] != "KEY_I"@[0] && "BTN_Y"@[0] != "KEY_O"@[0] && "BTN_Y"@[0] != "KEY_P"@[0] && "BTN_Y"@[0] != "KEY_A"@[0] && "BTN_Y"@[0] != "KEY_S"@[0] && "BTN_Y"@[0] != "KEY_D"@[0] && "BTN_Y"@[0] != "KEY_F"@[0] && "BTN_Y"@[0] != "KEY_G"@[0] && "BTN_Y"@[0] != "KEY_H"@[0] && "BTN_Y"@[0] != "KEY_J"@[0] && "BTN_Y"@[0] != "KEY_K"@[0] && "BTN_Y"@[0] != "KEY_L"@[0] && "BTN_Y"@[0] != "KEY_Z"@[0] && "BTN_Y"@[0] != "KEY_X"@[0] && "BTN_Y"@[0] != "KEY_C"@[0] && "BTN_Y"@[0] != "KEY_V"@[0] && "BTN_Y"@[0] != "KEY_B"@[0] && "BTN_Y"@[0] != "KEY_N"@[0] && "BTN_Y"@[0] != "KEY_M"@[0] && "BTN_Y"@[4] != "BTN_A"@[4] && "BTN_Y"@[4] != "BTN_B"@[4] && "BTN_Y"@[4] != "BTN_C"@[4] && "BTN_Y"@[4] != "BTN_X"@[4]);
    assert("BTN_DPAD_UP"@[0] != "KEY_LEFTALT"@[0]);
    assert("BTN_DPAD_DOWN"@[0] != "KEY_BACKSPACE"@[0] && "BTN_DPAD_DOWN"@[0] != "KEY_LEFTBRACE"@[0] && "BTN_DPAD_DOWN"@[0] != "KEY_SEMICOLON"@[0] && "BTN_DPAD_DOWN"@[0] != "KEY_LEFTSHIFT"@[0] && "BTN_DPAD_DOWN"@[0] != "KEY_BACKSLASH"@[0] && "BTN_DPAD_DOWN"@[0] != "KEY_RIGHTCTRL"@[0] && "BTN_DPAD_DOWN"@[0] != "KEY_RIGHTMETA"@[0]);
    assert("BTN_DPAD_LEFT"@[0] != "KEY_BACKSPACE"@[0] && "BTN_DPAD_LEFT"@[0] != "KEY_LEFTBRACE"@[0] && "BTN_DPAD_LEFT"@[0] != "KEY_SEMICOLON"@[0] && "BTN_DPAD_LEFT"@[0] != "KEY_LEFTSHIFT"@[0] && "BTN_DPAD_LEFT"@[0] != "KEY_BACKSLASH"@[0] && "BTN_DPAD_LEFT"@[0] != "KEY_RIGHTCTRL"@[0] && "BTN_DPAD_LEFT"@[0] != "KEY_RIGHTMETA"@[0] && "BTN_DPAD_LEFT"@[9] != "BTN_DPAD_DOWN"@[9]);
    assert("BTN_DPAD_RIGHT"@[0] != "KEY_RIGHTBRACE"@[0] && "BTN_DPAD_RIGHT"@[0] != "KEY_APOSTROPHE"@[0] && "BTN_DPAD_RIGHT"@[0] != "KEY_RIGHTSHIFT"@[0] && "BTN_DPAD_RIGHT"@[0] != "KEY_KPASTERISK"@[0]);
    assert("BTN_FORWARD"@[0] != "KEY_LEFTALT"@[0] && "BTN_FORWARD"@[4] != "BTN_DPAD_UP"@[4]);
    assert("BTN_BACK"@[0] != "KEY_HOME"@[0] && "BTN_BACK"@[0] != "KEY_LEFT"@[0] && "BTN_BACK"@[0] != "KEY_DOWN"@[0] && "BTN_BACK"@[4] != "BTN_EAST"@[4] && "BTN_BACK"@[4] != "BTN_WEST"@[4] && "BTN_BACK"@[4] != "BTN_MODE"@[4] && "BTN_BACK"@[4] != "BTN_LEFT"@[4] && "BTN_BACK"@[4] != "BTN_SIDE"@[4]);
}

/// Each absolute-axis name of the table reads to its own code.
pub proof fn law_abs_names_read_to_codes()
    ensures
        abs_code_of_name("ABS_X"@) == Some(0u16),
        abs_code_of_name("ABS_Y"@) == Some(1u16),
        abs_code_of_name("ABS_Z"@) == Some(2u16),
        abs_code_of_name("ABS_RX"@) == Some(3u16),
        abs_code_of_name("ABS_RY"@) == Some(4u16),
        abs_code_of_name("ABS_RZ"@) == Some(5u16),
        abs_code_of_name("ABS_THROTTLE"@) == Some(6u16),
        abs_code_of_name("ABS_RUDDER"@) == Some(7u16),
        abs_code_of_name("ABS_WHEEL"@) == Some(8u16),
        abs_code_of_name("ABS_GAS"@) == Some(9u16),
        abs_code_of_name("ABS_BRAKE"@) == Some(10u16),
        abs_code_of_name("ABS_HAT0X"@) == Some(16u16),
        abs_code_of_name("ABS_HAT0Y"@) == Some(17u16),
        abs_code_of_name("ABS_HAT1X"@) == Some(18u16),
        abs_code_of_name("ABS_HAT1Y"@) == Some(19u16),
        abs_code_of_name("ABS_HAT2X"@) == Some(20u16),
        abs_code_of_name("ABS_HAT2Y"@) == Some(21u16),
        abs_code_of_name("ABS_HAT3X"@) == Some(22u16),
        abs_code_of_name("ABS_HAT3Y"@) == Some(23u16),
        abs_code_of_name("ABS_PRESSURE"@) == Some(24u16),
        abs_code_of_name("ABS_DISTANCE"@) == Some(25u16),
        abs_code_of_name("ABS_TILT_X"@) == Some(26u16),
        abs_code_of_name("ABS_TILT_Y"@) == Some(27u16),
        abs_code_of_name("ABS_MISC"@) == Some(40u16),
{
    reveal_strlit("ABS_BRAKE");
    reveal_strlit("ABS_DISTANCE");
    reveal_strlit("ABS_GAS");
    reveal_strlit("ABS_HAT0X");
    reveal_strlit("ABS_HAT0Y");
    reveal_strlit("ABS_HAT1X");
    reveal_strlit("ABS_HAT1Y");
    reveal_strlit("ABS_HAT2X");
    reveal_strlit("ABS_HAT2Y");
    reveal_strlit("ABS_HAT3X");
    reveal_strlit("ABS_HAT3Y");
    reveal_strlit("ABS_MISC");
    reveal_strlit("ABS_PRESSURE");
    reveal_strlit("ABS_RUDDER");
    reveal_strlit("ABS_RX");
    reveal_strlit("ABS_RY");
    reveal_strlit("ABS_RZ");
    reveal_strlit("ABS_THROTTLE");
    reveal_strlit("ABS_TILT_X");
    reveal_strlit("ABS_TILT_Y");
    reveal_strlit("ABS_WHEEL");
    reveal_strlit("ABS_X");
    reveal_strlit("ABS_Y");
    reveal_strlit("ABS_Z");
    assert("ABS_BRAKE"@.len() == 9 && "ABS_DISTANCE"@.len() == 12 && "ABS_GAS"@.len() == 7 && "ABS_HAT0X"@.len() == 9 && "ABS_HAT0Y"@.len() == 9 && "ABS_HAT1X"@.len() == 9 && "ABS_HAT1Y"@.len() == 9 && "ABS_HAT2X"@.len() == 9 && "ABS_HAT2Y"@.len() == 9 && "ABS_HAT3X"@.len() == 9 && "ABS_HAT3Y"@.len() == 9 && "ABS_MISC"@.len() == 8 && "ABS_PRESSURE"@.len() == 12 && "ABS_RUDDER"@.len() == 10 && "ABS_RX"@.len() == 6 && "ABS_RY"@.len() == 6 && "ABS_RZ"@.len() == 6 && "ABS_THROTTLE"@.len() == 12 && "ABS_TILT_X"@.len() == 10 && "ABS_TILT_Y"@.len() == 10 && "ABS_WHEEL"@.len() == 9 && "ABS_X"@.len() == 5 && "ABS_Y"@.len() == 5 && "ABS_Z"@.len() == 5);
    assert("ABS_Y"@[4] != "ABS_X"@[4]);
    assert("ABS_Z"@[4] != "ABS_X"@[4] && "ABS_Z"@[4] != "ABS_Y"@[4]);
    assert("ABS_RY"@[5] != "ABS_RX"@[5]);
    assert("ABS_RZ"@[5] != "ABS_RX"@[5] && "ABS_RZ"@[5] != "ABS_RY"@[5]);
    assert("ABS_BRAKE"@[4] != "ABS_WHEEL"@[4]);
    assert("ABS_HAT0X"@[4] != "ABS_WHEEL"@[4] && "ABS_HAT0X"@[4] != "ABS_BRAKE"@[4]);
    assert("ABS_HAT0Y"@[4] != "ABS_WHEEL"@[4] && "ABS_HAT0Y"@[4] != "ABS_BRAKE"@[4] && "ABS_HAT0Y"@[8] != "ABS_HAT0X"@[8]);
    assert("ABS_HAT1X"@[4] != "ABS_WHEEL"@[4] && "ABS_HAT1X"@[4] != "ABS_BRAKE"@[4] && "ABS_HAT1X"@[7] != "ABS_HAT0X"@[7] && "ABS_HAT1X"@[7] != "ABS_HAT0Y"@[7]);
    assert("ABS_HAT1Y"@[4] != "ABS_WHEEL"@[4] && "ABS_HAT1Y"@[4] != "ABS_BRAKE"@[4] && "ABS_HAT1Y"@[7] != "ABS_HAT0X"@[7] && "ABS_HAT1Y"@[7] != "ABS_HAT0Y"@[7] && "ABS_HAT1Y"@[8] != "ABS_HAT1X"@[8]);
    assert("ABS_HAT2X"@[4] != "ABS_WHEEL"@[4] && "ABS_HAT2X"@[4] != "ABS_BRAKE"@[4] && "ABS_HAT2X"@[7] != "ABS_HAT0X"@[7] && "ABS_HAT2X"@[7] != "ABS_HAT0Y"@[7] && "ABS_HAT2X"@[7] != "ABS_HAT1X"@[7] && "ABS_HAT2X"@[7] != "ABS_HAT1Y"@[7]);
    assert("ABS_HAT2Y"@[4] != "ABS_WHEEL"@[4] && "ABS_HAT2Y"@[4] != "ABS_BRAKE"@[4] && "ABS_HAT2Y"@[7] != "ABS_HAT0X"@[7] && "ABS_HAT2Y"@[7] != "ABS_HAT0Y"@[7] && "ABS_HAT2Y"@[7] != "ABS_HAT1X"@[7] && "ABS_HAT2Y"@[7] != "ABS_HAT1Y"@[7] && "ABS_HAT2Y"@[8] != "ABS_HAT2X"@[8]);
    assert("ABS_HAT3X"@[4] != "ABS_WHEEL"@[4] && "ABS_HAT3X"@[4] != "ABS_BRAKE"@[4] && "ABS_HAT3X"@[7] != "ABS_HAT0X"@[7] && "ABS_HAT3X"@[7] != "ABS_HAT0Y"@[7] && "ABS_HAT3X"@[7] != "ABS_HAT1X"@[7] && "ABS_HAT3X"@[7] != "ABS_HAT1Y"@[7] && "ABS_HAT3X"@[7] != "ABS_HAT2X"@[7] && "ABS_HAT3X"@[7] != "ABS_HAT2Y"@[7]);
    assert("ABS_HAT3Y"@[4] != "ABS_WHEEL"@[4] && "ABS_HAT3Y"@[4] != "ABS_BRAKE"@[4] && "ABS_HAT3Y"@[7] != "ABS_HAT0X"@[7] && "ABS_HAT3Y"@[7] != "ABS_HAT0Y"@[7] && "ABS_HAT3Y"@[7] != "ABS_HAT1X"@[7] && "ABS_HAT3Y"@[7] != "ABS_HAT1Y"@[7] && "ABS_HAT3Y"@[7] != "ABS_HAT2X"@[7] && "ABS_HAT3Y"@[7] != "ABS_HAT2Y"@[7] && "ABS_HAT3Y"@[8] != "ABS_HAT3X"@[8]);
    assert("ABS_PRESSURE"@[4] != "ABS_THROTTLE"@[4]);
    assert("ABS_DISTANCE"@[4] != "ABS_THROTTLE"@[4] && "ABS_DISTANCE"@[4] != "ABS_PRESSURE"@[4]);
    assert("ABS_TILT_X"@[4] != "ABS_RUDDER"@[4]);
    assert("ABS_TILT_Y"@[4] != "ABS_RUDDER"@[4] && "ABS_TILT_Y"@[9] != "ABS_TILT_X"@[9]);
}

/// Each relative-axis name of the table reads to its own code.
pub proof fn law_rel_names_read_to_codes()
    ensures
        rel_code_of_name("REL_X"@) == Some(0u16),
        rel_code_of_name("REL_Y"@) == Some(1u16),
        rel_code_of_name("REL_Z"@) == Some(2u16),
        rel_code_of_name("REL_RX"@) == Some(3u16),
        rel_code_of_name("REL_RY"@) == Some(4u16),
        rel_code_of_name("REL_RZ"@) == Some(5u16),
        rel_code_of_name("REL_HWHEEL"@) == Some(6u16),
        rel_code_of_name("REL_DIAL"@) == Some(7u16),
        rel_code_of_name("REL_WHEEL"@) == Some(8u16),
        rel_code_of_name("REL_MISC"@) == Some(9u16),
{
    reveal_strlit("REL_DIAL");
    reveal_strlit("REL_HWHEEL");
    reveal_strlit("REL_MISC");
    reveal_strlit("REL_RX");
    reveal_strlit("REL_RY");
    reveal_strlit("REL_RZ");
    reveal_strlit("REL_WHEEL");
    reveal_strlit("REL_X");
    reveal_strlit("REL_Y");
    reveal_strlit("REL_Z");
    assert("REL_DIAL"@.len() == 8 && "REL_HWHEEL"@.len() == 10 && "REL_MISC"@.len() == 8 && "REL_RX"@.len() == 6 && "REL_RY"@.len() == 6 && "REL_RZ"@.len() == 6 && "REL_WHEEL"@.len() == 9 && "REL_X"@.len() == 5 && "REL_Y"@.len() == 5 && "REL_Z"@.len() == 5);
    assert("REL_Y"@[4] != "REL_X"@[4]);
    assert("REL_Z"@[4] != "REL_X"@[4] && "REL_Z"@[4] != "REL_Y"@[4]);
    assert("REL_RY"@[5] != "REL_RX"@[5]);
    assert("REL_RZ"@[5] != "REL_RX"@[5] && "REL_RZ"@[5] != "REL_RY"@[5]);
    assert("REL_MISC"@[4] != "REL_DIAL"@[4]);
}

/// A key code without a name of its own is shown by its number.
pub proof fn law_unnamed_key_code_shown_by_number(code: u16)
    requires
        !key_code_is_named(code),
    ensures
        key_name_of_code(code) == "KEY_"@ + dec_str(code as nat),
{
}

/// A key code with a name of its own reads back from its name.
pub proof fn law_key_name_round_trip(code: u16)
    requires
        key_code_is_named(code),
    ensures
        key_code_of_name(key_name_of_code(code)) == Some(code),
{
    law_key_names_read_to_codes_1();
    law_key_names_read_to_codes_2();
    law_key_names_read_to_codes_3();
    law_key_names_read_to_codes_4();
    law_key_names_read_to_codes_5();
    law_key_names_read_to_codes_6();
    law_key_names_read_to_codes_7();
}

/// The display name of a key or button code.
pub fn key_code_to_name(code: u16) -> (r: String)
    ensures
        r@ == key_name_of_code(code),
{
    match code {
        1 => String::from_str("KEY_ESC"),
        2 => String::from_str("KEY_1"),
        3 => String::from_str("KEY_2"),
        4 => String::from_str("KEY_3"),
        5 => String::from_str("KEY_4"),
        6 => String::from_str("KEY_5"),
        7 => String::from_str("KEY_6"),
        8 => String::from_str("KEY_7"),
        9 => String::from_str("KEY_8"),
        10 => String::from_str("KEY_9"),
        11 => String::from_str("KEY_0"),
        12 => String::from_str("KEY_MINUS"),
        13 => String::from_str("KEY_EQUAL"),
        14 => String::from_str("KEY_BACKSPACE"),
        15 => String::from_str("KEY_TAB"),
        16 => String::from_str("KEY_Q"),
        17 => String::from_str("KEY_W"),
        18 => String::from_str("KEY_E"),
        19 => String::from_str("KEY_R"),
        20 => String::from_str("KEY_T"),
        21 => String::from_str("KEY_Y"),
        22 => String::from_str("KEY_U"),
        23 => String::from_str("KEY_I"),
        24 => String::from_str("KEY_O"),
        25 => String::from_str("KEY_P"),
        26 => String::from_str("KEY_LEFTBRACE"),
        27 => String::from_str("KEY_RIGHTBRACE"),
        28 => String::from_str("KEY_ENTER"),
        29 => String::from_str("KEY_LEFTCTRL"),
        30 => String::from_str("KEY_A"),
        31 => String::from_str("KEY_S"),
        32 => String::from_str("KEY_D"),
        33 => String::from_str("KEY_F"),
        34 => String::from_str("KEY_G"),
        35 => String::from_str("KEY_H"),
        36 => String::from_str("KEY_J"),
        37 => String::from_str("KEY_K"),
        38 => String::from_str("KEY_L"),
        39 => String::from_str("KEY_SEMICOLON"),
        40 => String::from_str("KEY_APOSTROPHE"),
        41 => String::from_str("KEY_GRAVE"),
        42 => String::from_str("KEY_LEFTSHIFT"),
        43 => String::from_str("KEY_BACKSLASH"),
        44 => String::from_str("KEY_Z"),
        45 => String::from_str("KEY_X"),
        46 => String::from_str("KEY_C"),
        47 => String::from_str("KEY_V"),
        48 => String::from_str("KEY_B"),
        49 => String::from_str("KEY_N"),
        50 => String::from_str("KEY_M"),
        51 => String::from_str("KEY_COMMA"),
        52 => String::from_str("KEY_DOT"),
        53 => String::from_str("KEY_SLASH"),
        54 => String::from_str("KEY_RIGHTSHIFT"),
        55 => String::from_str("KEY_KPASTERISK"),
        56 => String::from_str("KEY_LEFTALT"),
        57 => String::from_str("KEY_SPACE"),
        58 => String::from_str("KEY_CAPSLOCK"),
        59 => String::from_str("KEY_F1"),
        60 => String::from_str("KEY_F2"),
        61 => String::from_str("KEY_F3"),
        62 => String::from_str("KEY_F4"),
        63 => String::from_str("KEY_F5"),
        64 => String::from_str("KEY_F6"),
        65 => String::from_str("KEY_F7"),
        66 => String::from_str("KEY_F8"),
        67 => String::from_str("KEY_F9"),
        68 => String::from_str("KEY_F10"),
        87 => String::from_str("KEY_F11"),
        88 => String::from_str("KEY_F12"),
        97 => String::from_str("KEY_RIGHTCTRL"),
        100 => String::from_str("KEY_RIGHTALT"),
        102 => String::from_str("KEY_HOME"),
        103 => String::from_str("KEY_UP"),
        104 => String::from_str("KEY_PAGEUP"),
        105 => String::from_str("KEY_LEFT"),
        106 => String::from_str("KEY_RIGHT"),
        107 => String::from_str("KEY_END"),
        108 => String::from_str("KEY_DOWN"),
        109 => String::from_str("KEY_PAGEDOWN"),
        110 => String::from_str("KEY_INSERT"),
        111 => String::from_str("KEY_DELETE"),
        125 => String::from_str("KEY_LEFTMETA"),
        126 => String::from_str("KEY_RIGHTMETA"),
        272 => String::from_str("BTN_LEFT"),
        273 => String::from_str("BTN_RIGHT"),
        274 => String::from_str("BTN_MIDDLE"),
        275 => String::from_str("BTN_SIDE"),
        276 => String::from_str("BTN_EXTRA"),
        304 => String::from_str("BTN_SOUTH"),
        305 => String::from_str("BTN_EAST"),
        306 => String::from_str("BTN_C"),
        307 => String::from_str("BTN_NORTH"),
        308 => String::from_str("BTN_WEST"),
        309 => String::from_str("BTN_Z"),
        310 => String::from_str("BTN_TL"),
        311 => String::from_str("BTN_TR"),
        312 => String::from_str("BTN_TL2"),
        313 => String::from_str("BTN_TR2"),
        314 => String::from_str("BTN_SELECT"),
        315 => String::from_str("BTN_START"),
        316 => String::from_str("BTN_MODE"),
        317 => String::from_str("BTN_THUMBL"),
        318 => String::from_str("BTN_THUMBR"),
        _ => {
            let mut s = String::from_str("KEY_");
            push_dec(&mut s, code as u64);
            s
        },
    }
}

/// The display name of an absolute-axis code; codes without a name read `ABS_<n>`.
pub open spec fn abs_name_of_code(code: u16) -> Seq<char> {
    if code == 0 {
        "ABS_X"@
    } else if code == 1 {
        "ABS_Y"@
    } else if code == 2 {
        "ABS_Z"@
    } else if code == 3 {
        "ABS_RX"@
    } else if code == 4 {
        "ABS_RY"@
    } else if code == 5 {
        "ABS_RZ"@
    } else if code == 6 {
        "ABS_THROTTLE"@
    } else if code == 7 {
        "ABS_RUDDER"@
    } else if code == 8 {
        "ABS_WHEEL"@
    } else if code == 9 {
        "ABS_GAS"@
    } else if code == 10 {
        "ABS_BRAKE"@
    } else if code == 16 {
        "ABS_HAT0X"@
    } else if code == 17 {
        "ABS_HAT0Y"@
    } else if code == 18 {
        "ABS_HAT1X"@
    } else if code == 19 {
        "ABS_HAT1Y"@
    } else if code == 20 {
        "ABS_HAT2X"@
    } else if code == 21 {
        "ABS_HAT2Y"@
    } else if code == 22 {
        "ABS_HAT3X"@
    } else if code == 23 {
        "ABS_HAT3Y"@
    } else if code == 24 {
        "ABS_PRESSURE"@
    } else if code == 25 {
        "ABS_DISTANCE"@
    } else if code == 26 {
        "ABS_TILT_X"@
    } else if code == 27 {
        "ABS_TILT_Y"@
    } else if code == 40 {
        "ABS_MISC"@
    } else {
        "ABS_"@ + dec_str(code as nat)
    }
}

/// Whether the absolute-axis table shows `code` by a name of its own.
pub open spec fn abs_code_is_named(code: u16) -> bool {
    code == 0 || code == 1 || code == 2 || code == 3 || code == 4 || code == 5 || code == 6 || code == 7 || code == 8 || code == 9 || code == 10 || code == 16 || code == 17 || code == 18 || code == 19 || code == 20 || code == 21 || code == 22 || code == 23 || code == 24 || code == 25 || code == 26 || code == 27 || code == 40
}

/// An absolute-axis code with a name of its own reads back from its name;
/// any other code is shown by number, and that text names no axis.
pub proof fn law_abs_name_round_trip(code: u16)
    ensures
        abs_code_is_named(code) ==> abs_code_of_name(abs_name_of_code(code)) == Some(code),
        !abs_code_is_named(code) ==> abs_code_of_name(abs_name_of_code(code)) is None,
{
    reveal_strlit("ABS_BRAKE");
    reveal_strlit("ABS_DISTANCE");
    reveal_strlit("ABS_GAS");
    reveal_strlit("ABS_HAT0X");
    reveal_strlit("ABS_HAT0Y");
    reveal_strlit("ABS_HAT1X");
    reveal_strlit("ABS_HAT1Y");
    reveal_strlit("ABS_HAT2X");
    reveal_strlit("ABS_HAT2Y");
    reveal_strlit("ABS_HAT3X");
    reveal_strlit("ABS_HAT3Y");
    reveal_strlit("ABS_MISC");
    reveal_strlit("ABS_PRESSURE");
    reveal_strlit("ABS_RUDDER");
    reveal_strlit("ABS_RX");
    reveal_strlit("ABS_RY");
    reveal_strlit("ABS_RZ");
    reveal_strlit("ABS_THROTTLE");
    reveal_strlit("ABS_TILT_X");
    reveal_strlit("ABS_TILT_Y");
    reveal_strlit("ABS_WHEEL");
    reveal_strlit("ABS_X");
    reveal_strlit("ABS_Y");
    reveal_strlit("ABS_Z");
    reveal_strlit("ABS_");
    if code == 0 {
        assert("ABS_X"@[0] == 'A' && "ABS_X"@[1] == 'B' && "ABS_X"@[2] == 'S' && "ABS_X"@[3] == '_' && "ABS_X"@[4] == 'X');
    }
    if code == 1 {
        assert("ABS_Y"@[0] == 'A' && "ABS_Y"@[1] == 'B' && "ABS_Y"@[2] == 'S' && "ABS_Y"@[3] == '_' && "ABS_Y"@[4] == 'Y');
    }
    if code == 2 {
        assert("ABS_Z"@[0] == 'A' && "ABS_Z"@[1] == 'B' && "ABS_Z"@[2] == 'S' && "ABS_Z"@[3] == '_' && "ABS_Z"@[4] == 'Z');
    }
    if code == 3 {
        assert("ABS_RX"@[0] == 'A' && "ABS_RX"@[1] == 'B' && "ABS_RX"@[2] == 'S' && "ABS_RX"@[3] == '_' && "ABS_RX"@[4] == 'R' && "ABS_RX"@[5] == 'X');
    }
    if code == 4 {
        assert("ABS_RY"@[0] == 'A' && "ABS_RY"@[1] == 'B' && "ABS_RY"@[2] == 'S' && "ABS_RY"@[3] == '_' && "ABS_RY"@[4] == 'R' && "ABS_RY"@[5] == 'Y');
    }
    if code == 5 {
        assert("ABS_RZ"@[0] == 'A' && "ABS_RZ"@[1] == 'B' && "ABS_RZ"@[2] == 'S' && "ABS_RZ"@[3] == '_' && "ABS_RZ"@[4] == 'R' && "ABS_RZ"@[5] == 'Z');
    }
    if code == 6 {
        assert("ABS_THROTTLE"@[0] == 'A' && "ABS_THROTTLE"@[1] == 'B' && "ABS_THROTTLE"@[2] == 'S' && "ABS_THROTTLE"@[3] == '_' && "ABS_THROTTLE"@[4] == 'T' && "ABS_THROTTLE"@[5] == 'H' && "ABS_THROTTLE"@[6] == 'R' && "ABS_THROTTLE"@[7] == 'O' && "ABS_THROTTLE"@[8] == 'T' && "ABS_THROTTLE"@[9] == 'T' && "ABS_THROTTLE"@[10] == 'L' && "ABS_THROTTLE"@[11] == 'E');
    }
    if code == 7 {
        assert("ABS_RUDDER"@[0] == 'A' && "ABS_RUDDER"@[1] == 'B' && "ABS_RUDDER"@[2] == 'S' && "ABS_RUDDER"@[3] == '_' && "ABS_RUDDER"@[4] == 'R' && "ABS_RUDDER"@[5] == 'U' && "ABS_RUDDER"@[6] == 'D' && "ABS_RUDDER"@[7] == 'D' && "ABS_RUDDER"@[8] == 'E' && "ABS_RUDDER"@[9] == 'R');
    }
    if code == 8 {
        assert("ABS_WHEEL"@[0] == 'A' && "ABS_WHEEL"@[1] == 'B' && "ABS_WHEEL"@[2] == 'S' && "ABS_WHEEL"@[3] == '_' && "ABS_WHEEL"@[4] == 'W' && "ABS_WHEEL"@[5] == 'H' && "ABS_WHEEL"@[6] == 'E' && "ABS_WHEEL"@[7] == 'E' && "ABS_WHEEL"@[8] == 'L');
    }
    if code == 9 {
        assert("ABS_GAS"@[0] == 'A' && "ABS_GAS"@[1] == 'B' && "ABS_GAS"@[2] == 'S' && "ABS_GAS"@[3] == '_' && "ABS_GAS"@[4] == 'G' && "ABS_GAS"@[5] == 'A' && "ABS_GAS"@[6] == 'S');
    }
    if code == 10 {
        assert("ABS_BRAKE"@[0] == 'A' && "ABS_BRAKE"@[1] == 'B' && "ABS_BRAKE"@[2] == 'S' && "ABS_BRAKE"@[3] == '_' && "ABS_BRAKE"@[4] == 'B' && "ABS_BRAKE"@[5] == 'R' && "ABS_BRAKE"@[6] == 'A' && "ABS_BRAKE"@[7] == 'K' && "ABS_BRAKE"@[8] == 'E');
    }
    if code == 16 {
        assert("ABS_HAT0X"@[0] == 'A' && "ABS_HAT0X"@[1] == 'B' && "ABS_HAT0X"@[2] == 'S' && "ABS_HAT0X"@[3] == '_' && "ABS_HAT0X"@[4] == 'H' && "ABS_HAT0X"@[5] == 'A' && "ABS_HAT0X"@[6] == 'T' && "ABS_HAT0X"@[7] == '0' && "ABS_HAT0X"@[8] == 'X');
    }
    if code == 17 {
        assert("ABS_HAT0Y"@[0] == 'A' && "ABS_HAT0Y"@[1] == 'B' && "ABS_HAT0Y"@[2] == 'S' && "ABS_HAT0Y"@[3] == '_' && "ABS_HAT0Y"@[4] == 'H' && "ABS_HAT0Y"@[5] == 'A' && "ABS_HAT0Y"@[6] == 'T' && "ABS_HAT0Y"@[7] == '0' && "ABS_HAT0Y"@[8] == 'Y');
    }
    if code == 18 {
        assert("ABS_HAT1X"@[0] == 'A' && "ABS_HAT1X"@[1] == 'B' && "ABS_HAT1X"@[2] == 'S' && "ABS_HAT1X"@[3] == '_' && "ABS_HAT1X"@[4] == 'H' && "ABS_HAT1X"@[5] == 'A' && "ABS_HAT1X"@[6] == 'T' && "ABS_HAT1X"@[7] == '1' && "ABS_HAT1X"@[8] == 'X');
    }
    if code == 19 {
        assert("ABS_HAT1Y"@[0] == 'A' && "ABS_HAT1Y"@[1] == 'B' && "ABS_HAT1Y"@[2] == 'S' && "ABS_HAT1Y"@[3] == '_' && "ABS_HAT1Y"@[4] == 'H' && "ABS_HAT1Y"@[5] == 'A' && "ABS_HAT1Y"@[6] == 'T' && "ABS_HAT1Y"@[7] == '1' && "ABS_HAT1Y"@[8] == 'Y');
    }
    if code == 20 {
        assert("ABS_HAT2X"@[0] == 'A' && "ABS_HAT2X"@[1] == 'B' && "ABS_HAT2X"@[2] == 'S' && "ABS_HAT2X"@[3] == '_' && "ABS_HAT2X"@[4] == 'H' && "ABS_HAT2X"@[5] == 'A' && "ABS_HAT2X"@[6] == 'T' && "ABS_HAT2X"@[7] == '2' && "ABS_HAT2X"@[8] == 'X');
    }
    if code == 21 {
        assert("ABS_HAT2Y"@[0] == 'A' && "ABS_HAT2Y"@[1] == 'B' && "ABS_HAT2Y"@[2] == 'S' && "ABS_HAT2Y"@[3] == '_' && "ABS_HAT2Y"@[4] == 'H' && "ABS_HAT2Y"@[5] == 'A' && "ABS_HAT2Y"@[6] == 'T' && "ABS_HAT2Y"@[7] == '2' && "ABS_HAT2Y"@[8] == 'Y');
    }
    if code == 22 {
        assert("ABS_HAT3X"@[0] == 'A' && "ABS_HAT3X"@[1] == 'B' && "ABS_HAT3X"@[2] == 'S' && "ABS_HAT3X"@[3] == '_' && "ABS_HAT3X"@[4] == 'H' && "ABS_HAT3X"@[5] == 'A' && "ABS_HAT3X"@[6] == 'T' && "ABS_HAT3X"@[7] == '3' && "ABS_HAT3X"@[8] == 'X');
    }
    if code == 23 {
        assert("ABS_HAT3Y"@[0] == 'A' && "ABS_HAT3Y"@[1] == 'B' && "ABS_HAT3Y"@[2] == 'S' && "ABS_HAT3Y"@[3] == '_' && "ABS_HAT3Y"@[4] == 'H' && "ABS_HAT3Y"@[5] == 'A' && "ABS_HAT3Y"@[6] == 'T' && "ABS_HAT3Y"@[7] == '3' && "ABS_HAT3Y"@[8] == 'Y');
    }
    if code == 24 {
        assert("ABS_PRESSURE"@[0] == 'A' && "ABS_PRESSURE"@[1] == 'B' && "ABS_PRESSURE"@[2] == 'S' && "ABS_PRESSURE"@[3] == '_' && "ABS_PRESSURE"@[4] == 'P' && "ABS_PRESSURE"@[5] == 'R' && "ABS_PRESSURE"@[6] == 'E' && "ABS_PRESSURE"@[7] == 'S' && "ABS_PRESSURE"@[8] == 'S' && "ABS_PRESSURE"@[9] == 'U' && "ABS_PRESSURE"@[10] == 'R' && "ABS_PRESSURE"@[11] == 'E');
    }
    if code == 25 {
        assert("ABS_DISTANCE"@[0] == 'A' && "ABS_DISTANCE"@[1] == 'B' && "ABS_DISTANCE"@[2] == 'S' && "ABS_DISTANCE"@[3] == '_' && "ABS_DISTANCE"@[4] == 'D' && "ABS_DISTANCE"@[5] == 'I' && "ABS_DISTANCE"@[6] == 'S' && "ABS_DISTANCE"@[7] == 'T' && "ABS_DISTANCE"@[8] == 'A' && "ABS_DISTANCE"@[9] == 'N' && "ABS_DISTANCE"@[10] == 'C' && "ABS_DISTANCE"@[11] == 'E');
    }
    if code == 26 {
        assert("ABS_TILT_X"@[0] == 'A' && "ABS_TILT_X"@[1] == 'B' && "ABS_TILT_X"@[2] == 'S' && "ABS_TILT_X"@[3] == '_' && "ABS_TILT_X"@[4] == 'T' && "ABS_TILT_X"@[5] == 'I' && "ABS_TILT_X"@[6] == 'L' && "ABS_TILT_X"@[7] == 'T' && "ABS_TILT_X"@[8] == '_' && "ABS_TILT_X"@[9] == 'X');
    }
    if code == 27 {
        assert("ABS_TILT_Y"@[0] == 'A' && "ABS_TILT_Y"@[1] == 'B' && "ABS_TILT_Y"@[2] == 'S' && "ABS_TILT_Y"@[3] == '_' && "ABS_TILT_Y"@[4] == 'T' && "ABS_TILT_Y"@[5] == 'I' && "ABS_TILT_Y"@[6] == 'L' && "ABS_TILT_Y"@[7] == 'T' && "ABS_TILT_Y"@[8] == '_' && "ABS_TILT_Y"@[9] == 'Y');
    }
    if code == 40 {
        assert("ABS_MISC"@[0] == 'A' && "ABS_MISC"@[1] == 'B' && "ABS_MISC"@[2] == 'S' && "ABS_MISC"@[3] == '_' && "ABS_MISC"@[4] == 'M' && "ABS_MISC"@[5] == 'I' && "ABS_MISC"@[6] == 'S' && "ABS_MISC"@[7] == 'C');
    }
    if !abs_code_is_named(code) {
        let name = abs_name_of_code(code);
        lemma_dec_str_digits(code as nat);
        assert(name[4] == dec_str(code as nat)[0]);
        assert(is_digit(name[4]));
    }
}

/// The display name of an absolute-axis code.
pub fn abs_code_to_name(code: u16) -> (r: String)
    ensures
        r@ == abs_name_of_code(code),
{
    match code {
        0 => String::from_str("ABS_X"),
        1 => String::from_str("ABS_Y"),
        2 => String::from_str("ABS_Z"),
        3 => String::from_str("ABS_RX"),
        4 => String::from_str("ABS_RY"),
        5 => String::from_str("ABS_RZ"),
        6 => String::from_str("ABS_THROTTLE"),
        7 => String::from_str("ABS_RUDDER"),
        8 => String::from_str("ABS_WHEEL"),
        9 => String::from_str("ABS_GAS"),
        10 => String::from_str("ABS_BRAKE"),
        16 => String::from_str("ABS_HAT0X"),
        17 => String::from_str("ABS_HAT0Y"),
        18 => String::from_str("ABS_HAT1X"),
        19 => String::from_str("ABS_HAT1Y"),
        20 => String::from_str("ABS_HAT2X"),
        21 => String::from_str("ABS_HAT2Y"),
        22 => String::from_str("ABS_HAT3X"),
        23 => String::from_str("ABS_HAT3Y"),
        24 => String::from_str("ABS_PRESSURE"),
        25 => String::from_str("ABS_DISTANCE"),
        26 => String::from_str("ABS_TILT_X"),
        27 => String::from_str("ABS_TILT_Y"),
        40 => String::from_str("ABS_MISC"),
        _ => {
            let mut s = String::from_str("ABS_");
            push_dec(&mut s, code as u64);
            s
        },
    }
}

/// The display name of a relative-axis code; codes without a name read `REL_<n>`.
pub open spec fn rel_name_of_code(code: u16) -> Seq<char> {
    if code == 0 {
        "REL_X"@
    } else if code == 1 {
        "REL_Y"@
    } else if code == 2 {
        "REL_Z"@
    } else if code == 3 {
        "REL_RX"@
    } else if code == 4 {
        "REL_RY"@
    } else if code == 5 {
        "REL_RZ"@
    } else if code == 6 {
        "REL_HWHEEL"@
    } else if code == 7 {
        "REL_DIAL"@
    } else if code == 8 {
        "REL_WHEEL"@
    } else if code == 9 {
        "REL_MISC"@
    } else {
        "REL_"@ + dec_str(code as nat)
    }
}

/// A relative-axis code with a name of its own reads back from its name; any
/// other code is shown by number, and that text names no axis.
pub proof fn law_rel_name_round_trip(code: u16)
    ensures
        code <= 9 ==> rel_code_of_name(rel_name_of_code(code)) == Some(code),
        code > 9 ==> rel_code_of_name(rel_name_of_code(code)) is None,
{
    reveal_strlit("REL_X");
    reveal_strlit("REL_Y");
    reveal_strlit("REL_Z");
    reveal_strlit("REL_RX");
    reveal_strlit("REL_RY");
    reveal_strlit("REL_RZ");
    reveal_strlit("REL_HWHEEL");
    reveal_strlit("REL_DIAL");
    reveal_strlit("REL_WHEEL");
    reveal_strlit("REL_MISC");
    reveal_strlit("REL_");
    if code == 0 {
        assert("REL_X"@[0] == 'R' && "REL_X"@[1] == 'E' && "REL_X"@[2] == 'L' && "REL_X"@[3] == '_' && "REL_X"@[4] == 'X');
    }
    if code == 1 {
        assert("REL_Y"@[0] == 'R' && "REL_Y"@[1] == 'E' && "REL_Y"@[2] == 'L' && "REL_Y"@[3] == '_' && "REL_Y"@[4] == 'Y');
    }
    if code == 2 {
        assert("REL_Z"@[0] == 'R' && "REL_Z"@[1] == 'E' && "REL_Z"@[2] == 'L' && "REL_Z"@[3] == '_' && "REL_Z"@[4] == 'Z');
    }
    if code == 3 {
        assert("REL_RX"@[0] == 'R' && "REL_RX"@[1] == 'E' && "REL_RX"@[2] == 'L' && "REL_RX"@[3] == '_' && "REL_RX"@[4] == 'R' && "REL_RX"@[5] == 'X');
    }
    if code == 4 {
        assert("REL_RY"@[0] == 'R' && "REL_RY"@[1] == 'E' && "REL_RY"@[2] == 'L' && "REL_RY"@[3] == '_' && "REL_RY"@[4] == 'R' && "REL_RY"@[5] == 'Y');
    }
    if code == 5 {
        assert("REL_RZ"@[0] == 'R' && "REL_RZ"@[1] == 'E' && "REL_RZ"@[2] == 'L' && "REL_RZ"@[3] == '_' && "REL_RZ"@[4] == 'R' && "REL_RZ"@[5] == 'Z');
    }
    if code == 6 {
        assert("REL_HWHEEL"@[0] == 'R' && "REL_HWHEEL"@[1] == 'E' && "REL_HWHEEL"@[2] == 'L' && "REL_HWHEEL"@[3] == '_' && "REL_HWHEEL"@[4] == 'H' && "REL_HWHEEL"@[5] == 'W' && "REL_HWHEEL"@[6] == 'H' && "REL_HWHEEL"@[7] == 'E' && "REL_HWHEEL"@[8] == 'E' && "REL_HWHEEL"@[9] == 'L');
    }
    if code == 7 {
        assert("REL_DIAL"@[0] == 'R' && "REL_DIAL"@[1] == 'E' && "REL_DIAL"@[2] == 'L' && "REL_DIAL"@[3] == '_' && "REL_DIAL"@[4] == 'D' && "REL_DIAL"@[5] == 'I' && "REL_DIAL"@[6] == 'A' && "REL_DIAL"@[7] == 'L');
    }
    if code == 8 {
        assert("REL_WHEEL"@[0] == 'R' && "REL_WHEEL"@[1] == 'E' && "REL_WHEEL"@[2] == 'L' && "REL_WHEEL"@[3] == '_' && "REL_WHEEL"@[4] == 'W' && "REL_WHEEL"@[5] == 'H' && "REL_WHEEL"@[6] == 'E' && "REL_WHEEL"@[7] == 'E' && "REL_WHEEL"@[8] == 'L');
    }
    if code == 9 {
        assert("REL_MISC"@[0] == 'R' && "REL_MISC"@[1] == 'E' && "REL_MISC"@[2] == 'L' && "REL_MISC"@[3] == '_' && "REL_MISC"@[4] == 'M' && "REL_MISC"@[5] == 'I' && "REL_MISC"@[6] == 'S' && "REL_MISC"@[7] == 'C');
    }
    if code > 9 {
        let name = rel_name_of_code(code);
        lemma_dec_str_digits(code as nat);
        assert(name[4] == dec_str(code as nat)[0]);
        assert(is_digit(name[4]));
    }
}

pub fn rel_code_to_name(code: u16) -> (r: String)
    ensures
        r@ == rel_name_of_code(code),
{
    match code {
        0 => String::from_str("REL_X"),
        1 => String::from_str("REL_Y"),
        2 => String::from_str("REL_Z"),
        3 => String::from_str("REL_RX"),
        4 => String::from_str("REL_RY"),
        5 => String::from_str("REL_RZ"),
        6 => String::from_str("REL_HWHEEL"),
        7 => String::from_str("REL_DIAL"),
        8 => String::from_str("REL_WHEEL"),
        9 => String::from_str("REL_MISC"),
        _ => {
            let mut s = String::from_str("REL_");
            push_dec(&mut s, code as u64);
            s
        },
    }
}

/// The text that evdev's `Debug` formatting gives the key `Key::new(code)`.
pub uninterp spec fn evdev_key_text(code: u16) -> Seq<char>;

/// The text that evdev's `Debug` formatting gives the absolute axis with
/// this code.
pub uninterp spec fn evdev_abs_text(code: u16) -> Seq<char>;

/// The text that evdev's `Debug` formatting gives the relative axis with
/// this code.
pub uninterp spec fn evdev_rel_text(code: u16) -> Seq<char>;

/// `format!("{:?}", evdev::Key::new(code))`: evdev's `Debug` impl for `Key`
/// writes the constant's name for a code that it names, and
/// `unknown key: <code>` otherwise; a function of the code alone.
#[verifier::external_body]
fn evdev_key_debug(code: u16) -> (r: String)
    ensures
        r@ == evdev_key_text(code),
{
    format!("{:?}", evdev::Key::new(code))
}

/// `format!("{:?}", evdev::AbsoluteAxisType(code))`: evdev's `Debug` impl
/// writes the axis constant's name, or `unknown key: <code>`; a function of
/// the code alone.
#[verifier::external_body]
fn evdev_abs_debug(code: u16) -> (r: String)
    ensures
        r@ == evdev_abs_text(code),
{
    format!("{:?}", evdev::AbsoluteAxisType(code))
}

/// `format!("{:?}", evdev::RelativeAxisType(code))`: evdev's `Debug` impl
/// writes the axis constant's name, or `unknown key: <code>`; a function of
/// the code alone.
#[verifier::external_body]
fn evdev_rel_debug(code: u16) -> (r: String)
    ensures
        r@ == evdev_rel_text(code),
{
    format!("{:?}", evdev::RelativeAxisType(code))
}

/// Get the string name for a key code, as evdev writes the key.
pub fn key_code_name(code: u16) -> (r: String)
    ensures
        r@ == evdev_key_text(code),
{
    evdev_key_debug(code)
}

/// Get the string name for an absolute axis code, as evdev writes the axis.
pub fn abs_code_name(code: u16) -> (r: String)
    ensures
        r@ == evdev_abs_text(code),
{
    evdev_abs_debug(code)
}

/// Get the string name for a relative axis code, as evdev writes the axis.
pub fn rel_code_name(code: u16) -> (r: String)
    ensures
        r@ == evdev_rel_text(code),
{
    evdev_rel_debug(code)
}

} // verus!
