//! What the desktop input backends decide: gamepad buttons and axes as
//! kernel codes, the capabilities each kind of device reports, the names of
//! raw input devices, and the events that raw keyboard and mouse reports
//! become. Reading the reports is the caller's part.
use vstd::prelude::*;
use vstd::string::*;

use crate::platform::{AbsAxisInfo, DeviceCapabilities, DeviceType, PlatformInputEvent};
use crate::devices::{to_uppercase, uppercase};
use crate::text::{find_str, first_occurrence, hex4_upper, occurs_at, push_hex4_upper};
use crate::keycodes::{
    key_code_of_name, law_key_names_read_to_codes_1, law_key_names_read_to_codes_2,
    law_key_names_read_to_codes_3, law_key_names_read_to_codes_4, law_key_names_read_to_codes_5,
    law_key_names_read_to_codes_6, law_key_names_read_to_codes_7,
};

verus! {

// ---------------------------------------------------------------------------
// Gamepads
// ---------------------------------------------------------------------------

/// A gamepad button, as the gamepad library names it.
#[derive(Debug, Clone, Copy, PartialEq, Eq, Structural)]
pub enum GamepadButton {
    South,
    East,
    North,
    West,
    C,
    Z,
    LeftTrigger,
    LeftTrigger2,
    RightTrigger,
    RightTrigger2,
    Select,
    Start,
    Mode,
    LeftThumb,
    RightThumb,
    DPadUp,
    DPadDown,
    DPadLeft,
    DPadRight,
    Unknown,
}

/// A gamepad axis, as the gamepad library names it.
#[derive(Debug, Clone, Copy, PartialEq, Eq, Structural)]
pub enum GamepadAxis {
    LeftStickX,
    LeftStickY,
    LeftZ,
    RightStickX,
    RightStickY,
    RightZ,
    DPadX,
    DPadY,
    Unknown,
}

/// The kernel code of a gamepad button: the face, shoulder, menu and thumb
/// buttons have their button codes; the pad's directions report 0 (they
/// come as hat axes); an unknown button has none.
pub open spec fn button_code(b: GamepadButton) -> Option<u16> {
    match b {
        GamepadButton::South => Some(304u16),
        GamepadButton::East => Some(305u16),
        GamepadButton::North => Some(307u16),
        GamepadButton::West => Some(308u16),
        GamepadButton::LeftTrigger => Some(310u16),
        GamepadButton::RightTrigger => Some(311u16),
        GamepadButton::LeftTrigger2 => Some(312u16),
        GamepadButton::RightTrigger2 => Some(313u16),
        GamepadButton::Select => Some(314u16),
        GamepadButton::Start => Some(315u16),
        GamepadButton::Mode => Some(316u16),
        GamepadButton::LeftThumb => Some(317u16),
        GamepadButton::RightThumb => Some(318u16),
        GamepadButton::C => Some(306u16),
        GamepadButton::Z => Some(309u16),
        GamepadButton::DPadUp | GamepadButton::DPadDown | GamepadButton::DPadLeft
        | GamepadButton::DPadRight => Some(0u16),
        GamepadButton::Unknown => None,
    }
}

/// Convert a gamepad button to its kernel code.
pub fn button_to_code(button: GamepadButton) -> (r: Option<u16>)
    ensures
        r == button_code(button),
{
    match button {
        GamepadButton::South => Some(304),
        GamepadButton::East => Some(305),
        GamepadButton::North => Some(307),
        GamepadButton::West => Some(308),
        GamepadButton::LeftTrigger => Some(310),
        GamepadButton::RightTrigger => Some(311),
        GamepadButton::LeftTrigger2 => Some(312),
        GamepadButton::RightTrigger2 => Some(313),
        GamepadButton::Select => Some(314),
        GamepadButton::Start => Some(315),
        GamepadButton::Mode => Some(316),
        GamepadButton::LeftThumb => Some(317),
        GamepadButton::RightThumb => Some(318),
        GamepadButton::C => Some(306),
        GamepadButton::Z => Some(309),
        GamepadButton::DPadUp | GamepadButton::DPadDown | GamepadButton::DPadLeft
        | GamepadButton::DPadRight => Some(0),
        GamepadButton::Unknown => None,
    }
}

/// The kernel code of a gamepad axis.
pub open spec fn axis_code(a: GamepadAxis) -> Option<u16> {
    match a {
        GamepadAxis::LeftStickX => Some(0u16),
        GamepadAxis::LeftStickY => Some(1u16),
        GamepadAxis::RightStickX => Some(3u16),
        GamepadAxis::RightStickY => Some(4u16),
        GamepadAxis::LeftZ => Some(2u16),
        GamepadAxis::RightZ => Some(5u16),
        GamepadAxis::DPadX => Some(16u16),
        GamepadAxis::DPadY => Some(17u16),
        GamepadAxis::Unknown => None,
    }
}

/// Convert a gamepad axis to its kernel code.
pub fn axis_to_code(axis: GamepadAxis) -> (r: Option<u16>)
    ensures
        r == axis_code(axis),
{
    match axis {
        GamepadAxis::LeftStickX => Some(0),
        GamepadAxis::LeftStickY => Some(1),
        GamepadAxis::RightStickX => Some(3),
        GamepadAxis::RightStickY => Some(4),
        GamepadAxis::LeftZ => Some(2),
        GamepadAxis::RightZ => Some(5),
        GamepadAxis::DPadX => Some(16),
        GamepadAxis::DPadY => Some(17),
        GamepadAxis::Unknown => None,
    }
}

/// The key event a button press or release becomes, for buttons with a code.
pub fn button_event(button: GamepadButton, pressed: bool) -> (r: Option<PlatformInputEvent>)
    ensures
        match button_code(button) {
            Some(c) => r matches Some(e) && e.event_type == 1 && e.code == c && e.value == if pressed {
                1i32
            } else {
                0i32
            },
            None => r is None,
        },
{
    match button_to_code(button) {
        Some(code) => Some(PlatformInputEvent::new(1, code, if pressed { 1 } else { 0 })),
        None => None,
    }
}

/// The axes a standard gamepad reports: two sticks of ±32767 (fuzz 16,
/// flat 128), two triggers of 0 to 255, and the pad as two hat axes of −1
/// to 1.
pub open spec fn gamepad_axes() -> Seq<AbsAxisInfo> {
    seq![
        AbsAxisInfo { code: 0, value: 0, minimum: -32768i32, maximum: 32767, fuzz: 16, flat: 128, resolution: 0 },
        AbsAxisInfo { code: 1, value: 0, minimum: -32768i32, maximum: 32767, fuzz: 16, flat: 128, resolution: 0 },
        AbsAxisInfo { code: 3, value: 0, minimum: -32768i32, maximum: 32767, fuzz: 16, flat: 128, resolution: 0 },
        AbsAxisInfo { code: 4, value: 0, minimum: -32768i32, maximum: 32767, fuzz: 16, flat: 128, resolution: 0 },
        AbsAxisInfo { code: 2, value: 0, minimum: 0, maximum: 255, fuzz: 0, flat: 0, resolution: 0 },
        AbsAxisInfo { code: 5, value: 0, minimum: 0, maximum: 255, fuzz: 0, flat: 0, resolution: 0 },
        AbsAxisInfo { code: 16, value: 0, minimum: -1i32, maximum: 1, fuzz: 0, flat: 0, resolution: 0 },
        AbsAxisInfo { code: 17, value: 0, minimum: -1i32, maximum: 1, fuzz: 0, flat: 0, resolution: 0 },
    ]
}

/// The capabilities a standard gamepad reports: the buttons 304 to 318 and
/// the standard axes.
pub fn gamepad_capabilities() -> (r: DeviceCapabilities)
    ensures
        r.keys@ == Seq::new(15, |i: int| (304 + i) as u16),
        r.abs_axes@ == gamepad_axes(),
        r.rel_axes@.len() == 0,
{
    let mut keys: Vec<u16> = Vec::new();
    let mut k: u16 = 304;
    while k <= 318
        invariant
            304 <= k <= 319,
            keys@ == Seq::new((k - 304) as nat, |i: int| (304 + i) as u16),
        decreases 319 - k,
    {
        keys.push(k);
        k = k + 1;
        assert(keys@ =~= Seq::new((k - 304) as nat, |i: int| (304 + i) as u16));
    }
    let abs_axes = vec![
        AbsAxisInfo { code: 0, value: 0, minimum: -32768, maximum: 32767, fuzz: 16, flat: 128, resolution: 0 },
        AbsAxisInfo { code: 1, value: 0, minimum: -32768, maximum: 32767, fuzz: 16, flat: 128, resolution: 0 },
        AbsAxisInfo { code: 3, value: 0, minimum: -32768, maximum: 32767, fuzz: 16, flat: 128, resolution: 0 },
        AbsAxisInfo { code: 4, value: 0, minimum: -32768, maximum: 32767, fuzz: 16, flat: 128, resolution: 0 },
        AbsAxisInfo { code: 2, value: 0, minimum: 0, maximum: 255, fuzz: 0, flat: 0, resolution: 0 },
        AbsAxisInfo { code: 5, value: 0, minimum: 0, maximum: 255, fuzz: 0, flat: 0, resolution: 0 },
        AbsAxisInfo { code: 16, value: 0, minimum: -1, maximum: 1, fuzz: 0, flat: 0, resolution: 0 },
        AbsAxisInfo { code: 17, value: 0, minimum: -1, maximum: 1, fuzz: 0, flat: 0, resolution: 0 },
    ];
    assert(abs_axes@ =~= gamepad_axes());
    DeviceCapabilities { keys, abs_axes, rel_axes: Vec::new() }
}

// ---------------------------------------------------------------------------
// Keyboards and mice
// ---------------------------------------------------------------------------

/// The keys a standard keyboard reports: codes 1 to 88, 96 to 111, and 119,
/// 125 and 126.
pub open spec fn keyboard_keys() -> Seq<u16> {
    Seq::new(88, |i: int| (1 + i) as u16) + Seq::new(16, |i: int| (96 + i) as u16) + seq![
        119u16,
        125u16,
        126u16,
    ]
}

fn push_range(v: &mut Vec<u16>, from: u16, to: u16)
    requires
        from <= to,
        to < 65535,
    ensures
        final(v)@ == old(v)@ + Seq::new((to - from + 1) as nat, |i: int| (from + i) as u16),
{
    let mut k: u16 = from;
    while k <= to
        invariant
            from <= k <= to + 1,
            to < 65535,
            v@ == old(v)@ + Seq::new((k - from) as nat, |i: int| (from + i) as u16),
        decreases to + 1 - k,
    {
        v.push(k);
        k = k + 1;
        assert(v@ =~= old(v)@ + Seq::new((k - from) as nat, |i: int| (from + i) as u16));
    }
}

/// The capabilities a keyboard or a mouse of the desktop backends reports;
/// other devices report none.
pub fn desktop_capabilities(device_type: DeviceType) -> (r: DeviceCapabilities)
    ensures
        device_type == DeviceType::Keyboard ==> {
            &&& r.keys@ == keyboard_keys()
            &&& r.abs_axes@.len() == 0
            &&& r.rel_axes@.len() == 0
        },
        device_type == DeviceType::Mouse ==> {
            &&& r.keys@ == seq![272u16, 273u16, 274u16, 275u16, 276u16]
            &&& r.abs_axes@.len() == 0
            &&& r.rel_axes@ == seq![0u16, 1u16, 8u16, 6u16]
        },
        device_type != DeviceType::Keyboard && device_type != DeviceType::Mouse ==> {
            &&& r.keys@.len() == 0
            &&& r.abs_axes@.len() == 0
            &&& r.rel_axes@.len() == 0
        },
{
    match device_type {
        DeviceType::Keyboard => {
            let mut keys: Vec<u16> = Vec::new();
            push_range(&mut keys, 1, 88);
            push_range(&mut keys, 96, 111);
            keys.push(119);
            keys.push(125);
            keys.push(126);
            assert(keys@ =~= keyboard_keys());
            DeviceCapabilities { keys, abs_axes: Vec::new(), rel_axes: Vec::new() }
        },
        DeviceType::Mouse => {
            let keys = vec![272, 273, 274, 275, 276];
            let rel_axes = vec![0, 1, 8, 6];
            DeviceCapabilities { keys, abs_axes: Vec::new(), rel_axes }
        },
        _ => DeviceCapabilities::default(),
    }
}

/// The vendors raw input devices are named after.
pub open spec fn vendor_label(vid: u16, pid: u16) -> Seq<char> {
    if vid == 0x045E {
        "Microsoft"@
    } else if vid == 0x046D {
        "Logitech"@
    } else if vid == 0x1532 {
        "Razer"@
    } else if vid == 0x1B1C {
        "Corsair"@
    } else if vid == 0x1038 {
        "SteelSeries"@
    } else if vid == 0x0951 {
        "HyperX"@
    } else if vid == 0 && pid == 0 {
        "Generic"@
    } else {
        hex4_upper(vid) + ":"@ + hex4_upper(pid)
    }
}

/// The number of bytes a character takes in UTF-8.
pub open spec fn utf8_width(c: char) -> nat {
    if (c as u32) < 0x80 {
        1
    } else if (c as u32) < 0x800 {
        2
    } else if (c as u32) < 0x10000 {
        3
    } else {
        4
    }
}

/// The first `n` bytes of `s`, in UTF-8, end on a character boundary.
pub open spec fn bytes_split_at(s: Seq<char>, n: nat) -> bool
    decreases s.len(),
{
    if n == 0 {
        true
    } else if s.len() == 0 {
        false
    } else {
        utf8_width(s[0]) <= n && bytes_split_at(s.drop_first(), (n - utf8_width(s[0])) as nat)
    }
}

/// The four bytes after the first `tag` in `u` can be cut out of the text:
/// there are four of them and they end on a character boundary. Without a
/// tag nothing is cut.
pub open spec fn field_cut_ok(u: Seq<char>, tag: Seq<char>) -> bool {
    match first_occurrence(u, tag) {
        None => true,
        Some(i) => bytes_split_at(u.subrange(i + tag.len(), u.len() as int), 4),
    }
}

/// The value of a hexadecimal digit, of either case.
pub open spec fn hex_digit_value(c: char) -> Option<nat> {
    if '0' <= c && c <= '9' {
        Some((c as int - '0' as int) as nat)
    } else if 'a' <= c && c <= 'f' {
        Some((c as int - 'a' as int + 10) as nat)
    } else if 'A' <= c && c <= 'F' {
        Some((c as int - 'A' as int + 10) as nat)
    } else {
        None
    }
}

/// The value of a run of hexadecimal digits, most significant first.
pub open spec fn hex_digits_value(s: Seq<char>) -> Option<nat>
    decreases s.len(),
{
    if s.len() == 0 {
        Some(0)
    } else {
        match (hex_digits_value(s.drop_last()), hex_digit_value(s.last())) {
            (Some(a), Some(d)) => Some(a * 16 + d),
            _ => None,
        }
    }
}

/// What `u16::from_str_radix(_, 16)` reads from text of at most four
/// characters: an optional `+`, then one or more hexadecimal digits.
pub open spec fn radix16(w: Seq<char>) -> Option<nat> {
    if w.len() == 0 {
        None
    } else if w[0] == '+' {
        if w.len() == 1 {
            None
        } else {
            hex_digits_value(w.drop_first())
        }
    } else {
        hex_digits_value(w)
    }
}

/// The number in the four characters after the first `tag` in `u`: none
/// without a tag, when fewer than four characters follow, when one of them
/// is not ASCII, or when they do not read as hexadecimal.
pub open spec fn hex_field(u: Seq<char>, tag: Seq<char>) -> Option<u16> {
    match first_occurrence(u, tag) {
        None => None,
        Some(i) => {
            let s = i + tag.len();
            if s + 4 <= u.len() && forall|k: int| s <= k < s + 4 ==> (u[k] as u32) < 0x80 {
                match radix16(u.subrange(s, s + 4)) {
                    Some(v) => Some(v as u16),
                    None => None,
                }
            } else {
                None
            }
        },
    }
}

/// The vendor and product read from an upper-cased device path.
pub open spec fn vid_pid_of(u: Seq<char>) -> Option<(u16, u16)> {
    match hex_field(u, "VID_"@) {
        None => None,
        Some(v) => match hex_field(u, "PID_"@) {
            None => None,
            Some(p) => Some((v, p)),
        },
    }
}

/// The value of a hexadecimal digit.
fn hex_digit(c: char) -> (r: Option<u32>)
    ensures
        match hex_digit_value(c) {
            Some(d) => r == Some(d as u32),
            None => r is None,
        },
{
    if '0' <= c && c <= '9' {
        Some((c as u32) - ('0' as u32))
    } else if 'a' <= c && c <= 'f' {
        Some((c as u32) - ('a' as u32) + 10)
    } else if 'A' <= c && c <= 'F' {
        Some((c as u32) - ('A' as u32) + 10)
    } else {
        None
    }
}

/// The number in the four characters after the first `tag` in `u`.
fn hex_field_of(u: &str, tag: &str) -> (r: Option<u16>)
    ensures
        r == hex_field(u@, tag@),
{
    let i = match find_str(u, tag) {
        Some(i) => i,
        None => {
            return None;
        },
    };
    let n = u.unicode_len();
    let t = tag.unicode_len();
    proof {
        assert(occurs_at(u@, tag@, i as int));
    }
    let s = i + t;
    if s > n || n - s < 4 {
        return None;
    }
    let mut k: usize = s;
    while k < s + 4
        invariant
            s <= k <= s + 4,
            s + 4 <= n,
            n == u@.len(),
            first_occurrence(u@, tag@) == Some(i as int),
            s == i + tag@.len(),
            forall|j: int| s <= j < k ==> (u@[j] as u32) < 0x80,
        decreases s + 4 - k,
    {
        if (u.get_char(k) as u32) >= 0x80 {
            proof {
                assert((u@[k as int] as u32) >= 0x80);
                assert(first_occurrence(u@, tag@) == Some(i as int));
                assert(i + tag@.len() == s);
                assert(!(forall|j: int| s <= j < s + 4 ==> (u@[j] as u32) < 0x80));
                assert(hex_field(u@, tag@) is None);
            }
            return None;
        }
        k = k + 1;
    }
    let ghost w = u@.subrange(s as int, s + 4);
    let mut start: usize = s;
    if u.get_char(s) == '+' {
        start = s + 1;
    }
    assert(w[0] == u@[s as int]);
    let ghost digits = u@.subrange(start as int, s + 4);
    proof {
        if start == s + 1 {
            assert(digits =~= w.drop_first());
        } else {
            assert(digits =~= w);
        }
    }
    let mut acc: u32 = 0;
    let mut j: usize = start;
    while j < s + 4
        invariant
            s <= start <= j <= s + 4,
            start <= s + 1,
            s + 4 <= n,
            n == u@.len(),
            digits == u@.subrange(start as int, s + 4),
            w == u@.subrange(s as int, s + 4),
            (start == s + 1) == (w[0] == '+'),
            start == s + 1 ==> digits == w.drop_first(),
            start == s ==> digits == w,
            first_occurrence(u@, tag@) == Some(i as int),
            s == i + tag@.len(),
            forall|jj: int| s <= jj < s + 4 ==> (u@[jj] as u32) < 0x80,
            hex_digits_value(u@.subrange(start as int, j as int)) == Some(acc as nat),
            acc < 0x10000,
            j - start <= 4,
            (acc as int) < pow16((j - start) as nat),
        decreases s + 4 - j,
    {
        let c = u.get_char(j);
        match hex_digit(c) {
            Some(d) => {
                proof {
                    let prev = u@.subrange(start as int, j as int);
                    let next = u@.subrange(start as int, j + 1);
                    assert(next.drop_last() =~= prev);
                    assert(next.last() == c);
                    lemma_pow16_step((j - start) as nat, acc as int, d as int);
                    assert(pow16(4) == 0x10000) by {
                        reveal_with_fuel(pow16, 5);
                    }
                    lemma_pow16_monotone((j + 1 - start) as nat, 4);
                }
                acc = acc * 16 + d;
            },
            None => {
                proof {
                    assert(digits[j - start] == c);
                    lemma_hex_digits_none(digits, (j - start) as int);
                    assert(w.len() == 4);
                    if start == s + 1 {
                        assert(w[0] == '+');
                        assert(radix16(w) == hex_digits_value(w.drop_first()));
                    } else {
                        assert(w[0] != '+');
                    }
                    assert(radix16(w) is None);
                }
                return None;
            },
        }
        j = j + 1;
    }
    proof {
        assert(u@.subrange(start as int, j as int) =~= digits);
        if start == s + 1 {
            assert(w[0] == '+');
        } else {
            assert(w[0] != '+');
        }
    }
    Some(acc as u16)
}

/// Powers of sixteen.
pub open spec fn pow16(k: nat) -> nat
    decreases k,
{
    if k == 0 {
        1
    } else {
        16 * pow16((k - 1) as nat)
    }
}

proof fn lemma_pow16_step(k: nat, acc: int, d: int)
    requires
        0 <= acc < pow16(k),
        0 <= d < 16,
    ensures
        acc * 16 + d < pow16(k + 1),
{
    assert(pow16(k + 1) == 16 * pow16(k));
    assert(acc * 16 + d < 16 * pow16(k)) by (nonlinear_arith)
        requires
            0 <= acc < pow16(k),
            0 <= d < 16,
    ;
}

proof fn lemma_pow16_monotone(a: nat, b: nat)
    requires
        a <= b,
    ensures
        pow16(a) <= pow16(b),
    decreases b,
{
    if a < b {
        lemma_pow16_monotone(a, (b - 1) as nat);
        assert(pow16(b) == 16 * pow16((b - 1) as nat));
    }
}

/// A run of digits with a bad character at `k` has no value.
proof fn lemma_hex_digits_none(s: Seq<char>, k: int)
    requires
        0 <= k < s.len(),
        hex_digit_value(s[k]) is None,
    ensures
        hex_digits_value(s) is None,
    decreases s.len(),
{
    if k < s.len() - 1 {
        assert(s.drop_last()[k] == s[k]);
        lemma_hex_digits_none(s.drop_last(), k);
    }
}

/// The UTF-8 width of a character.
fn utf8_width_of(c: char) -> (r: u32)
    ensures
        r as nat == utf8_width(c),
{
    let v = c as u32;
    if v < 0x80 {
        1
    } else if v < 0x800 {
        2
    } else if v < 0x10000 {
        3
    } else {
        4
    }
}

/// Whether the four bytes from character position `from` of `u` end on a
/// character boundary.
fn cuts_at_four_bytes(u: &str, from: usize) -> (r: bool)
    requires
        from <= u@.len(),
    ensures
        r == bytes_split_at(u@.subrange(from as int, u@.len() as int), 4),
{
    let n = u.unicode_len();
    let mut k: usize = from;
    let mut rem: u32 = 4;
    while rem > 0 && k < n
        invariant
            from <= k <= n,
            n == u@.len(),
            rem <= 4,
            bytes_split_at(u@.subrange(from as int, n as int), 4) == bytes_split_at(
                u@.subrange(k as int, n as int),
                rem as nat,
            ),
        decreases n - k,
    {
        let w = utf8_width_of(u.get_char(k));
        proof {
            let t = u@.subrange(k as int, n as int);
            assert(t[0] == u@[k as int]);
            assert(t.drop_first() =~= u@.subrange(k + 1, n as int));
        }
        if w > rem {
            return false;
        }
        rem = rem - w;
        k = k + 1;
    }
    rem == 0
}

/// Whether the four bytes after the first `tag` in `u` can be cut out.
fn field_cut_ok_of(u: &str, tag: &str) -> (r: bool)
    ensures
        r == field_cut_ok(u@, tag@),
{
    match find_str(u, tag) {
        None => true,
        Some(i) => {
            let _n = u.unicode_len();
            let t = tag.unicode_len();
            proof {
                assert(occurs_at(u@, tag@, i as int));
            }
            cuts_at_four_bytes(u, i + t)
        },
    }
}

/// The vendor and product of a raw input device path where the path can be
/// read as `parse_vid_pid_from_path` reads it; `None` where that reading
/// would cut a field out of the middle of a character or past the end.
pub fn checked_vid_pid_from_path(path: &str) -> (r: Option<Option<(u16, u16)>>)
    ensures
        match r {
            Some(v) => {
                &&& field_cut_ok(uppercase(path@), "VID_"@)
                &&& (hex_field(uppercase(path@), "VID_"@) is Some ==> field_cut_ok(
                    uppercase(path@),
                    "PID_"@,
                ))
                &&& v == vid_pid_of(uppercase(path@))
            },
            None => !(field_cut_ok(uppercase(path@), "VID_"@) && (hex_field(
                uppercase(path@),
                "VID_"@,
            ) is Some ==> field_cut_ok(uppercase(path@), "PID_"@))),
        },
{
    let upper = to_uppercase(path);
    if !field_cut_ok_of(upper.as_str(), "VID_") {
        return None;
    }
    if hex_field_of(upper.as_str(), "VID_").is_some() && !field_cut_ok_of(upper.as_str(), "PID_") {
        return None;
    }
    Some(parse_vid_pid_from_path(path))
}

/// The vendor and product of a raw input device, read from its path
/// (`\\?\HID#VID_xxxx&PID_xxxx#...`) after upper-casing it: the four
/// characters after the first `VID_` and after the first `PID_`, read as
/// hexadecimal.
pub fn parse_vid_pid_from_path(path: &str) -> (r: Option<(u16, u16)>)
    requires
        field_cut_ok(uppercase(path@), "VID_"@),
        hex_field(uppercase(path@), "VID_"@) is Some ==> field_cut_ok(uppercase(path@), "PID_"@),
    ensures
        r == vid_pid_of(uppercase(path@)),
{
    let upper = to_uppercase(path);
    let vid = match hex_field_of(upper.as_str(), "VID_") {
        Some(v) => v,
        None => {
            return None;
        },
    };
    let pid = match hex_field_of(upper.as_str(), "PID_") {
        Some(p) => p,
        None => {
            return None;
        },
    };
    Some((vid, pid))
}

/// The name given to a raw input device: its vendor (or identifier pair)
/// and its kind.
pub open spec fn raw_device_name(device_type: DeviceType, vid: u16, pid: u16) -> Seq<char> {
    vendor_label(vid, pid) + " "@ + match device_type {
        DeviceType::Keyboard => "Keyboard"@,
        DeviceType::Mouse => "Mouse"@,
        _ => "Device"@,
    }
}

/// Generate a human-readable name for a raw input device.
pub fn generate_device_name(path: &str, device_type: DeviceType, vid: u16, pid: u16) -> (r: String)
    ensures
        r@ == raw_device_name(device_type, vid, pid),
{
    let mut s = if vid == 0x045E {
        String::from_str("Microsoft")
    } else if vid == 0x046D {
        String::from_str("Logitech")
    } else if vid == 0x1532 {
        String::from_str("Razer")
    } else if vid == 0x1B1C {
        String::from_str("Corsair")
    } else if vid == 0x1038 {
        String::from_str("SteelSeries")
    } else if vid == 0x0951 {
        String::from_str("HyperX")
    } else if vid == 0 && pid == 0 {
        String::from_str("Generic")
    } else {
        let mut t = String::new();
        push_hex4_upper(&mut t, vid);
        t.append(":");
        push_hex4_upper(&mut t, pid);
        t
    };
    s.append(" ");
    match device_type {
        DeviceType::Keyboard => s.append("Keyboard"),
        DeviceType::Mouse => s.append("Mouse"),
        _ => s.append("Device"),
    }
    s
}

/// The kernel key code of a Windows virtual key; 0 for keys without one.
pub open spec fn vkey_code(vkey: u16) -> u16 {
    if vkey == 65 {
        30
    } else if vkey == 66 {
        48
    } else if vkey == 67 {
        46
    } else if vkey == 68 {
        32
    } else if vkey == 69 {
        18
    } else if vkey == 70 {
        33
    } else if vkey == 71 {
        34
    } else if vkey == 72 {
        35
    } else if vkey == 73 {
        23
    } else if vkey == 74 {
        36
    } else if vkey == 75 {
        37
    } else if vkey == 76 {
        38
    } else if vkey == 77 {
        50
    } else if vkey == 78 {
        49
    } else if vkey == 79 {
        24
    } else if vkey == 80 {
        25
    } else if vkey == 81 {
        16
    } else if vkey == 82 {
        19
    } else if vkey == 83 {
        31
    } else if vkey == 84 {
        20
    } else if vkey == 85 {
        22
    } else if vkey == 86 {
        47
    } else if vkey == 87 {
        17
    } else if vkey == 88 {
        45
    } else if vkey == 89 {
        21
    } else if vkey == 90 {
        44
    } else if vkey == 48 {
        11
    } else if vkey == 49 {
        2
    } else if vkey == 50 {
        3
    } else if vkey == 51 {
        4
    } else if vkey == 52 {
        5
    } else if vkey == 53 {
        6
    } else if vkey == 54 {
        7
    } else if vkey == 55 {
        8
    } else if vkey == 56 {
        9
    } else if vkey == 57 {
        10
    } else if vkey == 112 {
        59
    } else if vkey == 113 {
        60
    } else if vkey == 114 {
        61
    } else if vkey == 115 {
        62
    } else if vkey == 116 {
        63
    } else if vkey == 117 {
        64
    } else if vkey == 118 {
        65
    } else if vkey == 119 {
        66
    } else if vkey == 120 {
        67
    } else if vkey == 121 {
        68
    } else if vkey == 122 {
        87
    } else if vkey == 123 {
        88
    } else if vkey == 96 {
        82
    } else if vkey == 97 {
        79
    } else if vkey == 98 {
        80
    } else if vkey == 99 {
        81
    } else if vkey == 100 {
        75
    } else if vkey == 101 {
        76
    } else if vkey == 102 {
        77
    } else if vkey == 103 {
        71
    } else if vkey == 104 {
        72
    } else if vkey == 105 {
        73
    } else if vkey == 106 {
        55
    } else if vkey == 107 {
        78
    } else if vkey == 109 {
        74
    } else if vkey == 110 {
        83
    } else if vkey == 111 {
        98
    } else if vkey == 8 {
        14
    } else if vkey == 9 {
        15
    } else if vkey == 13 {
        28
    } else if vkey == 16 {
        42
    } else if vkey == 17 {
        29
    } else if vkey == 18 {
        56
    } else if vkey == 19 {
        119
    } else if vkey == 20 {
        58
    } else if vkey == 27 {
        1
    } else if vkey == 32 {
        57
    } else if vkey == 33 {
        104
    } else if vkey == 34 {
        109
    } else if vkey == 35 {
        107
    } else if vkey == 36 {
        102
    } else if vkey == 37 {
        105
    } else if vkey == 38 {
        103
    } else if vkey == 39 {
        106
    } else if vkey == 40 {
        108
    } else if vkey == 45 {
        110
    } else if vkey == 46 {
        111
    } else if vkey == 160 {
        42
    } else if vkey == 161 {
        54
    } else if vkey == 162 {
        29
    } else if vkey == 163 {
        97
    } else if vkey == 164 {
        56
    } else if vkey == 165 {
        100
    } else if vkey == 91 {
        125
    } else if vkey == 92 {
        126
    } else if vkey == 93 {
        127
    } else if vkey == 144 {
        69
    } else if vkey == 145 {
        70
    } else if vkey == 186 {
        39
    } else if vkey == 187 {
        13
    } else if vkey == 188 {
        51
    } else if vkey == 189 {
        12
    } else if vkey == 190 {
        52
    } else if vkey == 191 {
        53
    } else if vkey == 192 {
        41
    } else if vkey == 219 {
        26
    } else if vkey == 220 {
        43
    } else if vkey == 221 {
        27
    } else if vkey == 222 {
        40
    } else if vkey == 44 {
        99
    } else {
        0
    }
}

/// Convert a Windows virtual key code to a kernel key code.
pub fn windows_vkey_to_evdev(vkey: u16) -> (r: u16)
    ensures
        r == vkey_code(vkey),
{
    match vkey {
        65 => 30,
        66 => 48,
        67 => 46,
        68 => 32,
        69 => 18,
        70 => 33,
        71 => 34,
        72 => 35,
        73 => 23,
        74 => 36,
        75 => 37,
        76 => 38,
        77 => 50,
        78 => 49,
        79 => 24,
        80 => 25,
        81 => 16,
        82 => 19,
        83 => 31,
        84 => 20,
        85 => 22,
        86 => 47,
        87 => 17,
        88 => 45,
        89 => 21,
        90 => 44,
        48 => 11,
        49 => 2,
        50 => 3,
        51 => 4,
        52 => 5,
        53 => 6,
        54 => 7,
        55 => 8,
        56 => 9,
        57 => 10,
        112 => 59,
        113 => 60,
        114 => 61,
        115 => 62,
        116 => 63,
        117 => 64,
        118 => 65,
        119 => 66,
        120 => 67,
        121 => 68,
        122 => 87,
        123 => 88,
        96 => 82,
        97 => 79,
        98 => 80,
        99 => 81,
        100 => 75,
        101 => 76,
        102 => 77,
        103 => 71,
        104 => 72,
        105 => 73,
        106 => 55,
        107 => 78,
        109 => 74,
        110 => 83,
        111 => 98,
        8 => 14,
        9 => 15,
        13 => 28,
        16 => 42,
        17 => 29,
        18 => 56,
        19 => 119,
        20 => 58,
        27 => 1,
        32 => 57,
        33 => 104,
        34 => 109,
        35 => 107,
        36 => 102,
        37 => 105,
        38 => 103,
        39 => 106,
        40 => 108,
        45 => 110,
        46 => 111,
        160 => 42,
        161 => 54,
        162 => 29,
        163 => 97,
        164 => 56,
        165 => 100,
        91 => 125,
        92 => 126,
        93 => 127,
        144 => 69,
        145 => 70,
        186 => 39,
        187 => 13,
        188 => 51,
        189 => 12,
        190 => 52,
        191 => 53,
        192 => 41,
        219 => 26,
        220 => 43,
        221 => 27,
        222 => 40,
        44 => 99,
        _ => 0,
    }
}
// ---------------------------------------------------------------------------
// Raw keyboard and mouse reports
// ---------------------------------------------------------------------------

/// Type, code and value of an event.
pub open spec fn triple(e: PlatformInputEvent) -> (u16, u16, i32) {
    (e.event_type, e.code, e.value)
}

/// Type, code and value of each event.
pub open spec fn triples(s: Seq<PlatformInputEvent>) -> Seq<(u16, u16, i32)> {
    s.map_values(|e: PlatformInputEvent| triple(e))
}

/// One event where the condition holds, none otherwise.
pub open spec fn one_if(cond: bool, t: (u16, u16, i32)) -> Seq<(u16, u16, i32)> {
    if cond {
        seq![t]
    } else {
        Seq::empty()
    }
}

fn push_if(events: &mut Vec<PlatformInputEvent>, cond: bool, event_type: u16, code: u16, value: i32)
    ensures
        triples(final(events)@) == triples(old(events)@) + one_if(cond, (event_type, code, value)),
{
    if cond {
        events.push(PlatformInputEvent::new(event_type, code, value));
        assert(triples(events@) =~= triples(old(events)@) + one_if(
            cond,
            (event_type, code, value),
        ));
    } else {
        assert(triples(events@) =~= triples(old(events)@) + one_if(
            cond,
            (event_type, code, value),
        ));
    }
}

/// The events of a raw keyboard report: the key's press (or release, when
/// the break flag is set) and a sync, for keys with a kernel code.
pub open spec fn keyboard_report(vkey: u16, flags: u16) -> Seq<(u16, u16, i32)> {
    let code = vkey_code(vkey);
    let value: i32 = if flags & 1 != 0 {
        0
    } else {
        1
    };
    if code != 0 {
        seq![(1u16, code, value), (0u16, 0u16, 0i32)]
    } else {
        Seq::empty()
    }
}

/// Convert a raw keyboard report to events.
pub fn raw_keyboard_events(vkey: u16, flags: u16) -> (r: Vec<PlatformInputEvent>)
    ensures
        triples(r@) == keyboard_report(vkey, flags),
{
    let value: i32 = if flags & 1 != 0 {
        0
    } else {
        1
    };
    let code = windows_vkey_to_evdev(vkey);
    let mut events: Vec<PlatformInputEvent> = Vec::new();
    if code != 0 {
        events.push(PlatformInputEvent::new(1, code, value));
        events.push(PlatformInputEvent::sync());
        assert(triples(events@) =~= keyboard_report(vkey, flags));
    } else {
        assert(triples(events@) =~= keyboard_report(vkey, flags));
    }
    events
}

/// A 16-bit wheel datum read as a signed number.
pub open spec fn signed_datum(data: u16) -> int {
    if data < 32768 {
        data as int
    } else {
        data as int - 65536
    }
}

/// Wheel notches: the signed datum over 120, rounded toward zero.
pub open spec fn wheel_notches(data: u16) -> int {
    let d = signed_datum(data);
    if d >= 0 {
        d / 120
    } else {
        -((-d) / 120)
    }
}

/// The movement events of a relative report, where not zero.
pub open spec fn mouse_moves(flags: u16, dx: i32, dy: i32) -> Seq<(u16, u16, i32)> {
    let relative = flags & 1 == 0;
    one_if(relative && dx != 0, (2u16, 0u16, dx)) + one_if(relative && dy != 0, (2u16, 1u16, dy))
}

/// The press of a button where its down flag is set, then its release
/// where its up flag is.
pub open spec fn button_pair(bf: u16, down: u16, up: u16, code: u16) -> Seq<(u16, u16, i32)> {
    one_if(bf & down != 0, (1u16, code, 1i32)) + one_if(bf & up != 0, (1u16, code, 0i32))
}

/// The press or release of each button whose flag is set: left, right,
/// middle, side and extra.
pub open spec fn mouse_buttons(bf: u16) -> Seq<(u16, u16, i32)> {
    button_pair(bf, 0x1, 0x2, 272) + button_pair(bf, 0x4, 0x8, 273) + button_pair(
        bf,
        0x10,
        0x20,
        274,
    ) + button_pair(bf, 0x40, 0x80, 275) + button_pair(bf, 0x100, 0x200, 276)
}

/// The wheel events whose flag is set, where the notches are not zero:
/// vertical, then horizontal.
pub open spec fn mouse_wheels(bf: u16, data: u16) -> Seq<(u16, u16, i32)> {
    let wheel = wheel_notches(data);
    one_if(bf & 0x400 != 0 && wheel != 0, (2u16, 8u16, wheel as i32)) + one_if(
        bf & 0x800 != 0 && wheel != 0,
        (2u16, 6u16, wheel as i32),
    )
}

/// The events of a raw mouse report: the movement, the buttons and the
/// wheels, and a sync when there was any.
pub open spec fn mouse_report(
    flags: u16,
    dx: i32,
    dy: i32,
    button_flags: u16,
    button_data: u16,
) -> Seq<(u16, u16, i32)> {
    let body = mouse_moves(flags, dx, dy) + mouse_buttons(button_flags) + mouse_wheels(
        button_flags,
        button_data,
    );
    body + one_if(body.len() > 0, (0u16, 0u16, 0i32))
}

fn push_moves(events: &mut Vec<PlatformInputEvent>, flags: u16, dx: i32, dy: i32)
    ensures
        triples(final(events)@) == triples(old(events)@) + mouse_moves(flags, dx, dy),
{
    let relative = flags & 1 == 0;
    push_if(events, relative && dx != 0, 2, 0, dx);
    push_if(events, relative && dy != 0, 2, 1, dy);
    assert(triples(events@) =~= triples(old(events)@) + mouse_moves(flags, dx, dy));
}

fn push_pair(events: &mut Vec<PlatformInputEvent>, bf: u16, down: u16, up: u16, code: u16)
    ensures
        triples(final(events)@) == triples(old(events)@) + button_pair(bf, down, up, code),
{
    push_if(events, bf & down != 0, 1, code, 1);
    push_if(events, bf & up != 0, 1, code, 0);
    assert(triples(events@) =~= triples(old(events)@) + button_pair(bf, down, up, code));
}

fn push_buttons(events: &mut Vec<PlatformInputEvent>, bf: u16)
    ensures
        triples(final(events)@) == triples(old(events)@) + mouse_buttons(bf),
{
    let ghost start = triples(events@);
    push_pair(events, bf, 0x1, 0x2, 272);
    push_pair(events, bf, 0x4, 0x8, 273);
    push_pair(events, bf, 0x10, 0x20, 274);
    push_pair(events, bf, 0x40, 0x80, 275);
    push_pair(events, bf, 0x100, 0x200, 276);
    assert(triples(events@) =~= start + mouse_buttons(bf));
}

fn push_wheels(events: &mut Vec<PlatformInputEvent>, bf: u16, data: u16)
    ensures
        triples(final(events)@) == triples(old(events)@) + mouse_wheels(bf, data),
{
    let signed: i32 = if data < 32768 {
        data as i32
    } else {
        data as i32 - 65536
    };
    let wheel: i32 = if signed >= 0 {
        signed / 120
    } else {
        -((-signed) / 120)
    };
    assert(wheel == wheel_notches(data));
    push_if(events, bf & 0x400 != 0 && wheel != 0, 2, 8, wheel);
    push_if(events, bf & 0x800 != 0 && wheel != 0, 2, 6, wheel);
    assert(triples(events@) =~= triples(old(events)@) + mouse_wheels(bf, data));
}

/// Convert a raw mouse report to events.
pub fn raw_mouse_events(flags: u16, dx: i32, dy: i32, button_flags: u16, button_data: u16) -> (r:
    Vec<PlatformInputEvent>)
    ensures
        triples(r@) == mouse_report(flags, dx, dy, button_flags, button_data),
{
    let mut events: Vec<PlatformInputEvent> = Vec::new();
    push_moves(&mut events, flags, dx, dy);
    push_buttons(&mut events, button_flags);
    push_wheels(&mut events, button_flags, button_data);
    let ghost body = mouse_moves(flags, dx, dy) + mouse_buttons(button_flags) + mouse_wheels(
        button_flags,
        button_data,
    );
    assert(triples(events@) =~= body);
    let any = events.len() > 0;
    push_if(&mut events, any, 0, 0, 0);
    events
}

/// The virtual keys of the letters and of the digit row map to the keys of
/// the same names.
pub proof fn law_vkey_letters_and_digits_keep_their_names()
    ensures
        vkey_code(65) == key_code_of_name("KEY_A"@)->0,
        vkey_code(66) == key_code_of_name("KEY_B"@)->0,
        vkey_code(67) == key_code_of_name("KEY_C"@)->0,
        vkey_code(68) == key_code_of_name("KEY_D"@)->0,
        vkey_code(69) == key_code_of_name("KEY_E"@)->0,
        vkey_code(70) == key_code_of_name("KEY_F"@)->0,
        vkey_code(71) == key_code_of_name("KEY_G"@)->0,
        vkey_code(72) == key_code_of_name("KEY_H"@)->0,
        vkey_code(73) == key_code_of_name("KEY_I"@)->0,
        vkey_code(74) == key_code_of_name("KEY_J"@)->0,
        vkey_code(75) == key_code_of_name("KEY_K"@)->0,
        vkey_code(76) == key_code_of_name("KEY_L"@)->0,
        vkey_code(77) == key_code_of_name("KEY_M"@)->0,
        vkey_code(78) == key_code_of_name("KEY_N"@)->0,
        vkey_code(79) == key_code_of_name("KEY_O"@)->0,
        vkey_code(80) == key_code_of_name("KEY_P"@)->0,
        vkey_code(81) == key_code_of_name("KEY_Q"@)->0,
        vkey_code(82) == key_code_of_name("KEY_R"@)->0,
        vkey_code(83) == key_code_of_name("KEY_S"@)->0,
        vkey_code(84) == key_code_of_name("KEY_T"@)->0,
        vkey_code(85) == key_code_of_name("KEY_U"@)->0,
        vkey_code(86) == key_code_of_name("KEY_V"@)->0,
        vkey_code(87) == key_code_of_name("KEY_W"@)->0,
        vkey_code(88) == key_code_of_name("KEY_X"@)->0,
        vkey_code(89) == key_code_of_name("KEY_Y"@)->0,
        vkey_code(90) == key_code_of_name("KEY_Z"@)->0,
        vkey_code(48) == key_code_of_name("KEY_0"@)->0,
        vkey_code(49) == key_code_of_name("KEY_1"@)->0,
        vkey_code(50) == key_code_of_name("KEY_2"@)->0,
        vkey_code(51) == key_code_of_name("KEY_3"@)->0,
        vkey_code(52) == key_code_of_name("KEY_4"@)->0,
        vkey_code(53) == key_code_of_name("KEY_5"@)->0,
        vkey_code(54) == key_code_of_name("KEY_6"@)->0,
        vkey_code(55) == key_code_of_name("KEY_7"@)->0,
        vkey_code(56) == key_code_of_name("KEY_8"@)->0,
        vkey_code(57) == key_code_of_name("KEY_9"@)->0,
{
    law_key_names_read_to_codes_1();
    law_key_names_read_to_codes_2();
    law_key_names_read_to_codes_3();
    law_key_names_read_to_codes_4();
    law_key_names_read_to_codes_5();
    law_key_names_read_to_codes_6();
    law_key_names_read_to_codes_7();
}

} // verus!
