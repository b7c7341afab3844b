//! What the platform backends decide: which platform is supported and how,
//! what kind of virtual device a set of capabilities calls for, what each
//! output event becomes on the desktop platforms, and how a discovered
//! device is classified and found. Talking to the devices is the caller's
//! part; the functions here take what was read and say what to do.
use vstd::prelude::*;
use vstd::string::*;

use crate::devices::{lowercase, to_lowercase};
use crate::error::RemapperError;
use crate::platform::{DeviceCapabilities, DeviceType, PlatformDeviceInfo, PlatformInputEvent};
use crate::platform_codes::{evdev_key_to_macos_keycode, macos_key_code};
use crate::search::{find_where, lemma_first_where_none, lemma_first_where_unique};
use crate::order::{sort_by_key, sorted_by_key, SortKey};
use crate::text::{contains_seq, contains_str};

verus! {

// ---------------------------------------------------------------------------
// Platforms
// ---------------------------------------------------------------------------

/// The operating systems the program knows of.
#[derive(Debug, Clone, Copy, PartialEq, Eq, Structural)]
pub enum TargetPlatform {
    Linux,
    Windows,
    MacOS,
    Other,
}

/// The name of a platform.
pub open spec fn platform_text(p: TargetPlatform) -> Seq<char> {
    match p {
        TargetPlatform::Linux => "Linux"@,
        TargetPlatform::Windows => "Windows"@,
        TargetPlatform::MacOS => "macOS"@,
        TargetPlatform::Other => "Unknown"@,
    }
}

/// Get the name of a platform.
pub fn platform_name(p: TargetPlatform) -> (r: &'static str)
    ensures
        r@ == platform_text(p),
{
    match p {
        TargetPlatform::Linux => "Linux",
        TargetPlatform::Windows => "Windows",
        TargetPlatform::MacOS => "macOS",
        TargetPlatform::Other => "Unknown",
    }
}

/// Whether a platform is fully supported: Linux and Windows are; macOS
/// lacks virtual gamepads, and other systems are not supported.
pub fn is_fully_supported(p: TargetPlatform) -> (r: bool)
    ensures
        r == (p == TargetPlatform::Linux || p == TargetPlatform::Windows),
{
    match p {
        TargetPlatform::Linux => true,
        TargetPlatform::Windows => true,
        TargetPlatform::MacOS => false,
        TargetPlatform::Other => false,
    }
}

/// The note shown for a platform, if any.
pub open spec fn platform_note_text(p: TargetPlatform) -> Option<Seq<char>> {
    match p {
        TargetPlatform::Linux => None,
        TargetPlatform::Windows => Some(
            "Virtual gamepad support requires ViGEmBus driver: https://github.com/ViGEm/ViGEmBus/releases"@,
        ),
        TargetPlatform::MacOS => Some(
            "Virtual gamepad output is not yet supported on macOS (requires DriverKit approval from Apple). Keyboard/mouse remapping works."@,
        ),
        TargetPlatform::Other => Some("This platform is not supported"@),
    }
}

/// Get platform-specific notes or warnings.
pub fn platform_notes(p: TargetPlatform) -> (r: Option<&'static str>)
    ensures
        match r {
            Some(s) => platform_note_text(p) == Some(s@),
            None => platform_note_text(p) is None,
        },
{
    match p {
        TargetPlatform::Linux => None,
        TargetPlatform::Windows => Some(
            "Virtual gamepad support requires ViGEmBus driver: https://github.com/ViGEm/ViGEmBus/releases",
        ),
        TargetPlatform::MacOS => Some(
            "Virtual gamepad output is not yet supported on macOS (requires DriverKit approval from Apple). Keyboard/mouse remapping works.",
        ),
        TargetPlatform::Other => Some("This platform is not supported"),
    }
}

// ---------------------------------------------------------------------------
// Output devices
// ---------------------------------------------------------------------------

/// The kind of virtual device to create.
#[derive(Debug, Clone, Copy, PartialEq, Eq, Structural)]
pub enum OutputDeviceKind {
    /// A virtual gamepad
    Gamepad,
    /// Keyboard and mouse output
    KeyboardMouse,
}

/// The capabilities are those of a gamepad: some gamepad button
/// (codes 304 to 318) and some absolute axis.
pub open spec fn gamepad_capabilities(keys: Seq<u16>, abs_axes_count: nat) -> bool {
    (exists|i: int| 0 <= i < keys.len() && 304 <= #[trigger] keys[i] <= 318) && abs_axes_count > 0
}

/// Whether the capabilities are those of a gamepad.
pub fn has_gamepad_capabilities(caps: &DeviceCapabilities) -> (r: bool)
    ensures
        r == gamepad_capabilities(caps.keys@, caps.abs_axes@.len()),
{
    let mut i: usize = 0;
    while i < caps.keys.len()
        invariant
            0 <= i <= caps.keys@.len(),
            forall|j: int| 0 <= j < i ==> !(304 <= #[trigger] caps.keys@[j] <= 318),
        decreases caps.keys@.len() - i,
    {
        if 304 <= caps.keys[i] && caps.keys[i] <= 318 {
            return caps.abs_axes.len() > 0;
        }
        i = i + 1;
    }
    false
}

/// A mouse button.
#[derive(Debug, Clone, Copy, PartialEq, Eq, Structural)]
pub enum MouseButton {
    Left,
    Right,
    Middle,
}

/// What an output event becomes on a desktop platform.
#[derive(Debug, Clone, Copy, PartialEq, Eq, Structural)]
pub enum OutputAction {
    /// Press or release the key with this platform key code
    Key { code: u16, pressed: bool },
    /// Press or release a mouse button
    MouseButton { button: MouseButton, pressed: bool },
    /// Move the pointer by a relative amount
    MouseMove { dx: i32, dy: i32 },
    /// Turn the scroll wheels
    Scroll { vertical: i32, horizontal: i32 },
}

/// The mouse button with a kernel button code (left, right, middle).
pub open spec fn mouse_button_of(code: u16) -> Option<MouseButton> {
    if code == 272 {
        Some(MouseButton::Left)
    } else if code == 273 {
        Some(MouseButton::Right)
    } else if code == 274 {
        Some(MouseButton::Middle)
    } else {
        None
    }
}

fn mouse_button(code: u16) -> (r: Option<MouseButton>)
    ensures
        r == mouse_button_of(code),
{
    match code {
        272 => Some(MouseButton::Left),
        273 => Some(MouseButton::Right),
        274 => Some(MouseButton::Middle),
        _ => None,
    }
}

/// The Windows scan code of a kernel key code. The set-1 scan codes of the
/// keys up to F12 coincide with their kernel codes, and other codes are
/// passed on unchanged, so the conversion keeps the number.
fn evdev_key_to_scancode(evdev_code: u16) -> (r: u16)
    ensures
        r == evdev_code,
{
    evdev_code
}

/// What an event becomes on Windows: key events on the mouse button codes
/// (272 to 276) press the left, right or middle button, other key events
/// press the key of the same scan code, relative X and Y move the pointer,
/// and the wheel turns by 120 units per step. Anything else is dropped.
pub open spec fn windows_action(e: PlatformInputEvent) -> Option<OutputAction> {
    if e.event_type == 1 {
        if 272 <= e.code <= 276 {
            match mouse_button_of(e.code) {
                Some(b) => Some(OutputAction::MouseButton { button: b, pressed: e.value != 0 }),
                None => None,
            }
        } else {
            Some(OutputAction::Key { code: e.code, pressed: e.value != 0 })
        }
    } else if e.event_type == 2 {
        if e.code == 0 {
            Some(OutputAction::MouseMove { dx: e.value, dy: 0 })
        } else if e.code == 1 {
            Some(OutputAction::MouseMove { dx: 0, dy: e.value })
        } else if e.code == 8 {
            Some(OutputAction::Scroll { vertical: (e.value * 120) as i32, horizontal: 0 })
        } else {
            None
        }
    } else {
        None
    }
}

/// What an event becomes on macOS: key events on the mouse button codes
/// (272 to 276) press the left, right or middle button, other key events
/// press the key with the macOS virtual key code, relative X and Y move the
/// pointer, and the two wheels scroll. Anything else is dropped.
pub open spec fn macos_action(e: PlatformInputEvent) -> Option<OutputAction> {
    if e.event_type == 1 {
        if 272 <= e.code <= 276 {
            match mouse_button_of(e.code) {
                Some(b) => Some(OutputAction::MouseButton { button: b, pressed: e.value != 0 }),
                None => None,
            }
        } else {
            Some(OutputAction::Key { code: macos_key_code(e.code), pressed: e.value != 0 })
        }
    } else if e.event_type == 2 {
        if e.code == 0 {
            Some(OutputAction::MouseMove { dx: e.value, dy: 0 })
        } else if e.code == 1 {
            Some(OutputAction::MouseMove { dx: 0, dy: e.value })
        } else if e.code == 6 {
            Some(OutputAction::Scroll { vertical: 0, horizontal: e.value })
        } else if e.code == 8 {
            Some(OutputAction::Scroll { vertical: e.value, horizontal: 0 })
        } else {
            None
        }
    } else {
        None
    }
}

/// The message of the error refused gamepads come with on Windows.
pub open spec fn vigem_missing_text() -> Seq<char> {
    "ViGEmBus driver not installed. Please install from: https://github.com/ViGEm/ViGEmBus/releases"@
}

/// Windows output backend: ViGEm for gamepads, SendInput for keyboard and
/// mouse. Whether the ViGEm bus driver answered is found out by the caller.
#[derive(Debug)]
pub struct WindowsOutputBackend {
    pub vigem_available: bool,
}

impl WindowsOutputBackend {
    /// A backend for a system where the ViGEm bus driver is, or is not,
    /// installed.
    pub fn new(vigem_available: bool) -> (r: Self)
        ensures
            r.vigem_available == vigem_available,
    {
        WindowsOutputBackend { vigem_available }
    }

    /// The kind of virtual device to create for the capabilities: a gamepad
    /// for gamepad capabilities, which needs ViGEm, keyboard and mouse
    /// output otherwise.
    pub fn device_kind(&self, caps: &DeviceCapabilities) -> (r: Result<
        OutputDeviceKind,
        RemapperError,
    >)
        ensures
            gamepad_capabilities(caps.keys@, caps.abs_axes@.len()) ==> (if self.vigem_available {
                r == Ok::<OutputDeviceKind, RemapperError>(OutputDeviceKind::Gamepad)
            } else {
                r matches Err(RemapperError::NotSupported(m)) && m@ == vigem_missing_text()
            }),
            !gamepad_capabilities(caps.keys@, caps.abs_axes@.len()) ==> r == Ok::<
                OutputDeviceKind,
                RemapperError,
            >(OutputDeviceKind::KeyboardMouse),
    {
        if has_gamepad_capabilities(caps) {
            if !self.vigem_available {
                return Err(
                    RemapperError::NotSupported(
                        String::from_str(
                            "ViGEmBus driver not installed. Please install from: https://github.com/ViGEm/ViGEmBus/releases",
                        ),
                    ),
                );
            }
            Ok(OutputDeviceKind::Gamepad)
        } else {
            Ok(OutputDeviceKind::KeyboardMouse)
        }
    }

    /// Gamepads need ViGEm; the other kinds are always supported.
    pub fn supports_device_type(&self, device_type: DeviceType) -> (r: bool)
        ensures
            r == (device_type != DeviceType::Gamepad || self.vigem_available),
    {
        match device_type {
            DeviceType::Gamepad => self.vigem_available,
            DeviceType::Keyboard | DeviceType::Mouse => true,
            DeviceType::Other => true,
        }
    }

    /// Keyboard and mouse output is always available.
    pub fn is_available(&self) -> (r: bool)
        ensures
            r,
    {
        true
    }

    /// What is missing, when the ViGEm bus driver is.
    pub fn availability_message(&self) -> (r: Option<String>)
        ensures
            self.vigem_available ==> r is None,
            !self.vigem_available ==> (r matches Some(m) && m@
                == "ViGEmBus driver not installed. Virtual gamepad support is unavailable.\nInstall from: https://github.com/ViGEm/ViGEmBus/releases\nKeyboard/mouse output is still available."@),
    {
        if self.vigem_available {
            None
        } else {
            Some(
                String::from_str(
                    "ViGEmBus driver not installed. Virtual gamepad support is unavailable.\nInstall from: https://github.com/ViGEm/ViGEmBus/releases\nKeyboard/mouse output is still available.",
                ),
            )
        }
    }
}

/// Windows keyboard/mouse output device, fed through SendInput.
#[derive(Debug)]
pub struct WindowsKeyboardMouseDevice {
    name: String,
}

impl WindowsKeyboardMouseDevice {
    /// The device's name, as given.
    pub closed spec fn name_view(&self) -> Seq<char> {
        self.name@
    }

    /// Create a keyboard/mouse output device.
    pub fn new(name: &str) -> (r: Self)
        ensures
            r.name_view() == name@,
    {
        WindowsKeyboardMouseDevice { name: String::from_str(name) }
    }

    /// Get the device name.
    pub fn name(&self) -> (r: &str)
        ensures
            r@ == self.name_view(),
    {
        self.name.as_str()
    }

    /// What writing the event does; `None` where the event is dropped.
    pub fn action(&self, event: &PlatformInputEvent) -> (r: Option<OutputAction>)
        requires
            event.event_type == 2 && event.code == 8 ==> i32::MIN <= event.value * 120
                <= i32::MAX,
        ensures
            r == windows_action(*event),
    {
        match event.event_type {
            1 => {
                if 272 <= event.code && event.code <= 276 {
                    match mouse_button(event.code) {
                        Some(b) => Some(
                            OutputAction::MouseButton { button: b, pressed: event.value != 0 },
                        ),
                        None => None,
                    }
                } else {
                    Some(
                        OutputAction::Key {
                            code: evdev_key_to_scancode(event.code),
                            pressed: event.value != 0,
                        },
                    )
                }
            },
            2 => match event.code {
                0 => Some(OutputAction::MouseMove { dx: event.value, dy: 0 }),
                1 => Some(OutputAction::MouseMove { dx: 0, dy: event.value }),
                8 => Some(OutputAction::Scroll { vertical: event.value * 120, horizontal: 0 }),
                _ => None,
            },
            _ => None,
        }
    }
}

/// The message of the error refused gamepads come with on macOS.
pub open spec fn macos_gamepad_text() -> Seq<char> {
    "Virtual gamepad output is not yet supported on macOS. This requires DriverKit approval from Apple. Keyboard/mouse remapping is available."@
}

/// CGScrollEventUnit specifies the unit of measurement for scroll events.
#[derive(Debug, Clone, Copy, PartialEq, Eq, Structural)]
pub enum CGScrollEventUnit {
    /// Scroll amount is specified in pixels
    Pixel,
    /// Scroll amount is specified in lines (discrete scroll units)
    Line,
}

/// macOS output backend, posting Core Graphics events.
#[derive(Debug)]
pub struct MacOSOutputBackend;

impl MacOSOutputBackend {
    /// Create the backend.
    pub fn new() -> (r: Self) {
        MacOSOutputBackend
    }

    /// Keyboard and mouse output; gamepads are refused.
    pub fn device_kind(&self, caps: &DeviceCapabilities) -> (r: Result<
        OutputDeviceKind,
        RemapperError,
    >)
        ensures
            gamepad_capabilities(caps.keys@, caps.abs_axes@.len()) ==> (r matches Err(
                RemapperError::NotSupported(m),
            ) && m@ == macos_gamepad_text()),
            !gamepad_capabilities(caps.keys@, caps.abs_axes@.len()) ==> r == Ok::<
                OutputDeviceKind,
                RemapperError,
            >(OutputDeviceKind::KeyboardMouse),
    {
        if has_gamepad_capabilities(caps) {
            return Err(
                RemapperError::NotSupported(
                    String::from_str(
                        "Virtual gamepad output is not yet supported on macOS. This requires DriverKit approval from Apple. Keyboard/mouse remapping is available.",
                    ),
                ),
            );
        }
        Ok(OutputDeviceKind::KeyboardMouse)
    }

    /// Every kind but gamepads is supported.
    pub fn supports_device_type(&self, device_type: DeviceType) -> (r: bool)
        ensures
            r == (device_type != DeviceType::Gamepad),
    {
        match device_type {
            DeviceType::Keyboard | DeviceType::Mouse => true,
            DeviceType::Gamepad => false,
            DeviceType::Other => true,
        }
    }

    /// Event posting is always there (it may need accessibility rights).
    pub fn is_available(&self) -> (r: bool)
        ensures
            r,
    {
        true
    }

    /// What the user has to know: no gamepads, and the accessibility rights.
    pub fn availability_message(&self) -> (r: Option<String>)
        ensures
            r matches Some(m) && m@
                == "Virtual gamepad output requires DriverKit approval from Apple (not yet available).\nKeyboard/mouse output requires Accessibility permissions in System Preferences.\nGo to: System Preferences > Security & Privacy > Privacy > Accessibility"@,
    {
        Some(
            String::from_str(
                "Virtual gamepad output requires DriverKit approval from Apple (not yet available).\nKeyboard/mouse output requires Accessibility permissions in System Preferences.\nGo to: System Preferences > Security & Privacy > Privacy > Accessibility",
            ),
        )
    }

    /// What writing the event does on macOS; `None` where it is dropped.
    pub fn action(&self, event: &PlatformInputEvent) -> (r: Option<OutputAction>)
        ensures
            r == macos_action(*event),
    {
        match event.event_type {
            1 => {
                if 272 <= event.code && event.code <= 276 {
                    match mouse_button(event.code) {
                        Some(b) => Some(
                            OutputAction::MouseButton { button: b, pressed: event.value != 0 },
                        ),
                        None => None,
                    }
                } else {
                    Some(
                        OutputAction::Key {
                            code: evdev_key_to_macos_keycode(event.code),
                            pressed: event.value != 0,
                        },
                    )
                }
            },
            2 => match event.code {
                0 => Some(OutputAction::MouseMove { dx: event.value, dy: 0 }),
                1 => Some(OutputAction::MouseMove { dx: 0, dy: event.value }),
                6 => Some(OutputAction::Scroll { vertical: 0, horizontal: event.value }),
                8 => Some(OutputAction::Scroll { vertical: event.value, horizontal: 0 }),
                _ => None,
            },
            _ => None,
        }
    }
}

/// Linux output backend, creating devices through uinput.
#[derive(Debug)]
pub struct LinuxOutputBackend;

impl LinuxOutputBackend {
    /// Create the backend.
    pub fn new() -> (r: Self) {
        LinuxOutputBackend
    }

    /// uinput supports every kind of device.
    pub fn supports_device_type(&self, device_type: DeviceType) -> (r: bool)
        ensures
            r,
    {
        true
    }

    /// What is missing when `/dev/uinput` cannot be reached; whether it can
    /// is found out by the caller.
    pub fn availability_message(&self, uinput_available: bool) -> (r: Option<String>)
        ensures
            uinput_available ==> r is None,
            !uinput_available ==> (r matches Some(m) && m@
                == "uinput module not loaded or /dev/uinput not accessible. Try: sudo modprobe uinput"@),
    {
        if uinput_available {
            None
        } else {
            Some(
                String::from_str(
                    "uinput module not loaded or /dev/uinput not accessible. Try: sudo modprobe uinput",
                ),
            )
        }
    }
}

// ---------------------------------------------------------------------------
// Input devices
// ---------------------------------------------------------------------------

/// The list holds the code.
pub open spec fn has_code(keys: Seq<u16>, code: u16) -> bool {
    exists|i: int| 0 <= i < keys.len() && #[trigger] keys[i] == code
}

/// How a device is classified by what it reports: gamepad buttons (the
/// south button, code 304) make a gamepad; A, Z and Enter a keyboard; a
/// relative axis and the left button a mouse.
pub open spec fn classified(keys: Seq<u16>, has_rel: bool) -> DeviceType {
    if has_code(keys, 304) {
        DeviceType::Gamepad
    } else if has_code(keys, 30) && has_code(keys, 44) && has_code(keys, 28) {
        DeviceType::Keyboard
    } else if has_rel && has_code(keys, 272) {
        DeviceType::Mouse
    } else {
        DeviceType::Other
    }
}

pub(crate) fn contains_code(keys: &Vec<u16>, code: u16) -> (r: bool)
    ensures
        r == has_code(keys@, code),
{
    let mut i: usize = 0;
    while i < keys.len()
        invariant
            0 <= i <= keys@.len(),
            forall|j: int| 0 <= j < i ==> #[trigger] keys@[j] != code,
        decreases keys@.len() - i,
    {
        if keys[i] == code {
            return true;
        }
        i = i + 1;
    }
    false
}

/// Classify a device by its supported key codes and whether it reports
/// relative axes.
pub fn classify_device(keys: &Vec<u16>, has_rel: bool) -> (r: DeviceType)
    ensures
        r == classified(keys@, has_rel),
{
    if contains_code(keys, 304) {
        DeviceType::Gamepad
    } else if contains_code(keys, 30) && contains_code(keys, 44) && contains_code(keys, 28) {
        DeviceType::Keyboard
    } else if has_rel && contains_code(keys, 272) {
        DeviceType::Mouse
    } else {
        DeviceType::Other
    }
}

impl SortKey for PlatformDeviceInfo {
    open spec fn sort_key(&self) -> Seq<char> {
        self.id@
    }

    fn key_str(&self) -> (r: &str) {
        self.id.as_str()
    }
}

/// The device's name, lower-cased, contains `needle`.
pub open spec fn info_name_matches(needle: Seq<char>) -> spec_fn(PlatformDeviceInfo) -> bool {
    |d: PlatformDeviceInfo| contains_seq(lowercase(d.name@), needle)
}

/// The device has the given vendor and product.
pub open spec fn info_id_is(vendor: u16, product: u16) -> spec_fn(PlatformDeviceInfo) -> bool {
    |d: PlatformDeviceInfo| d.vendor_id == vendor && d.product_id == product
}

fn take_info(mut devices: Vec<PlatformDeviceInfo>, i: usize) -> (r: PlatformDeviceInfo)
    requires
        i < devices@.len(),
    ensures
        r == devices@[i as int],
{
    devices.swap_remove(i)
}

/// Linux input backend, reading devices through evdev. Listing the devices
/// is the caller's part; the searches take the list.
#[derive(Debug)]
pub struct LinuxInputBackend;

impl LinuxInputBackend {
    /// Create the backend.
    pub fn new() -> (r: Self) {
        LinuxInputBackend
    }

    /// The description of a device node: its path is its identifier, the
    /// name defaults to `Unknown`, the type follows from the reported codes,
    /// and such devices can be grabbed.
    pub fn device_info(
        &self,
        path: &str,
        name: Option<&str>,
        vendor: u16,
        product: u16,
        keys: &Vec<u16>,
        has_rel: bool,
    ) -> (r: PlatformDeviceInfo)
        ensures
            r.id@ == path@,
            r.name@ == match name {
                Some(n) => n@,
                None => "Unknown"@,
            },
            r.vendor_id == vendor,
            r.product_id == product,
            r.device_type == classified(keys@, has_rel),
            r.path matches Some(p) && p@ == path@,
            r.supports_grab,
    {
        PlatformDeviceInfo {
            id: String::from_str(path),
            name: match name {
                Some(n) => String::from_str(n),
                None => String::from_str("Unknown"),
            },
            vendor_id: vendor,
            product_id: product,
            device_type: classify_device(keys, has_rel),
            path: Some(String::from_str(path)),
            supports_grab: true,
        }
    }

    /// The listed devices in the order of their identifiers.
    pub fn sort_devices(&self, devices: Vec<PlatformDeviceInfo>) -> (r: Vec<PlatformDeviceInfo>)
        ensures
            sorted_by_key(r@),
            r@.to_multiset() == devices@.to_multiset(),
    {
        sort_by_key(devices)
    }

    /// The first listed device whose name, lower-cased, contains `name`
    /// lower-cased.
    pub fn find_by_name(&self, devices: Vec<PlatformDeviceInfo>, name: &str) -> (r: Option<
        PlatformDeviceInfo,
    >)
        ensures
            r == find_where(devices@, info_name_matches(lowercase(name@))),
    {
        let needle = to_lowercase(name);
        let ghost p = info_name_matches(needle@);
        let mut i: usize = 0;
        while i < devices.len()
            invariant
                0 <= i <= devices@.len(),
                needle@ == lowercase(name@),
                p == info_name_matches(needle@),
                forall|j: int| 0 <= j < i ==> !p(#[trigger] devices@[j]),
            decreases devices@.len() - i,
        {
            let lowered = to_lowercase(devices[i].name.as_str());
            if contains_str(lowered.as_str(), needle.as_str()) {
                proof {
                    lemma_first_where_unique(devices@, p, i as int);
                }
                return Some(take_info(devices, i));
            }
            i = i + 1;
        }
        proof {
            lemma_first_where_none(devices@, p);
        }
        None
    }

    /// The first listed device with the given vendor and product.
    pub fn find_by_id(&self, devices: Vec<PlatformDeviceInfo>, vendor: u16, product: u16) -> (r:
        Option<PlatformDeviceInfo>)
        ensures
            r == find_where(devices@, info_id_is(vendor, product)),
    {
        let ghost p = info_id_is(vendor, product);
        let mut i: usize = 0;
        while i < devices.len()
            invariant
                0 <= i <= devices@.len(),
                p == info_id_is(vendor, product),
                forall|j: int| 0 <= j < i ==> !p(#[trigger] devices@[j]),
            decreases devices@.len() - i,
        {
            if devices[i].vendor_id == vendor && devices[i].product_id == product {
                proof {
                    lemma_first_where_unique(devices@, p, i as int);
                }
                return Some(take_info(devices, i));
            }
            i = i + 1;
        }
        proof {
            lemma_first_where_none(devices@, p);
        }
        None
    }
}

/// The input backend of the platform this library runs on.
pub fn input_backend() -> (r: LinuxInputBackend) {
    LinuxInputBackend::new()
}

/// The output backend of the platform this library runs on.
pub fn output_backend() -> (r: LinuxOutputBackend) {
    LinuxOutputBackend::new()
}

} // verus!
