//! Platform-neutral device and event descriptions that the backends exchange
//! with the rest of the program.
use vstd::prelude::*;
use vstd::string::*;

use crate::clock::unix_time_now_micros;
use crate::text::{hex4, push_hex4};

verus! {

/// Device type enumeration.
#[derive(Debug, Clone, Copy, PartialEq, Eq, Hash, Structural)]
pub enum DeviceType {
    /// Keyboard device
    Keyboard,
    /// Mouse/pointing device
    Mouse,
    /// Gamepad/joystick device
    Gamepad,
    /// Unknown or other device type
    Other,
}

/// The badge shown in front of a device of the given type.
pub open spec fn device_type_badge(t: DeviceType) -> Seq<char> {
    match t {
        DeviceType::Keyboard => "[Keyboard]"@,
        DeviceType::Mouse => "[Mouse]"@,
        DeviceType::Gamepad => "[Gamepad]"@,
        DeviceType::Other => "[Other]"@,
    }
}

/// `vvvv:pppp`, vendor and product as four lower-case hexadecimal digits each.
pub open spec fn id_text(vendor: u16, product: u16) -> Seq<char> {
    hex4(vendor) + ":"@ + hex4(product)
}

/// Renders a vendor and product identifier pair as `vvvv:pppp`.
pub fn id_pair_string(vendor: u16, product: u16) -> (r: String)
    ensures
        r@ == id_text(vendor, product),
{
    let mut s = String::new();
    push_hex4(&mut s, vendor);
    s.append(":");
    push_hex4(&mut s, product);
    assert(s@ =~= id_text(vendor, product));
    s
}

/// Platform-agnostic device information.
#[derive(Debug)]
pub struct PlatformDeviceInfo {
    /// Unique identifier for the device (path on Linux, instance ID on Windows)
    pub id: String,
    /// Human-readable device name
    pub name: String,
    /// Vendor ID
    pub vendor_id: u16,
    /// Product ID
    pub product_id: u16,
    /// Device type
    pub device_type: DeviceType,
    /// Platform-specific path (if applicable)
    pub path: Option<String>,
    /// Whether this device supports being grabbed (exclusive access)
    pub supports_grab: bool,
}

impl Clone for PlatformDeviceInfo {
    fn clone(&self) -> (r: Self)
        ensures
            r == *self,
    {
        PlatformDeviceInfo {
            id: self.id.clone(),
            name: self.name.clone(),
            vendor_id: self.vendor_id,
            product_id: self.product_id,
            device_type: self.device_type,
            path: match &self.path {
                Some(p) => Some(p.clone()),
                None => None,
            },
            supports_grab: self.supports_grab,
        }
    }
}

impl PlatformDeviceInfo {
    /// `"<badge> <name> - <id>"`.
    pub open spec fn display_text(self) -> Seq<char> {
        device_type_badge(self.device_type) + " "@ + self.name@ + " - "@ + self.id@
    }

    /// Get a display string for the device.
    pub fn display_name(&self) -> (r: String)
        ensures
            r@ == self.display_text(),
    {
        let mut s = match self.device_type {
            DeviceType::Keyboard => String::from_str("[Keyboard]"),
            DeviceType::Mouse => String::from_str("[Mouse]"),
            DeviceType::Gamepad => String::from_str("[Gamepad]"),
            DeviceType::Other => String::from_str("[Other]"),
        };
        s.append(" ");
        s.append(self.name.as_str());
        s.append(" - ");
        s.append(self.id.as_str());
        s
    }

    /// Get vendor:product ID string.
    pub fn id_string(&self) -> (r: String)
        ensures
            r@ == id_text(self.vendor_id, self.product_id),
    {
        id_pair_string(self.vendor_id, self.product_id)
    }
}

/// Absolute axis information.
#[derive(Debug, Clone, Copy)]
pub struct AbsAxisInfo {
    /// Axis code
    pub code: u16,
    /// Current value
    pub value: i32,
    /// Minimum value
    pub minimum: i32,
    /// Maximum value
    pub maximum: i32,
    /// Fuzz value (noise threshold)
    pub fuzz: i32,
    /// Flat value (dead zone)
    pub flat: i32,
    /// Resolution (units per mm or radian)
    pub resolution: i32,
}

/// Device capabilities for creating virtual output devices.
#[derive(Debug)]
pub struct DeviceCapabilities {
    /// Supported key/button codes
    pub keys: Vec<u16>,
    /// Supported absolute axis codes with their info
    pub abs_axes: Vec<AbsAxisInfo>,
    /// Supported relative axis codes
    pub rel_axes: Vec<u16>,
}

impl Default for DeviceCapabilities {
    fn default() -> (r: Self)
        ensures
            r.keys@.len() == 0,
            r.abs_axes@.len() == 0,
            r.rel_axes@.len() == 0,
    {
        DeviceCapabilities { keys: Vec::new(), abs_axes: Vec::new(), rel_axes: Vec::new() }
    }
}

/// Platform-agnostic input event.
#[derive(Debug, Clone, Copy)]
pub struct PlatformInputEvent {
    /// Event type (0=sync, 1=key, 2=relative, 3=absolute, etc.)
    pub event_type: u16,
    /// Event code
    pub code: u16,
    /// Event value
    pub value: i32,
    /// Timestamp in microseconds
    pub timestamp_us: u64,
}

impl PlatformInputEvent {
    /// Create a new platform input event stamped with the current time.
    pub fn new(event_type: u16, code: u16, value: i32) -> (r: Self)
        ensures
            r.event_type == event_type,
            r.code == code,
            r.value == value,
    {
        PlatformInputEvent { event_type, code, value, timestamp_us: unix_time_now_micros() }
    }

    /// Check if this is a sync event.
    pub fn is_sync(&self) -> (r: bool)
        ensures
            r == (self.event_type == 0),
    {
        self.event_type == 0
    }

    /// Check if this is a key event.
    pub fn is_key(&self) -> (r: bool)
        ensures
            r == (self.event_type == 1),
    {
        self.event_type == 1
    }

    /// Check if this is a key press.
    pub fn is_key_press(&self) -> (r: bool)
        ensures
            r == (self.event_type == 1 && self.value == 1),
    {
        self.is_key() && self.value == 1
    }

    /// Check if this is a key release.
    pub fn is_key_release(&self) -> (r: bool)
        ensures
            r == (self.event_type == 1 && self.value == 0),
    {
        self.is_key() && self.value == 0
    }

    /// Create a sync event.
    pub fn sync() -> (r: Self)
        ensures
            r.event_type == 0 && r.code == 0 && r.value == 0,
    {
        Self::new(0, 0, 0)
    }

    /// Create a key press event.
    pub fn key_press(code: u16) -> (r: Self)
        ensures
            r.event_type == 1 && r.code == code && r.value == 1,
    {
        Self::new(1, code, 1)
    }

    /// Create a key release event.
    pub fn key_release(code: u16) -> (r: Self)
        ensures
            r.event_type == 1 && r.code == code && r.value == 0,
    {
        Self::new(1, code, 0)
    }
}

/// Device change events for hotplug monitoring.
#[derive(Debug)]
pub enum DeviceChangeEvent {
    /// A new device was connected
    Added(PlatformDeviceInfo),
    /// A device was disconnected
    Removed(String),
}

} // verus!
