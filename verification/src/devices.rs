//! Discovered input devices and the searches over them. Listing the devices
//! is the caller's part; the functions here take the list.
use vstd::prelude::*;
use vstd::string::*;

use crate::config::DeviceMatch;
use crate::error::RemapperError;
use crate::platform::{id_pair_string, id_text, DeviceType, PlatformDeviceInfo};
use crate::search::{
    find_where, first_where, is_first_where, lemma_first_where_exists, lemma_first_where_none,
    lemma_first_where_unique,
};
use crate::backends::{contains_code, has_code};
use crate::order::{sort_by_key, sorted_by_key, SortKey};
use crate::text::{contains_seq, contains_str, starts_with, str_eq};

verus! {

/// The lower-case form of a string, as std's `str::to_lowercase` maps each
/// character by the Unicode tables.
pub uninterp spec fn lowercase(s: Seq<char>) -> Seq<char>;

/// Calls `str::to_lowercase`. Claimed: the result is `lowercase` of the
/// argument. What the lower-case mapping is (Unicode's full case mapping,
/// with its special cases) is not stated.
#[verifier::external_body]
pub(crate) fn to_lowercase(s: &str) -> (r: String)
    ensures
        r@ == lowercase(s@),
{
    s.to_lowercase()
}

/// The upper-case form of a string, as std's `str::to_uppercase` maps each
/// character by the Unicode tables.
pub uninterp spec fn uppercase(s: Seq<char>) -> Seq<char>;

/// Calls `str::to_uppercase`. Claimed: the result is `uppercase` of the
/// argument. What the upper-case mapping is (Unicode's full case mapping,
/// with its special cases) is not stated.
#[verifier::external_body]
pub(crate) fn to_uppercase(s: &str) -> (r: String)
    ensures
        r@ == uppercase(s@),
{
    s.to_uppercase()
}

/// Information about a discovered device.
#[derive(Debug)]
pub struct DeviceInfo {
    /// Device path (e.g., /dev/input/event5)
    pub path: String,
    /// Device name
    pub name: String,
    /// Physical path
    pub phys: Option<String>,
    /// Unique identifier
    pub uniq: Option<String>,
    /// Vendor ID
    pub vendor: u16,
    /// Product ID
    pub product: u16,
    /// Version
    pub version: u16,
    /// Whether this is a keyboard
    pub is_keyboard: bool,
    /// Whether this is a mouse
    pub is_mouse: bool,
    /// Whether this is a gamepad/joystick
    pub is_gamepad: bool,
}

impl Clone for DeviceInfo {
    fn clone(&self) -> (r: Self)
        ensures
            r == *self,
    {
        DeviceInfo {
            path: self.path.clone(),
            name: self.name.clone(),
            phys: match &self.phys {
                Some(s) => Some(s.clone()),
                None => None,
            },
            uniq: match &self.uniq {
                Some(s) => Some(s.clone()),
                None => None,
            },
            vendor: self.vendor,
            product: self.product,
            version: self.version,
            is_keyboard: self.is_keyboard,
            is_mouse: self.is_mouse,
            is_gamepad: self.is_gamepad,
        }
    }
}

/// The badge of a device: gamepad before keyboard before mouse.
pub open spec fn device_badge(d: DeviceInfo) -> Seq<char> {
    if d.is_gamepad {
        "[Gamepad]"@
    } else if d.is_keyboard {
        "[Keyboard]"@
    } else if d.is_mouse {
        "[Mouse]"@
    } else {
        "[Other]"@
    }
}

impl DeviceInfo {
    /// `"<badge> <name> - <path>"`.
    pub open spec fn display_text(self) -> Seq<char> {
        device_badge(self) + " "@ + self.name@ + " - "@ + self.path@
    }

    /// Get a display string for the device.
    pub fn display_name(&self) -> (r: String)
        ensures
            r@ == self.display_text(),
    {
        let mut s = if self.is_gamepad {
            String::from_str("[Gamepad]")
        } else if self.is_keyboard {
            String::from_str("[Keyboard]")
        } else if self.is_mouse {
            String::from_str("[Mouse]")
        } else {
            String::from_str("[Other]")
        };
        s.append(" ");
        s.append(self.name.as_str());
        s.append(" - ");
        s.append(self.path.as_str());
        s
    }

    /// Get vendor:product ID string.
    pub fn id_string(&self) -> (r: String)
        ensures
            r@ == id_text(self.vendor, self.product),
    {
        id_pair_string(self.vendor, self.product)
    }
}

impl SortKey for DeviceInfo {
    open spec fn sort_key(&self) -> Seq<char> {
        self.path@
    }

    fn key_str(&self) -> (r: &str) {
        self.path.as_str()
    }
}

/// How a device is classified by what it reports: the south button with
/// an absolute axis makes a gamepad; A, Z and Enter a keyboard; a relative
/// axis with the left button a mouse.
pub open spec fn classified_info(
    d: DeviceInfo,
    keys: Seq<u16>,
    has_abs: bool,
    has_rel: bool,
) -> bool {
    &&& d.is_gamepad == (has_abs && has_code(keys, 304))
    &&& d.is_keyboard == (has_code(keys, 30) && has_code(keys, 44) && has_code(keys, 28))
    &&& d.is_mouse == (has_rel && has_code(keys, 272))
}

impl DeviceInfo {
    /// The information of a device read from its node: the name defaults to
    /// `Unknown`, and the kind follows from the reported codes.
    pub fn from_parts(
        path: String,
        name: Option<String>,
        phys: Option<String>,
        uniq: Option<String>,
        vendor: u16,
        product: u16,
        version: u16,
        keys: &Vec<u16>,
        has_abs: bool,
        has_rel: bool,
    ) -> (r: Self)
        ensures
            r.path == path,
            r.name@ == match name {
                Some(n) => n@,
                None => "Unknown"@,
            },
            r.phys == phys,
            r.uniq == uniq,
            r.vendor == vendor,
            r.product == product,
            r.version == version,
            classified_info(r, keys@, has_abs, has_rel),
    {
        let is_gamepad = has_abs && contains_code(keys, 304);
        let is_keyboard = contains_code(keys, 30) && contains_code(keys, 44) && contains_code(
            keys,
            28,
        );
        let is_mouse = has_rel && contains_code(keys, 272);
        DeviceInfo {
            path,
            name: match name {
                Some(n) => n,
                None => String::from_str("Unknown"),
            },
            phys,
            uniq,
            vendor,
            product,
            version,
            is_keyboard,
            is_mouse,
            is_gamepad,
        }
    }
}

impl From<PlatformDeviceInfo> for DeviceInfo {
    fn from(info: PlatformDeviceInfo) -> (r: Self) {
        let is_keyboard = info.device_type == DeviceType::Keyboard;
        let is_mouse = info.device_type == DeviceType::Mouse;
        let is_gamepad = info.device_type == DeviceType::Gamepad;
        DeviceInfo {
            path: match info.path {
                Some(p) => p,
                None => info.id,
            },
            name: info.name,
            phys: None,
            uniq: None,
            vendor: info.vendor_id,
            product: info.product_id,
            version: 0,
            is_keyboard,
            is_mouse,
            is_gamepad,
        }
    }
}

impl vstd::std_specs::convert::FromSpecImpl<PlatformDeviceInfo> for DeviceInfo {
    open spec fn obeys_from_spec() -> bool {
        true
    }

    /// A platform description as a device: see `described_device`.
    open spec fn from_spec(info: PlatformDeviceInfo) -> DeviceInfo {
        described_device(info)
    }
}

/// A platform description as a device: its path, or its identifier where it
/// has none, and the kind from its type.
pub open spec fn described_device(info: PlatformDeviceInfo) -> DeviceInfo {
    DeviceInfo {
        path: match info.path {
            Some(p) => p,
            None => info.id,
        },
        name: info.name,
        phys: None,
        uniq: None,
        vendor: info.vendor_id,
        product: info.product_id,
        version: 0,
        is_keyboard: info.device_type == DeviceType::Keyboard,
        is_mouse: info.device_type == DeviceType::Mouse,
        is_gamepad: info.device_type == DeviceType::Gamepad,
    }
}

/// The device's name, lower-cased, contains `needle`.
pub open spec fn name_matches(needle: Seq<char>) -> spec_fn(DeviceInfo) -> bool {
    |d: DeviceInfo| contains_seq(lowercase(d.name@), needle)
}

/// The device's name is exactly `name`.
pub open spec fn name_is(name: Seq<char>) -> spec_fn(DeviceInfo) -> bool {
    |d: DeviceInfo| d.name@ == name
}

/// The device has the given vendor and product.
pub open spec fn id_is(vendor: u16, product: u16) -> spec_fn(DeviceInfo) -> bool {
    |d: DeviceInfo| d.vendor == vendor && d.product == product
}

/// The position of the first name that contains `needle`.
pub fn first_name_containing(names: &Vec<String>, needle: &str) -> (r: Option<usize>)
    ensures
        match r {
            Some(i) => first_where(names@, |n: String| contains_seq(n@, needle@)) == Some(
                i as int,
            ),
            None => first_where(names@, |n: String| contains_seq(n@, needle@)) is None,
        },
{
    let ghost p = |n: String| contains_seq(n@, needle@);
    let mut i: usize = 0;
    while i < names.len()
        invariant
            0 <= i <= names@.len(),
            p == (|n: String| contains_seq(n@, needle@)),
            forall|j: int| 0 <= j < i ==> !p(#[trigger] names@[j]),
        decreases names@.len() - i,
    {
        if contains_str(names[i].as_str(), needle) {
            proof {
                lemma_first_where_unique(names@, p, i as int);
            }
            return Some(i);
        }
        i = i + 1;
    }
    proof {
        lemma_first_where_none(names@, p);
    }
    None
}

/// Moves the element at position `i` out of a list.
fn take_at(mut devices: Vec<DeviceInfo>, i: usize) -> (r: DeviceInfo)
    requires
        i < devices@.len(),
    ensures
        r == devices@[i as int],
{
    devices.swap_remove(i)
}

/// Device manager: searches over the discovered devices.
pub struct DeviceManager;

impl DeviceManager {
    /// Find a device by name: the first whose name, lower-cased, contains
    /// `name` lower-cased.
    pub fn find_by_name(devices: Vec<DeviceInfo>, name: &str) -> (r: Option<DeviceInfo>)
        ensures
            r == find_where(devices@, name_matches(lowercase(name@))),
    {
        let needle = to_lowercase(name);
        let mut names: Vec<String> = Vec::new();
        let mut i: usize = 0;
        while i < devices.len()
            invariant
                0 <= i <= devices@.len(),
                names@.len() == i,
                forall|j: int| 0 <= j < i ==> (#[trigger] names@[j])@ == lowercase(devices@[j].name@),
            decreases devices@.len() - i,
        {
            names.push(to_lowercase(devices[i].name.as_str()));
            i = i + 1;
        }
        let ghost p = name_matches(lowercase(name@));
        let ghost q = |n: String| contains_seq(n@, needle@);
        assert forall|j: int| 0 <= j < devices@.len() implies p(devices@[j]) == q(
            #[trigger] names@[j],
        ) by {}
        match first_name_containing(&names, needle.as_str()) {
            Some(k) => {
                proof {
                    assert(is_first_where(names@, q, k as int));
                    assert forall|j: int| 0 <= j < k implies !p(#[trigger] devices@[j]) by {
                        assert(!q(names@[j]));
                    }
                    assert(p(devices@[k as int])) by {
                        assert(q(names@[k as int]));
                    }
                    lemma_first_where_unique(devices@, p, k as int);
                }
                Some(take_at(devices, k))
            },
            None => {
                proof {
                    assert forall|j: int| 0 <= j < devices@.len() implies !p(
                        #[trigger] devices@[j],
                    ) by {
                        if q(names@[j]) {
                            lemma_first_where_exists(names@, q, j);
                        }
                    }
                    lemma_first_where_none(devices@, p);
                }
                None
            },
        }
    }
    /// Find a device by exact name: the first with that name.
    pub fn find_by_exact_name(devices: Vec<DeviceInfo>, name: &str) -> (r: Option<DeviceInfo>)
        ensures
            r == find_where(devices@, name_is(name@)),
    {
        let ghost p = name_is(name@);
        let mut i: usize = 0;
        while i < devices.len()
            invariant
                0 <= i <= devices@.len(),
                p == name_is(name@),
                forall|j: int| 0 <= j < i ==> !p(#[trigger] devices@[j]),
            decreases devices@.len() - i,
        {
            if str_eq(devices[i].name.as_str(), name) {
                proof {
                    lemma_first_where_unique(devices@, p, i as int);
                }
                return Some(take_at(devices, i));
            }
            i = i + 1;
        }
        proof {
            lemma_first_where_none(devices@, p);
        }
        None
    }

    /// Find a device by vendor and product ID: the first with both.
    pub fn find_by_id(devices: Vec<DeviceInfo>, vendor: u16, product: u16) -> (r: Option<
        DeviceInfo,
    >)
        ensures
            r == find_where(devices@, id_is(vendor, product)),
    {
        let ghost p = id_is(vendor, product);
        let mut i: usize = 0;
        while i < devices.len()
            invariant
                0 <= i <= devices@.len(),
                p == id_is(vendor, product),
                forall|j: int| 0 <= j < i ==> !p(#[trigger] devices@[j]),
            decreases devices@.len() - i,
        {
            if devices[i].vendor == vendor && devices[i].product == product {
                proof {
                    lemma_first_where_unique(devices@, p, i as int);
                }
                return Some(take_at(devices, i));
            }
            i = i + 1;
        }
        proof {
            lemma_first_where_none(devices@, p);
        }
        None
    }

    /// The devices a backend lists, as device descriptions, in the order
    /// listed.
    pub fn list_devices(devices: Vec<PlatformDeviceInfo>) -> (r: Vec<DeviceInfo>)
        ensures
            r@.len() == devices@.len(),
            forall|i: int|
                0 <= i < devices@.len() ==> #[trigger] r@[i] == described_device(devices@[i]),
    {
        let mut out: Vec<DeviceInfo> = Vec::new();
        let mut i: usize = 0;
        while i < devices.len()
            invariant
                0 <= i <= devices@.len(),
                out@.len() == i,
                forall|j: int|
                    0 <= j < i ==> #[trigger] out@[j] == described_device(devices@[j]),
            decreases devices@.len() - i,
        {
            let d = DeviceInfo::from(devices[i].clone());
            out.push(d);
            i = i + 1;
        }
        out
    }

    /// The listed devices in the order of their paths.
    pub fn sort_devices(devices: Vec<DeviceInfo>) -> (r: Vec<DeviceInfo>)
        ensures
            sorted_by_key(r@),
            r@.to_multiset() == devices@.to_multiset(),
    {
        sort_by_key(devices)
    }

    /// List only gamepad devices, in order.
    pub fn list_gamepads(devices: Vec<DeviceInfo>) -> (r: Vec<DeviceInfo>)
        ensures
            r@ == devices@.filter(is_kind(DeviceKind::Gamepad)),
    {
        keep_kind(&devices, DeviceKind::Gamepad)
    }

    /// List only keyboard devices, in order.
    pub fn list_keyboards(devices: Vec<DeviceInfo>) -> (r: Vec<DeviceInfo>)
        ensures
            r@ == devices@.filter(is_kind(DeviceKind::Keyboard)),
    {
        keep_kind(&devices, DeviceKind::Keyboard)
    }

    /// List only mouse devices, in order.
    pub fn list_mice(devices: Vec<DeviceInfo>) -> (r: Vec<DeviceInfo>)
        ensures
            r@ == devices@.filter(is_kind(DeviceKind::Mouse)),
    {
        keep_kind(&devices, DeviceKind::Mouse)
    }
}

/// A kind of device to keep when filtering a device list.
#[derive(Debug, Clone, Copy, PartialEq, Eq, Structural)]
pub enum DeviceKind {
    Gamepad,
    Keyboard,
    Mouse,
}

/// Whether a device is of a kind.
pub open spec fn is_kind(kind: DeviceKind) -> spec_fn(DeviceInfo) -> bool {
    |d: DeviceInfo|
        match kind {
            DeviceKind::Gamepad => d.is_gamepad,
            DeviceKind::Keyboard => d.is_keyboard,
            DeviceKind::Mouse => d.is_mouse,
        }
}

/// Whether a device is of a kind.
pub fn device_is_kind(d: &DeviceInfo, kind: DeviceKind) -> (r: bool)
    ensures
        r == is_kind(kind)(*d),
{
    match kind {
        DeviceKind::Gamepad => d.is_gamepad,
        DeviceKind::Keyboard => d.is_keyboard,
        DeviceKind::Mouse => d.is_mouse,
    }
}

/// The devices of a kind, in order.
pub fn keep_kind(devices: &Vec<DeviceInfo>, kind: DeviceKind) -> (r: Vec<DeviceInfo>)
    ensures
        r@ == devices@.filter(is_kind(kind)),
{
    let ghost p = is_kind(kind);
    let mut out: Vec<DeviceInfo> = Vec::new();
    let mut i: usize = 0;
    while i < devices.len()
        invariant
            0 <= i <= devices@.len(),
            p == is_kind(kind),
            out@ == devices@.take(i as int).filter(p),
        decreases devices@.len() - i,
    {
        proof {
            devices@.take(i as int).lemma_filter_push(devices@[i as int], p);
            assert(devices@.take(i + 1) =~= devices@.take(i as int).push(devices@[i as int]));
        }
        if device_is_kind(&devices[i], kind) {
            out.push(devices[i].clone());
        }
        i = i + 1;
    }
    assert(devices@.take(devices@.len() as int) =~= devices@);
    out
}

impl DeviceMatch {
    /// Resolve this match to a device path: a path match gives its path when
    /// the path exists; a name or identifier match gives the path of the first
    /// device of `devices` that it matches.
    pub fn resolve(&self, path_exists: bool, devices: Vec<DeviceInfo>) -> (r: Result<
        String,
        RemapperError,
    >)
        ensures
            match *self {
                DeviceMatch::Path { path } => if path_exists {
                    r == Ok::<String, RemapperError>(path)
                } else {
                    r matches Err(RemapperError::DeviceNotFound(m)) && m@ == path@
                },
                DeviceMatch::Name { name } => match find_where(
                    devices@,
                    name_matches(lowercase(name@)),
                ) {
                    Some(d) => r == Ok::<String, RemapperError>(d.path),
                    None => r matches Err(RemapperError::DeviceNotFound(m)) && m@ == name@,
                },
                DeviceMatch::Id { vendor, product, .. } => match find_where(
                    devices@,
                    id_is(vendor, product),
                ) {
                    Some(d) => r == Ok::<String, RemapperError>(d.path),
                    None => r matches Err(RemapperError::DeviceNotFound(m)) && m@ == id_text(
                        vendor,
                        product,
                    ),
                },
            },
    {
        match self {
            DeviceMatch::Path { path } => {
                if path_exists {
                    Ok(path.clone())
                } else {
                    Err(RemapperError::DeviceNotFound(path.clone()))
                }
            },
            DeviceMatch::Name { name } => match DeviceManager::find_by_name(devices, name.as_str()) {
                Some(d) => Ok(d.path),
                None => Err(RemapperError::DeviceNotFound(name.clone())),
            },
            DeviceMatch::Id { vendor, product, .. } => match DeviceManager::find_by_id(
                devices,
                *vendor,
                *product,
            ) {
                Some(d) => Ok(d.path),
                None => Err(RemapperError::DeviceNotFound(id_pair_string(*vendor, *product))),
            },
        }
    }
}

/// Information about an opened input device.
#[derive(Debug, Clone)]
pub struct InputDeviceInfo {
    /// Device path (e.g., /dev/input/event5)
    pub path: String,
    /// Device name
    pub name: String,
    /// Physical path
    pub phys: Option<String>,
    /// Unique identifier
    pub uniq: Option<String>,
    /// Vendor ID
    pub vendor: u16,
    /// Product ID
    pub product: u16,
    /// Version
    pub version: u16,
}

/// A change under the device directory.
#[derive(Debug)]
pub enum DeviceEvent {
    /// A new device was connected
    Added(DeviceInfo),
    /// A device was disconnected
    Removed(String),
}

/// Where a watcher of the device directory looks next.
#[derive(Debug)]
pub enum MonitorStep {
    /// A node was created: describe the device at this path
    LookUp(String),
    /// A node was deleted: report the device at this path removed
    Report(DeviceEvent),
}

/// The node an entry of the device directory names: only the event nodes
/// count.
pub open spec fn event_node(name: Seq<char>) -> Option<Seq<char>> {
    if "event"@.is_prefix_of(name) {
        Some("/dev/input/"@ + name)
    } else {
        None
    }
}

/// What a watcher does with a change under the device directory: an event
/// node that was created is looked up, one that was deleted is reported
/// removed; other entries, and changes of another kind, are ignored.
pub fn monitor_step(name: &str, created: bool, deleted: bool) -> (r: Option<MonitorStep>)
    ensures
        match event_node(name@) {
            None => r is None,
            Some(p) => if created {
                r matches Some(MonitorStep::LookUp(q)) && q@ == p
            } else if deleted {
                r matches Some(MonitorStep::Report(DeviceEvent::Removed(q))) && q@ == p
            } else {
                r is None
            },
        },
{
    if !starts_with(name, "event") {
        return None;
    }
    let mut path = String::from_str("/dev/input/");
    path.append(name);
    if created {
        Some(MonitorStep::LookUp(path))
    } else if deleted {
        Some(MonitorStep::Report(DeviceEvent::Removed(path)))
    } else {
        None
    }
}

/// The device a waiter was waiting for, when a change brings it: an added
/// device whose name, lower-cased, contains the name waited for, lower-cased.
pub fn awaited_device(event: DeviceEvent, name: &str) -> (r: Option<DeviceInfo>)
    ensures
        match event {
            DeviceEvent::Added(d) => if contains_seq(lowercase(d.name@), lowercase(name@)) {
                r == Some(d)
            } else {
                r is None
            },
            DeviceEvent::Removed(_) => r is None,
        },
{
    match event {
        DeviceEvent::Added(d) => {
            let wanted = to_lowercase(name);
            let have = to_lowercase(d.name.as_str());
            if contains_str(have.as_str(), wanted.as_str()) {
                Some(d)
            } else {
                None
            }
        },
        DeviceEvent::Removed(_) => None,
    }
}

} // verus!
