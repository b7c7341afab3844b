//! Migration from the version-1 configuration format, in which each remap
//! names an input device path and maps numeric codes to numeric codes.
//!
//! Reading the JSON text into the plain values below is the caller's part.
use vstd::prelude::*;
use vstd::string::*;

use crate::config::{
    Config, DeviceMatch, ExecutionMode, Mapping, OutputConfig, Profile, Settings, CONFIG_VERSION,
};
use crate::error::RemapperError;
use crate::events::{EventCode, EventType};
use crate::keycodes::{
    key_code_of_name, law_key_names_read_to_codes_1, law_key_names_read_to_codes_2,
    law_key_names_read_to_codes_3, law_key_names_read_to_codes_4, law_key_names_read_to_codes_5,
    law_key_names_read_to_codes_6, law_key_names_read_to_codes_7, law_key_names_read_to_codes_8,
};
use crate::mappings::{key_code_or_number, number_code, parse_number_code};
use crate::text::{dec_str, push_dec};

verus! {

/// One remap of a version-1 configuration, as far as migration reads it.
#[derive(Debug, Clone)]
pub struct V1Remap {
    /// `input_device`, when present and a string
    pub input_device: Option<String>,
    /// `output_device_name`, when present and a string
    pub output_device_name: Option<String>,
    /// `grab`, when present and a boolean
    pub grab: Option<bool>,
    /// `event_map`, when present and an object: each entry's key, and its
    /// value when that is an integer that fits in 64 signed bits
    pub event_map: Option<Vec<(String, Option<i64>)>>,
    /// `name`, when present and a string
    pub name: Option<String>,
}

/// A version-1 configuration, as far as migration reads it.
#[derive(Debug, Clone)]
pub struct V1Config {
    /// `remaps`, when present and an array
    pub remaps: Option<Vec<V1Remap>>,
}

/// The key name that a version-1 numeric code is migrated to; codes without
/// a name of their own read `KEY_<n>`.
pub open spec fn migrated_code_name(code: u16) -> Seq<char> {
    if code == 304 {
        "BTN_SOUTH"@
    } else if code == 305 {
        "BTN_EAST"@
    } else if code == 306 {
        "BTN_C"@
    } else if code == 307 {
        "BTN_NORTH"@
    } else if code == 308 {
        "BTN_WEST"@
    } else if code == 309 {
        "BTN_Z"@
    } else if code == 310 {
        "BTN_TL"@
    } else if code == 311 {
        "BTN_TR"@
    } else if code == 312 {
        "BTN_TL2"@
    } else if code == 313 {
        "BTN_TR2"@
    } else if code == 314 {
        "BTN_SELECT"@
    } else if code == 315 {
        "BTN_START"@
    } else if code == 316 {
        "BTN_MODE"@
    } else if code == 317 {
        "BTN_THUMBL"@
    } else if code == 318 {
        "BTN_THUMBR"@
    } else if code == 544 {
        "BTN_DPAD_UP"@
    } else if code == 545 {
        "BTN_DPAD_DOWN"@
    } else if code == 546 {
        "BTN_DPAD_LEFT"@
    } else if code == 547 {
        "BTN_DPAD_RIGHT"@
    } else if code == 272 {
        "BTN_LEFT"@
    } else if code == 273 {
        "BTN_RIGHT"@
    } else if code == 274 {
        "BTN_MIDDLE"@
    } else if code == 275 {
        "BTN_SIDE"@
    } else if code == 276 {
        "BTN_EXTRA"@
    } else if code == 1 {
        "KEY_ESC"@
    } else if code == 2 {
        "KEY_1"@
    } else if code == 3 {
        "KEY_2"@
    } else if code == 4 {
        "KEY_3"@
    } else if code == 5 {
        "KEY_4"@
    } else if code == 6 {
        "KEY_5"@
    } else if code == 7 {
        "KEY_6"@
    } else if code == 8 {
        "KEY_7"@
    } else if code == 9 {
        "KEY_8"@
    } else if code == 10 {
        "KEY_9"@
    } else if code == 11 {
        "KEY_0"@
    } else if code == 14 {
        "KEY_BACKSPACE"@
    } else if code == 15 {
        "KEY_TAB"@
    } else if code == 28 {
        "KEY_ENTER"@
    } else if code == 29 {
        "KEY_LEFTCTRL"@
    } else if code == 42 {
        "KEY_LEFTSHIFT"@
    } else if code == 54 {
        "KEY_RIGHTSHIFT"@
    } else if code == 56 {
        "KEY_LEFTALT"@
    } else if code == 57 {
        "KEY_SPACE"@
    } else if code == 97 {
        "KEY_RIGHTCTRL"@
    } else if code == 100 {
        "KEY_RIGHTALT"@
    } else if code == 125 {
        "KEY_LEFTMETA"@
    } else if code == 126 {
        "KEY_RIGHTMETA"@
    } else {
        "KEY_"@ + dec_str(code as nat)
    }
}

/// Convert a numeric event code to a named code, for the common gamepad,
/// mouse and keyboard codes.
pub fn code_number_to_name(code: u16) -> (r: String)
    ensures
        r@ == migrated_code_name(code),
{
    match code {
        304 => String::from_str("BTN_SOUTH"),
        305 => String::from_str("BTN_EAST"),
        306 => String::from_str("BTN_C"),
        307 => String::from_str("BTN_NORTH"),
        308 => String::from_str("BTN_WEST"),
        309 => String::from_str("BTN_Z"),
        310 => String::from_str("BTN_TL"),
        311 => String::from_str("BTN_TR"),
        312 => String::from_str("BTN_TL2"),
        313 => String::from_str("BTN_TR2"),
        314 => String::from_str("BTN_SELECT"),
        315 => String::from_str("BTN_START"),
        316 => String::from_str("BTN_MODE"),
        317 => String::from_str("BTN_THUMBL"),
        318 => String::from_str("BTN_THUMBR"),
        544 => String::from_str("BTN_DPAD_UP"),
        545 => String::from_str("BTN_DPAD_DOWN"),
        546 => String::from_str("BTN_DPAD_LEFT"),
        547 => String::from_str("BTN_DPAD_RIGHT"),
        272 => String::from_str("BTN_LEFT"),
        273 => String::from_str("BTN_RIGHT"),
        274 => String::from_str("BTN_MIDDLE"),
        275 => String::from_str("BTN_SIDE"),
        276 => String::from_str("BTN_EXTRA"),
        1 => String::from_str("KEY_ESC"),
        2 => String::from_str("KEY_1"),
        3 => String::from_str("KEY_2"),
        4 => String::from_str("KEY_3"),
        5 => String::from_str("KEY_4"),
        6 => String::from_str("KEY_5"),
        7 => String::from_str("KEY_6"),
        8 => String::from_str("KEY_7"),
        9 => String::from_str("KEY_8"),
        10 => String::from_str("KEY_9"),
        11 => String::from_str("KEY_0"),
        14 => String::from_str("KEY_BACKSPACE"),
        15 => String::from_str("KEY_TAB"),
        28 => String::from_str("KEY_ENTER"),
        29 => String::from_str("KEY_LEFTCTRL"),
        42 => String::from_str("KEY_LEFTSHIFT"),
        54 => String::from_str("KEY_RIGHTSHIFT"),
        56 => String::from_str("KEY_LEFTALT"),
        57 => String::from_str("KEY_SPACE"),
        97 => String::from_str("KEY_RIGHTCTRL"),
        100 => String::from_str("KEY_RIGHTALT"),
        125 => String::from_str("KEY_LEFTMETA"),
        126 => String::from_str("KEY_RIGHTMETA"),
        _ => {
            let mut s = String::from_str("KEY_");
            push_dec(&mut s, code as u64);
            s
        },
    }
}

/// The entries of a remap's event map; none when it has no map.
pub open spec fn event_entries(r: V1Remap) -> Seq<(String, Option<i64>)> {
    match r.event_map {
        Some(m) => m@,
        None => Seq::empty(),
    }
}

/// An event-map entry can be migrated: its key is a decimal 16-bit number
/// and its value an integer.
pub open spec fn entry_ok(e: (String, Option<i64>)) -> bool {
    number_code(e.0@) is Some && e.1 is Some
}

/// The message given for an entry that cannot be migrated.
pub open spec fn entry_error_text(e: (String, Option<i64>)) -> Seq<char> {
    if number_code(e.0@) is None {
        "Invalid event code: "@ + e.0@
    } else {
        "Invalid target event code"@
    }
}

/// `m` is the simple mapping that entry `e` migrates to: key names for the
/// source number and for the target cut to 16 bits.
pub open spec fn migrated_mapping(e: (String, Option<i64>), m: Mapping) -> bool {
    m matches Mapping::Simple { from, to } && {
        &&& from.event_type == EventType::Key
        &&& to.event_type == EventType::Key
        &&& from.code@ == migrated_code_name(number_code(e.0@)->0)
        &&& to.code@ == migrated_code_name(e.1->0 as u16)
    }
}

/// The name a migrated remap gets: its own, or `Profile <position + 1>`.
pub open spec fn migrated_name(r: V1Remap, idx: nat) -> Seq<char> {
    match r.name {
        Some(n) => n@,
        None => "Profile "@ + dec_str(idx + 1),
    }
}

/// The remap can be migrated: it names an input device and every entry of
/// its event map can be migrated.
pub open spec fn remap_ok(r: V1Remap) -> bool {
    &&& r.input_device is Some
    &&& forall|i: int|
        0 <= i < event_entries(r).len() ==> entry_ok(#[trigger] event_entries(r)[i])
}

/// `m` is the message of the error that migrating the remap gives.
pub open spec fn remap_error(r: V1Remap, m: Seq<char>) -> bool {
    if r.input_device is None {
        m == "Missing input_device in remap"@
    } else {
        exists|i: int|
            0 <= i < event_entries(r).len() && !entry_ok(#[trigger] event_entries(r)[i]) && (
            forall|j: int| 0 <= j < i ==> entry_ok(#[trigger] event_entries(r)[j]))
                && m == entry_error_text(event_entries(r)[i])
    }
}

/// `e` is the error that migrating the remap gives.
pub open spec fn remap_failure(r: V1Remap, e: RemapperError) -> bool {
    e matches RemapperError::ConfigParseError(m) && remap_error(r, m@)
}

/// `p` is the profile that the remap at position `idx` migrates to.
pub open spec fn migrated_profile(r: V1Remap, idx: nat, p: Profile) -> bool {
    &&& p.name@ == migrated_name(r, idx)
    &&& p.enabled
    &&& p.input_device matches DeviceMatch::Path { path } && path@ == r.input_device->0@
    &&& p.output_device.name == r.output_device_name
    &&& p.grab == match r.grab {
        Some(g) => g,
        None => false,
    }
    &&& p.mappings@.len() == event_entries(r).len()
    &&& forall|i: int|
        0 <= i < p.mappings@.len() ==> migrated_mapping(
            event_entries(r)[i],
            #[trigger] p.mappings@[i],
        )
}

/// Migrate a single version-1 remap entry to a profile.
pub fn migrate_v1_remap(remap: &V1Remap, idx: usize) -> (r: Result<Profile, RemapperError>)
    requires
        idx < usize::MAX,
    ensures
        match r {
            Ok(p) => remap_ok(*remap) && migrated_profile(*remap, idx as nat, p),
            Err(e) => !remap_ok(*remap) && remap_failure(*remap, e),
        },
{
    let input_device = match &remap.input_device {
        Some(path) => DeviceMatch::by_path(path.as_str()),
        None => {
            return Err(
                RemapperError::ConfigParseError(String::from_str("Missing input_device in remap")),
            );
        },
    };
    let output_name = match &remap.output_device_name {
        Some(n) => Some(n.clone()),
        None => None,
    };
    let grab = match remap.grab {
        Some(g) => g,
        None => false,
    };
    let mut mappings: Vec<Mapping> = Vec::new();
    match &remap.event_map {
        Some(entries) => {
            let mut i: usize = 0;
            while i < entries.len()
                invariant
                    remap.event_map == Some(*entries),
                    remap.input_device is Some,
                    0 <= i <= entries@.len(),
                    mappings@.len() == i,
                    forall|j: int| 0 <= j < i ==> entry_ok(#[trigger] entries@[j]),
                    forall|j: int|
                        0 <= j < i ==> migrated_mapping(entries@[j], #[trigger] mappings@[j]),
                decreases entries@.len() - i,
            {
                let from_num = match parse_number_code(entries[i].0.as_str()) {
                    Some(n) => n,
                    None => {
                        let mut msg = String::from_str("Invalid event code: ");
                        msg.append(entries[i].0.as_str());
                        assert(!entry_ok(event_entries(*remap)[i as int]));
                        return Err(RemapperError::ConfigParseError(msg));
                    },
                };
                let to_num: u16 = match entries[i].1 {
                    Some(v) => #[verifier::truncate] (v as u16),
                    None => {
                        assert(!entry_ok(event_entries(*remap)[i as int]));
                        return Err(
                            RemapperError::ConfigParseError(
                                String::from_str("Invalid target event code"),
                            ),
                        );
                    },
                };
                let from_name = code_number_to_name(from_num);
                let to_name = code_number_to_name(to_num);
                let m = Mapping::simple(
                    EventCode::key(from_name.as_str()),
                    EventCode::key(to_name.as_str()),
                );
                mappings.push(m);
                i = i + 1;
            }
        },
        None => {},
    }
    let name = match &remap.name {
        Some(n) => n.clone(),
        None => {
            let mut s = String::from_str("Profile ");
            push_dec(&mut s, (idx + 1) as u64);
            s
        },
    };
    Ok(
        Profile {
            name,
            enabled: true,
            input_device,
            output_device: OutputConfig { name: output_name },
            grab,
            mappings,
        },
    )
}

/// What migrating a version-1 configuration gives: one profile per remap,
/// in order, with default settings and the current version; the first remap
/// that cannot be migrated gives the error.
pub open spec fn migrated_to(v1: V1Config, r: Result<Config, RemapperError>) -> bool {
    match r {
        Ok(c) => {
            &&& v1.remaps is Some
            &&& c.version == CONFIG_VERSION
            &&& c.settings.log_level@ == "info"@
            &&& !c.settings.auto_start
            &&& c.settings.hotplug_enabled
            &&& c.settings.execution_mode == ExecutionMode::BackgroundThread
            &&& c.profiles@.len() == v1.remaps->0@.len()
            &&& forall|i: int|
                0 <= i < c.profiles@.len() ==> remap_ok(v1.remaps->0@[i]) && migrated_profile(
                    v1.remaps->0@[i],
                    i as nat,
                    #[trigger] c.profiles@[i],
                )
        },
        Err(e) => match v1.remaps {
            None => e matches RemapperError::ConfigParseError(m) && m@
                == "Missing 'remaps' array"@,
            Some(rs) => exists|i: int|
                0 <= i < rs@.len() && !remap_ok(#[trigger] rs@[i]) && (forall|j: int|
                    0 <= j < i ==> remap_ok(#[trigger] rs@[j])) && remap_failure(rs@[i], e),
        },
    }
}

/// Migrate a version-1 configuration, as `migrated_to` describes.
pub fn migrate_v1_config(v1: &V1Config) -> (r: Result<Config, RemapperError>)
    ensures
        migrated_to(*v1, r),
{
    let remaps = match &v1.remaps {
        Some(rs) => rs,
        None => {
            return Err(RemapperError::ConfigParseError(String::from_str("Missing 'remaps' array")));
        },
    };
    let mut profiles: Vec<Profile> = Vec::new();
    let mut i: usize = 0;
    while i < remaps.len()
        invariant
            v1.remaps == Some(*remaps),
            0 <= i <= remaps@.len(),
            profiles@.len() == i,
            forall|j: int|
                0 <= j < i ==> remap_ok(#[trigger] remaps@[j]) && migrated_profile(
                    remaps@[j],
                    j as nat,
                    profiles@[j],
                ),
        decreases remaps@.len() - i,
    {
        match migrate_v1_remap(&remaps[i], i) {
            Ok(p) => profiles.push(p),
            Err(e) => {
                assert(!remap_ok(remaps@[i as int]) && remap_failure(remaps@[i as int], e));
                assert(forall|j: int| 0 <= j < i ==> remap_ok(#[trigger] remaps@[j]));
                let ghost rs = v1.remaps->0;
                assert(rs == *remaps);
                assert(exists|k: int|
                    0 <= k < rs@.len() && !remap_ok(#[trigger] rs@[k]) && (forall|j: int|
                        0 <= j < k ==> remap_ok(#[trigger] rs@[j])) && remap_failure(rs@[k], e)) by {
                    assert(0 <= i < rs@.len() && !remap_ok(rs@[i as int]));
                }
                return Err(e);
            },
        }
        i = i + 1;
    }
    Ok(Config { version: CONFIG_VERSION, settings: Settings::default(), profiles })
}

/// The version-1 codes that migration gives a name of their own: the
/// gamepad buttons, the D-pad, the mouse buttons, Escape and the digit row,
/// and the common editing and modifier keys.
pub open spec fn v1_named_code(code: u16) -> bool {
    ||| 304 <= code <= 318
    ||| 544 <= code <= 547
    ||| 272 <= code <= 276
    ||| 1 <= code <= 11
    ||| code == 14 || code == 15 || code == 28 || code == 29 || code == 42 || code == 54
    ||| code == 56 || code == 57 || code == 97 || code == 100 || code == 125 || code == 126
}

/// Migration keeps the numbers of a version-1 event map: the name a named
/// code is migrated to reads back through the key table to that same code,
/// and any other code is migrated to `KEY_<code>`.
pub proof fn law_migrated_name_reads_back(code: u16)
    ensures
        v1_named_code(code) ==> key_code_of_name(migrated_code_name(code)) == Some(code),
        !v1_named_code(code) ==> migrated_code_name(code) == "KEY_"@ + dec_str(code as nat),
{
    law_key_names_read_to_codes_1();
    law_key_names_read_to_codes_2();
    law_key_names_read_to_codes_3();
    law_key_names_read_to_codes_4();
    law_key_names_read_to_codes_5();
    law_key_names_read_to_codes_6();
    law_key_names_read_to_codes_7();
    law_key_names_read_to_codes_8();
}

/// A migrated event-map entry between named codes remaps the entry's source
/// code to its target code (the target cut to 16 bits).
pub proof fn law_migrated_mapping_keeps_codes(e: (String, Option<i64>), m: Mapping)
    requires
        entry_ok(e),
        migrated_mapping(e, m),
        v1_named_code(number_code(e.0@)->0),
        v1_named_code(e.1->0 as u16),
    ensures
        m matches Mapping::Simple { from, to } && key_code_or_number(from.code@) == Some(
            number_code(e.0@)->0,
        ) && key_code_or_number(to.code@) == Some(e.1->0 as u16),
{
    law_migrated_name_reads_back(number_code(e.0@)->0);
    law_migrated_name_reads_back(e.1->0 as u16);
}

} // verus!
