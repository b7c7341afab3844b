//! The command line: its commands, and what the commands decide between
//! their prompts and their output. Parsing the arguments, prompting, printing
//! and running programs are the caller's part.
use vstd::prelude::*;
use vstd::string::*;

use crate::config::{
    deref_profiles, enabled_only, profile_named, DeviceMatch, Mapping, OutputConfig, Profile,
};
use crate::devices::{device_badge, lowercase, name_matches, DeviceInfo, DeviceManager};
use crate::search::find_where;
use crate::events::EventCode;
use crate::gui::mapping_editor::is_key_named;
use crate::gui::profile_editor::device_field_match;
use crate::manager::{join_path, joined_path, ConfigManager};
use crate::platform::{id_pair_string, id_text};
use crate::text::{i64_to_string, int_str, starts_with};

verus! {

/// Cross-platform input remapping tool.
#[derive(Debug)]
pub struct Cli {
    /// Enable verbose output
    pub verbose: bool,
    pub command: Commands,
}

/// Available commands.
#[derive(Debug)]
pub enum Commands {
    /// Create a new profile (interactive)
    Create {
        /// Profile name
        name: Option<String>,
        /// Input device path or name
        device: Option<String>,
    },
    /// Edit an existing profile
    Edit {
        /// Profile name to edit
        name: String,
    },
    /// Delete a profile
    Delete {
        /// Profile name to delete
        name: String,
    },
    /// List devices or profiles
    List { what: ListCommand },
    /// Run profiles
    Run {
        /// Specific profiles to run (runs all enabled if none specified)
        profiles: Vec<String>,
        /// Run as background daemon
        daemon: bool,
    },
    /// Debug device - show raw events
    Debug {
        /// Device path or name
        device: String,
    },
    /// Launch graphical interface
    Gui,
    /// Manage the systemd user service
    Service { action: ServiceAction },
}

/// List subcommands.
#[derive(Debug, Clone, Copy, PartialEq, Eq, Structural)]
pub enum ListCommand {
    /// List available input devices
    Devices,
    /// List configured profiles
    Profiles,
}

/// Service management actions.
#[derive(Debug, Clone, Copy, PartialEq, Eq, Structural)]
pub enum ServiceAction {
    /// Install systemd user service
    Install,
    /// Uninstall systemd user service
    Uninstall,
    /// Start the service
    Start,
    /// Stop the service
    Stop,
    /// Restart the service
    Restart,
    /// Show service status
    Status,
    /// Show service logs
    Logs {
        /// Number of lines to show
        lines: usize,
        /// Follow log output
        follow: bool,
    },
    /// Enable service to start on login
    Enable,
    /// Disable service from starting on login
    Disable,
}

// ---------------------------------------------------------------------------
// Choosing the profiles to run
// ---------------------------------------------------------------------------

/// The first of the names that the configuration does not hold, if any.
pub open spec fn first_missing(ps: Seq<Profile>, names: Seq<String>) -> Option<int>
    decreases names.len(),
{
    if names.len() == 0 {
        None
    } else {
        match first_missing(ps, names.drop_last()) {
            Some(i) => Some(i),
            None => if profile_named(ps, names.last()@) is None {
                Some(names.len() - 1)
            } else {
                None
            },
        }
    }
}

/// The profiles to run: every enabled profile when no name is given,
/// otherwise the profile of each name in turn; the first name the
/// configuration does not hold is refused.
pub fn profiles_to_run<'a>(config: &'a ConfigManager, names: &Vec<String>) -> (r: Result<
    Vec<&'a Profile>,
    String,
>)
    ensures
        names@.len() == 0 ==> (r matches Ok(v) && deref_profiles(v@) == enabled_only(
            config.config_view().profiles@,
        )),
        names@.len() > 0 ==> match first_missing(config.config_view().profiles@, names@) {
            Some(i) => r matches Err(e) && e@ == "Profile not found: "@ + names@[i]@,
            None => r matches Ok(v) && v@.len() == names@.len() && forall|j: int|
                0 <= j < v@.len() ==> profile_named(config.config_view().profiles@, names@[j]@)
                    == Some(*(#[trigger] v@[j])),
        },
{
    if names.len() == 0 {
        return Ok(config.enabled_profiles());
    }
    let ghost ps = config.config_view().profiles@;
    let mut chosen: Vec<&'a Profile> = Vec::new();
    let mut i: usize = 0;
    while i < names.len()
        invariant
            0 <= i <= names@.len(),
            ps == config.config_view().profiles@,
            first_missing(ps, names@.take(i as int)) is None,
            chosen@.len() == i,
            forall|j: int| 0 <= j < i ==> profile_named(ps, names@[j]@) == Some(*(#[trigger] chosen@[j])),
        decreases names@.len() - i,
    {
        proof {
            assert(names@.take(i + 1).drop_last() =~= names@.take(i as int));
        }
        match config.get_profile(names[i].as_str()) {
            Some(p) => {
                chosen.push(p);
            },
            None => {
                proof {
                    lemma_first_missing_prefix(ps, names@, i + 1);
                }
                let mut e = String::from_str("Profile not found: ");
                e.append(names[i].as_str());
                return Err(e);
            },
        }
        i = i + 1;
    }
    proof {
        assert(names@.take(names@.len() as int) =~= names@);
    }
    Ok(chosen)
}

/// A name missing among the first names is the first missing of all.
proof fn lemma_first_missing_prefix(ps: Seq<Profile>, names: Seq<String>, k: int)
    requires
        0 <= k <= names.len(),
        first_missing(ps, names.take(k)) is Some,
    ensures
        first_missing(ps, names) == first_missing(ps, names.take(k)),
    decreases names.len(),
{
    if k == names.len() {
        assert(names.take(k) =~= names);
    } else {
        assert(names.drop_last().take(k) =~= names.take(k));
        lemma_first_missing_prefix(ps, names.drop_last(), k);
    }
}

// ---------------------------------------------------------------------------
// The creation wizard
// ---------------------------------------------------------------------------

/// The check before a profile is created: its name must be new.
pub fn check_new_profile(config: &ConfigManager, name: &str) -> (r: Result<(), String>)
    ensures
        match r {
            Ok(()) => profile_named(config.config_view().profiles@, name@) is None,
            Err(e) => profile_named(config.config_view().profiles@, name@) is Some && e@
                == "Profile '"@ + name@ + "' already exists"@,
        },
{
    if config.get_profile(name).is_some() {
        let mut e = String::from_str("Profile '");
        e.append(name);
        e.append("' already exists");
        Err(e)
    } else {
        Ok(())
    }
}

/// The device match a typed device names: a path when it starts with
/// `/dev/`, a name otherwise.
pub fn device_match_for(field: &str) -> (r: DeviceMatch)
    ensures
        device_field_match(field@, r),
{
    if starts_with(field, "/dev/") {
        DeviceMatch::by_path(field)
    } else {
        DeviceMatch::by_name(field)
    }
}

/// How a device is offered for selection: `<badge> <name> (<path>)`.
pub open spec fn device_choice_text(d: DeviceInfo) -> Seq<char> {
    device_badge(d) + " "@ + d.name@ + " ("@ + d.path@ + ")"@
}

/// The line a device is offered by.
pub fn device_choice_label(d: &DeviceInfo) -> (r: String)
    ensures
        r@ == device_choice_text(*d),
{
    let mut s = if d.is_gamepad {
        String::from_str("[Gamepad]")
    } else if d.is_keyboard {
        String::from_str("[Keyboard]")
    } else if d.is_mouse {
        String::from_str("[Mouse]")
    } else {
        String::from_str("[Other]")
    };
    s.append(" ");
    s.append(d.name.as_str());
    s.append(" (");
    s.append(d.path.as_str());
    s.append(")");
    s
}

/// The three ways a chosen device can be matched, as offered: by name, by
/// identifier, by path.
pub fn match_option_labels(d: &DeviceInfo) -> (r: Vec<String>)
    ensures
        r@.len() == 3,
        r@[0]@ == "By name: "@ + d.name@,
        r@[1]@ == "By ID: "@ + id_text(d.vendor, d.product),
        r@[2]@ == "By path: "@ + d.path@,
{
    let mut by_name = String::from_str("By name: ");
    by_name.append(d.name.as_str());
    let mut by_id = String::from_str("By ID: ");
    let ids = id_pair_string(d.vendor, d.product);
    by_id.append(ids.as_str());
    let mut by_path = String::from_str("By path: ");
    by_path.append(d.path.as_str());
    vec![by_name, by_id, by_path]
}

/// The device match for the chosen way (0 by name, 1 by identifier, 2 by
/// path).
pub fn device_match_choice(d: &DeviceInfo, choice: usize) -> (r: DeviceMatch)
    requires
        choice < 3,
    ensures
        choice == 0 ==> (r matches DeviceMatch::Name { name } && name@ == d.name@),
        choice == 1 ==> r == (DeviceMatch::Id { vendor: d.vendor, product: d.product, name: None }),
        choice == 2 ==> (r matches DeviceMatch::Path { path } && path@ == d.path@),
{
    if choice == 0 {
        DeviceMatch::by_name(d.name.as_str())
    } else if choice == 1 {
        DeviceMatch::by_id(d.vendor, d.product)
    } else {
        DeviceMatch::by_path(d.path.as_str())
    }
}

/// The virtual device name offered by default: `Remapped <profile>`.
pub fn default_output_name(profile_name: &str) -> (r: String)
    ensures
        r@ == "Remapped "@ + profile_name@,
{
    let mut s = String::from_str("Remapped ");
    s.append(profile_name);
    s
}

/// A simple mapping from the two keys typed.
pub fn simple_from_answers(from: &str, to: &str) -> (r: Mapping)
    ensures
        r matches Mapping::Simple { from: f, to: t } && is_key_named(f, from@) && is_key_named(
            t,
            to@,
        ),
{
    Mapping::simple(EventCode::key(from), EventCode::key(to))
}

/// A tap/hold mapping from the answers: an empty tap or hold answer means
/// no action for it.
pub fn conditional_from_answers(trigger: &str, tap: &str, hold: &str, threshold_ms: u32) -> (r:
    Mapping)
    ensures
        r matches Mapping::Conditional { trigger: k, tap: t, hold: h, threshold_ms: ms } && {
            &&& is_key_named(k, trigger@)
            &&& ms == threshold_ms
            &&& if tap@.len() == 0 {
                t is None
            } else {
                t matches Some(c) && is_key_named(c, tap@)
            }
            &&& if hold@.len() == 0 {
                h is None
            } else {
                h matches Some(c) && is_key_named(c, hold@)
            }
        },
{
    let tap_code = if tap.is_empty() {
        None
    } else {
        Some(EventCode::key(tap))
    };
    let hold_code = if hold.is_empty() {
        None
    } else {
        Some(EventCode::key(hold))
    };
    Mapping::conditional(EventCode::key(trigger), tap_code, hold_code, threshold_ms)
}

/// The profile the wizard creates: enabled, with the chosen device, the
/// named virtual device, the grab choice and the mappings added.
pub fn wizard_profile(
    name: String,
    input_device: DeviceMatch,
    output_name: String,
    grab: bool,
    mappings: Vec<Mapping>,
) -> (r: Profile)
    ensures
        r.name == name,
        r.enabled,
        r.input_device == input_device,
        r.output_device.name == Some(output_name),
        r.grab == grab,
        r.mappings == mappings,
{
    Profile {
        name,
        enabled: true,
        input_device,
        output_device: OutputConfig { name: Some(output_name) },
        grab,
        mappings,
    }
}

/// The path of the device to watch: a path as typed, or the path of the
/// first listed device whose name contains the text typed.
pub fn debug_device_path(device: &str, devices: Vec<DeviceInfo>) -> (r: Option<String>)
    ensures
        "/dev/"@.is_prefix_of(device@) ==> (r matches Some(p) && p@ == device@),
        !"/dev/"@.is_prefix_of(device@) ==> match find_where(
            devices@,
            name_matches(lowercase(device@)),
        ) {
            Some(d) => r == Some(d.path),
            None => r is None,
        },
{
    if starts_with(device, "/dev/") {
        Some(String::from_str(device))
    } else {
        match DeviceManager::find_by_name(devices, device) {
            Some(d) => Some(d.path),
            None => None,
        }
    }
}

/// How the event monitor shows a value: `PRESS` for 1, `RELEASE` for 0, the
/// number otherwise.
pub open spec fn debug_value_text(value: i32) -> Seq<char> {
    if value == 1 {
        "PRESS"@
    } else if value == 0 {
        "RELEASE"@
    } else {
        int_str(value as int)
    }
}

/// The value column of the event monitor.
pub fn debug_value_label(value: i32) -> (r: String)
    ensures
        r@ == debug_value_text(value),
{
    if value == 1 {
        String::from_str("PRESS")
    } else if value == 0 {
        String::from_str("RELEASE")
    } else {
        i64_to_string(value as i64)
    }
}

// ---------------------------------------------------------------------------
// The systemd user service
// ---------------------------------------------------------------------------

/// The user service directory under a home directory.
pub open spec fn service_dir_text(home: Seq<char>) -> Seq<char> {
    joined_path(home, ".config/systemd/user"@)
}

/// The systemd user service directory of the user whose home is `home`.
pub fn service_dir(home: &str) -> (r: String)
    ensures
        r@ == service_dir_text(home@),
{
    join_path(home, ".config/systemd/user")
}

/// The service file of the user whose home is `home`.
pub fn service_path(home: &str) -> (r: String)
    ensures
        r@ == joined_path(service_dir_text(home@), "remapper.service"@),
{
    let dir = service_dir(home);
    join_path(dir.as_str(), "remapper.service")
}

/// The unit file's text before the program's path.
pub open spec fn unit_head() -> Seq<char> {
    "[Unit]\nDescription=Remapper - Linux evdev input remapping\nDocumentation=https://github.com/user/remapper\nAfter=graphical-session.target\n\n[Service]\nType=simple\nExecStart="@
}

/// The unit file's text after the program's path.
pub open spec fn unit_tail() -> Seq<char> {
    " run --daemon\nRestart=on-failure\nRestartSec=5\n\n[Install]\nWantedBy=default.target\n"@
}

/// The user service unit that runs the daemon from the given program.
pub fn service_unit(program: &str) -> (r: String)
    ensures
        r@ == unit_head() + program@ + unit_tail(),
{
    let mut s = String::from_str(
        "[Unit]\nDescription=Remapper - Linux evdev input remapping\nDocumentation=https://github.com/user/remapper\nAfter=graphical-session.target\n\n[Service]\nType=simple\nExecStart=",
    );
    s.append(program);
    s.append(" run --daemon\nRestart=on-failure\nRestartSec=5\n\n[Install]\nWantedBy=default.target\n");
    s
}

/// The `systemctl --user` verb of an action that is one call of it.
pub open spec fn systemctl_verb_text(action: ServiceAction) -> Option<Seq<char>> {
    match action {
        ServiceAction::Start => Some("start"@),
        ServiceAction::Stop => Some("stop"@),
        ServiceAction::Restart => Some("restart"@),
        ServiceAction::Status => Some("status"@),
        ServiceAction::Enable => Some("enable"@),
        ServiceAction::Disable => Some("disable"@),
        _ => None,
    }
}

/// The `systemctl --user` verb for the actions that are one call of it.
pub fn systemctl_verb(action: ServiceAction) -> (r: Option<&'static str>)
    ensures
        match r {
            Some(v) => systemctl_verb_text(action) == Some(v@),
            None => systemctl_verb_text(action) is None,
        },
{
    match action {
        ServiceAction::Start => Some("start"),
        ServiceAction::Stop => Some("stop"),
        ServiceAction::Restart => Some("restart"),
        ServiceAction::Status => Some("status"),
        ServiceAction::Enable => Some("enable"),
        ServiceAction::Disable => Some("disable"),
        _ => None,
    }
}

/// What is reported after such a call: on success and on failure; the
/// status call reports neither.
pub open spec fn systemctl_report_text(action: ServiceAction) -> Option<(Seq<char>, Seq<char>)> {
    match action {
        ServiceAction::Start => Some(("Service started."@, "Failed to start service"@)),
        ServiceAction::Stop => Some(("Service stopped."@, "Failed to stop service"@)),
        ServiceAction::Restart => Some(("Service restarted."@, "Failed to restart service"@)),
        ServiceAction::Enable => Some(
            ("Service enabled. It will start automatically on login."@, "Failed to enable service"@),
        ),
        ServiceAction::Disable => Some(
            (
                "Service disabled. It will no longer start automatically."@,
                "Failed to disable service"@,
            ),
        ),
        _ => None,
    }
}

/// The success and failure messages of a call.
pub fn systemctl_report(action: ServiceAction) -> (r: Option<(&'static str, &'static str)>)
    ensures
        match r {
            Some((ok, fail)) => systemctl_report_text(action) == Some((ok@, fail@)),
            None => systemctl_report_text(action) is None,
        },
{
    match action {
        ServiceAction::Start => Some(("Service started.", "Failed to start service")),
        ServiceAction::Stop => Some(("Service stopped.", "Failed to stop service")),
        ServiceAction::Restart => Some(("Service restarted.", "Failed to restart service")),
        ServiceAction::Enable => Some(
            ("Service enabled. It will start automatically on login.", "Failed to enable service"),
        ),
        ServiceAction::Disable => Some(
            (
                "Service disabled. It will no longer start automatically.",
                "Failed to disable service",
            ),
        ),
        _ => None,
    }
}

/// The arguments of the journal call that shows the service's log: the
/// last `lines` lines, following the log when asked.
pub fn journal_args(lines: usize, follow: bool) -> (r: Vec<String>)
    ensures
        r@.len() == if follow {
            6nat
        } else {
            5nat
        },
        r@[0]@ == "--user"@,
        r@[1]@ == "-u"@,
        r@[2]@ == "remapper.service"@,
        r@[3]@ == "-n"@,
        r@[4]@ == crate::text::dec_str(lines as nat),
        follow ==> r@[5]@ == "-f"@,
{
    let mut r: Vec<String> = vec![
        String::from_str("--user"),
        String::from_str("-u"),
        String::from_str("remapper.service"),
        String::from_str("-n"),
        crate::text::u64_to_string(lines as u64),
    ];
    if follow {
        r.push(String::from_str("-f"));
    }
    r
}

} // verus!
