//! Configuration schema: the root configuration, global settings, profiles,
//! device matching, output settings, mappings and macro steps, with the
//! operations that look profiles up, add and remove them.
use vstd::prelude::*;
use vstd::string::*;

use crate::error::RemapperError;
use crate::events::EventCode;
use crate::platform::{id_pair_string, id_text};
use crate::text::str_eq;

verus! {

/// Current configuration version.
pub const CONFIG_VERSION: u32 = 2;

/// The version that a configuration without one is read as.
pub fn default_version() -> (r: u32)
    ensures
        r == CONFIG_VERSION,
{
    CONFIG_VERSION
}

/// The log level that settings without one are read as.
pub fn default_log_level() -> (r: String)
    ensures
        r@ == "info"@,
{
    String::from_str("info")
}

/// The value of flags that default to on.
pub fn default_true() -> (r: bool)
    ensures
        r,
{
    true
}

/// The tap/hold threshold, in milliseconds, that a mapping without one is
/// read as.
pub fn default_threshold() -> (r: u32)
    ensures
        r == 300,
{
    300
}

/// Clones an optional string, keeping its contents.
pub fn clone_opt_string(s: &Option<String>) -> (r: Option<String>)
    ensures
        r == *s,
{
    match s {
        Some(v) => Some(v.clone()),
        None => None,
    }
}

/// Clones an optional event code, keeping its contents.
pub fn clone_opt_code(c: &Option<EventCode>) -> (r: Option<EventCode>)
    ensures
        r == *c,
{
    match c {
        Some(v) => Some(v.clone()),
        None => None,
    }
}

/// Clones a vector of event codes, keeping its contents.
pub fn clone_codes(v: &Vec<EventCode>) -> (r: Vec<EventCode>)
    ensures
        r@ == v@,
{
    let mut r: Vec<EventCode> = Vec::new();
    let mut i: usize = 0;
    while i < v.len()
        invariant
            0 <= i <= v@.len(),
            r@ == v@.take(i as int),
        decreases v@.len() - i,
    {
        r.push(v[i].clone());
        assert(v@.take(i + 1) =~= v@.take(i as int).push(v@[i as int]));
        i = i + 1;
    }
    assert(v@.take(v@.len() as int) =~= v@);
    r
}

/// How the graphical interface runs profiles.
#[derive(Debug, Clone, Copy, PartialEq, Eq, Structural)]
pub enum ExecutionMode {
    /// Profiles run inside the interface's own process
    BackgroundThread,
    /// Profiles run in the separate daemon process
    Daemon,
}

/// The name an execution mode is shown by.
pub open spec fn execution_mode_text(m: ExecutionMode) -> Seq<char> {
    match m {
        ExecutionMode::BackgroundThread => "Background Thread"@,
        ExecutionMode::Daemon => "Daemon"@,
    }
}

impl ExecutionMode {
    /// The mode's name.
    pub fn to_string(&self) -> (r: String)
        ensures
            r@ == execution_mode_text(*self),
    {
        match self {
            ExecutionMode::BackgroundThread => String::from_str("Background Thread"),
            ExecutionMode::Daemon => String::from_str("Daemon"),
        }
    }
}

impl Default for ExecutionMode {
    fn default() -> (r: Self)
        ensures
            r == ExecutionMode::BackgroundThread,
    {
        ExecutionMode::BackgroundThread
    }
}

/// Global settings.
#[derive(Debug)]
pub struct Settings {
    /// Log level (trace, debug, info, warn, error)
    pub log_level: String,
    /// Auto-start enabled profiles on launch
    pub auto_start: bool,
    /// Enable hotplug monitoring
    pub hotplug_enabled: bool,
    /// How the graphical interface runs profiles
    pub execution_mode: ExecutionMode,
}

impl Default for Settings {
    fn default() -> (r: Self)
        ensures
            r.log_level@ == "info"@,
            !r.auto_start,
            r.hotplug_enabled,
            r.execution_mode == ExecutionMode::BackgroundThread,
    {
        Settings {
            log_level: default_log_level(),
            auto_start: false,
            hotplug_enabled: true,
            execution_mode: ExecutionMode::BackgroundThread,
        }
    }
}

impl Clone for Settings {
    fn clone(&self) -> (r: Self)
        ensures
            r == *self,
    {
        Settings {
            log_level: self.log_level.clone(),
            auto_start: self.auto_start,
            hotplug_enabled: self.hotplug_enabled,
            execution_mode: self.execution_mode,
        }
    }
}

/// Device matching criteria.
#[derive(Debug)]
pub enum DeviceMatch {
    /// Match by device path
    Path { path: String },
    /// Match by name (partial match)
    Name { name: String },
    /// Match by vendor and product ID
    Id { vendor: u16, product: u16, name: Option<String> },
}

impl Clone for DeviceMatch {
    fn clone(&self) -> (r: Self)
        ensures
            r == *self,
    {
        match self {
            DeviceMatch::Path { path } => DeviceMatch::Path { path: path.clone() },
            DeviceMatch::Name { name } => DeviceMatch::Name { name: name.clone() },
            DeviceMatch::Id { vendor, product, name } => DeviceMatch::Id {
                vendor: *vendor,
                product: *product,
                name: clone_opt_string(name),
            },
        }
    }
}

/// How a device match is shown: the path, the name, or the identifier pair
/// (after the name and in brackets when there is a name).
pub open spec fn device_match_text(m: DeviceMatch) -> Seq<char> {
    match m {
        DeviceMatch::Path { path } => path@,
        DeviceMatch::Name { name } => name@,
        DeviceMatch::Id { vendor, product, name } => match name {
            Some(n) => n@ + " ("@ + id_text(vendor, product) + ")"@,
            None => id_text(vendor, product),
        },
    }
}

impl DeviceMatch {
    /// Create a match by path.
    pub fn by_path(path: &str) -> (r: Self)
        ensures
            r matches DeviceMatch::Path { path: p } && p@ == path@,
    {
        DeviceMatch::Path { path: String::from_str(path) }
    }

    /// Create a match by name.
    pub fn by_name(name: &str) -> (r: Self)
        ensures
            r matches DeviceMatch::Name { name: n } && n@ == name@,
    {
        DeviceMatch::Name { name: String::from_str(name) }
    }

    /// Create a match by vendor/product ID.
    pub fn by_id(vendor: u16, product: u16) -> (r: Self)
        ensures
            r == (DeviceMatch::Id { vendor, product, name: None }),
    {
        DeviceMatch::Id { vendor, product, name: None }
    }

    /// Get a display string for this match.
    pub fn display(&self) -> (r: String)
        ensures
            r@ == device_match_text(*self),
    {
        match self {
            DeviceMatch::Path { path } => path.clone(),
            DeviceMatch::Name { name } => name.clone(),
            DeviceMatch::Id { vendor, product, name } => match name {
                Some(n) => {
                    let mut s = n.clone();
                    s.append(" (");
                    let ids = id_pair_string(*vendor, *product);
                    s.append(ids.as_str());
                    s.append(")");
                    s
                },
                None => id_pair_string(*vendor, *product),
            },
        }
    }
}

/// Output device configuration.
#[derive(Debug)]
pub struct OutputConfig {
    /// Name for the virtual device
    pub name: Option<String>,
}

impl Default for OutputConfig {
    fn default() -> (r: Self)
        ensures
            r.name is None,
    {
        OutputConfig { name: None }
    }
}

impl Clone for OutputConfig {
    fn clone(&self) -> (r: Self)
        ensures
            r == *self,
    {
        OutputConfig { name: clone_opt_string(&self.name) }
    }
}

impl OutputConfig {
    /// Create output config with a custom name.
    pub fn with_name(name: &str) -> (r: Self)
        ensures
            r.name matches Some(n) && n@ == name@,
    {
        OutputConfig { name: Some(String::from_str(name)) }
    }
}

/// Step in a macro sequence.
#[derive(Debug)]
pub enum MacroStep {
    /// Key event (press or release)
    Key { code: String, value: i32 },
    /// Delay in milliseconds
    Delay { delay_ms: u32 },
}

impl Clone for MacroStep {
    fn clone(&self) -> (r: Self)
        ensures
            r == *self,
    {
        match self {
            MacroStep::Key { code, value } => MacroStep::Key { code: code.clone(), value: *value },
            MacroStep::Delay { delay_ms } => MacroStep::Delay { delay_ms: *delay_ms },
        }
    }
}

impl MacroStep {
    /// Create a key press step.
    pub fn press(code: &str) -> (r: Self)
        ensures
            r matches MacroStep::Key { code: c, value } && c@ == code@ && value == 1,
    {
        MacroStep::Key { code: String::from_str(code), value: 1 }
    }

    /// Create a key release step.
    pub fn release(code: &str) -> (r: Self)
        ensures
            r matches MacroStep::Key { code: c, value } && c@ == code@ && value == 0,
    {
        MacroStep::Key { code: String::from_str(code), value: 0 }
    }

    /// Create a delay step.
    pub fn delay(ms: u32) -> (r: Self)
        ensures
            r == (MacroStep::Delay { delay_ms: ms }),
    {
        MacroStep::Delay { delay_ms: ms }
    }
}


/// Clones a vector of macro steps, keeping its contents.
pub fn clone_steps(v: &Vec<MacroStep>) -> (r: Vec<MacroStep>)
    ensures
        r@ == v@,
{
    let mut r: Vec<MacroStep> = Vec::new();
    let mut i: usize = 0;
    while i < v.len()
        invariant
            0 <= i <= v@.len(),
            r@ == v@.take(i as int),
        decreases v@.len() - i,
    {
        r.push(v[i].clone());
        assert(v@.take(i + 1) =~= v@.take(i as int).push(v@[i as int]));
        i = i + 1;
    }
    assert(v@.take(v@.len() as int) =~= v@);
    r
}

/// Event mapping types.
#[derive(Debug)]
pub enum Mapping {
    /// Simple 1:1 mapping
    Simple { from: EventCode, to: EventCode },
    /// Macro - trigger a sequence of events
    Macro { trigger: EventCode, sequence: Vec<MacroStep> },
    /// Conditional - different output based on tap/hold
    Conditional {
        trigger: EventCode,
        tap: Option<EventCode>,
        hold: Option<EventCode>,
        threshold_ms: u32,
    },
    /// Combo - trigger when multiple keys pressed together
    Combo { keys: Vec<EventCode>, output: EventCode, order_sensitive: bool },
}


/// Two mappings hold the same things: the same kind, the same codes and the
/// same steps or keys in the same order.
pub open spec fn same_mapping(a: Mapping, b: Mapping) -> bool {
    match a {
        Mapping::Simple { .. } => a == b,
        Mapping::Conditional { .. } => a == b,
        Mapping::Macro { trigger, sequence } => b matches Mapping::Macro {
            trigger: t,
            sequence: s,
        } && t == trigger && s@ == sequence@,
        Mapping::Combo { keys, output, order_sensitive } => b matches Mapping::Combo {
            keys: k,
            output: o,
            order_sensitive: x,
        } && k@ == keys@ && o == output && x == order_sensitive,
    }
}

impl Clone for Mapping {
    fn clone(&self) -> (r: Self)
        ensures
            same_mapping(*self, r),
    {
        match self {
            Mapping::Simple { from, to } => Mapping::Simple { from: from.clone(), to: to.clone() },
            Mapping::Macro { trigger, sequence } => Mapping::Macro {
                trigger: trigger.clone(),
                sequence: clone_steps(sequence),
            },
            Mapping::Conditional { trigger, tap, hold, threshold_ms } => Mapping::Conditional {
                trigger: trigger.clone(),
                tap: clone_opt_code(tap),
                hold: clone_opt_code(hold),
                threshold_ms: *threshold_ms,
            },
            Mapping::Combo { keys, output, order_sensitive } => Mapping::Combo {
                keys: clone_codes(keys),
                output: output.clone(),
                order_sensitive: *order_sensitive,
            },
        }
    }
}

/// Two lists of mappings hold the same mappings in the same order.
pub open spec fn same_mappings(a: Seq<Mapping>, b: Seq<Mapping>) -> bool {
    a.len() == b.len() && forall|i: int| 0 <= i < a.len() ==> same_mapping(a[i], #[trigger] b[i])
}

/// Clones a list of mappings.
pub fn clone_mappings(v: &Vec<Mapping>) -> (r: Vec<Mapping>)
    ensures
        same_mappings(v@, r@),
{
    let mut r: Vec<Mapping> = Vec::new();
    let mut i: usize = 0;
    while i < v.len()
        invariant
            0 <= i <= v@.len(),
            r@.len() == i,
            forall|j: int| 0 <= j < i ==> same_mapping(v@[j], #[trigger] r@[j]),
        decreases v@.len() - i,
    {
        r.push(v[i].clone());
        i = i + 1;
    }
    r
}

/// The event code that triggers a mapping: the source of a simple mapping,
/// the trigger of a macro or tap/hold mapping, the first key of a combo.
pub open spec fn mapping_trigger(m: Mapping) -> Option<EventCode> {
    match m {
        Mapping::Simple { from, .. } => Some(from),
        Mapping::Macro { trigger, .. } => Some(trigger),
        Mapping::Conditional { trigger, .. } => Some(trigger),
        Mapping::Combo { keys, .. } => if keys@.len() > 0 {
            Some(keys@[0])
        } else {
            None
        },
    }
}

impl Mapping {
    /// Create a simple mapping.
    pub fn simple(from: EventCode, to: EventCode) -> (r: Self)
        ensures
            r == (Mapping::Simple { from, to }),
    {
        Mapping::Simple { from, to }
    }

    /// Create a macro mapping.
    pub fn macro_seq(trigger: EventCode, sequence: Vec<MacroStep>) -> (r: Self)
        ensures
            r == (Mapping::Macro { trigger, sequence }),
    {
        Mapping::Macro { trigger, sequence }
    }

    /// Create a conditional (tap/hold) mapping.
    pub fn conditional(
        trigger: EventCode,
        tap: Option<EventCode>,
        hold: Option<EventCode>,
        threshold_ms: u32,
    ) -> (r: Self)
        ensures
            r == (Mapping::Conditional { trigger, tap, hold, threshold_ms }),
    {
        Mapping::Conditional { trigger, tap, hold, threshold_ms }
    }

    /// Create a combo mapping; key order does not matter.
    pub fn combo(keys: Vec<EventCode>, output: EventCode) -> (r: Self)
        ensures
            r == (Mapping::Combo { keys, output, order_sensitive: false }),
    {
        Mapping::Combo { keys, output, order_sensitive: false }
    }

    /// Get the trigger event code for this mapping.
    pub fn trigger(&self) -> (r: Option<&EventCode>)
        ensures
            match r {
                Some(c) => mapping_trigger(*self) == Some(*c),
                None => mapping_trigger(*self) is None,
            },
    {
        match self {
            Mapping::Simple { from, .. } => Some(from),
            Mapping::Macro { trigger, .. } => Some(trigger),
            Mapping::Conditional { trigger, .. } => Some(trigger),
            Mapping::Combo { keys, .. } => if keys.len() > 0 {
                Some(&keys[0])
            } else {
                None
            },
        }
    }
}


/// Profile configuration.
#[derive(Debug)]
pub struct Profile {
    /// Profile name (unique identifier)
    pub name: String,
    /// Whether this profile is enabled
    pub enabled: bool,
    /// Input device to remap
    pub input_device: DeviceMatch,
    /// Output device configuration
    pub output_device: OutputConfig,
    /// Whether to grab exclusive access to input device
    pub grab: bool,
    /// Event mappings
    pub mappings: Vec<Mapping>,
}


/// Two profiles hold the same settings and the same mappings.
pub open spec fn same_profile(a: Profile, b: Profile) -> bool {
    &&& a.name == b.name
    &&& a.enabled == b.enabled
    &&& a.input_device == b.input_device
    &&& a.output_device == b.output_device
    &&& a.grab == b.grab
    &&& same_mappings(a.mappings@, b.mappings@)
}

impl Clone for Profile {
    fn clone(&self) -> (r: Self)
        ensures
            same_profile(*self, r),
    {
        Profile {
            name: self.name.clone(),
            enabled: self.enabled,
            input_device: self.input_device.clone(),
            output_device: self.output_device.clone(),
            grab: self.grab,
            mappings: clone_mappings(&self.mappings),
        }
    }
}

impl Profile {
    /// Create a new profile: enabled, no grab, default output, no mappings.
    pub fn new(name: &str, input_device: DeviceMatch) -> (r: Self)
        ensures
            r.name@ == name@,
            r.enabled,
            r.input_device == input_device,
            r.output_device.name is None,
            !r.grab,
            r.mappings@.len() == 0,
    {
        Profile {
            name: String::from_str(name),
            enabled: true,
            input_device,
            output_device: OutputConfig::default(),
            grab: false,
            mappings: Vec::new(),
        }
    }

    /// Add a mapping to this profile.
    pub fn add_mapping(&mut self, mapping: Mapping)
        ensures
            final(self).mappings@ == old(self).mappings@.push(mapping),
            final(self).name == old(self).name,
            final(self).enabled == old(self).enabled,
            final(self).input_device == old(self).input_device,
            final(self).output_device == old(self).output_device,
            final(self).grab == old(self).grab,
    {
        self.mappings.push(mapping);
    }
}

// ---------------------------------------------------------------------------
// Looking profiles up by name
// ---------------------------------------------------------------------------

/// Position `i` holds a profile named `name`, and no earlier one does.
pub open spec fn is_first_named(ps: Seq<Profile>, name: Seq<char>, i: int) -> bool {
    &&& 0 <= i < ps.len()
    &&& ps[i].name@ == name
    &&& forall|j: int| 0 <= j < i ==> (#[trigger] ps[j]).name@ != name
}

/// Some profile is named `name`.
pub open spec fn has_named(ps: Seq<Profile>, name: Seq<char>) -> bool {
    exists|i: int| 0 <= i < ps.len() && (#[trigger] ps[i]).name@ == name
}

/// The position of the first profile named `name`.
pub open spec fn first_named(ps: Seq<Profile>, name: Seq<char>) -> Option<int> {
    if exists|i: int| is_first_named(ps, name, i) {
        Some(choose|i: int| is_first_named(ps, name, i))
    } else {
        None
    }
}

/// The first profile named `name`.
pub open spec fn profile_named(ps: Seq<Profile>, name: Seq<char>) -> Option<Profile> {
    match first_named(ps, name) {
        Some(i) => Some(ps[i]),
        None => None,
    }
}

/// At most one position is the first one named `name`, so `first_named`
/// names it.
pub proof fn lemma_first_named_unique(ps: Seq<Profile>, name: Seq<char>, i: int)
    requires
        is_first_named(ps, name, i),
    ensures
        first_named(ps, name) == Some(i),
{
    let k = choose|k: int| is_first_named(ps, name, k);
    assert(is_first_named(ps, name, k));
    if k < i {
        assert(ps[k].name@ != name);
    }
    if i < k {
        assert(ps[i].name@ != name);
    }
}

/// When some profile is named `name`, there is a first one.
pub proof fn lemma_first_named_exists(ps: Seq<Profile>, name: Seq<char>, i: int)
    requires
        0 <= i < ps.len(),
        ps[i].name@ == name,
    ensures
        first_named(ps, name) is Some,
    decreases i,
{
    if forall|j: int| 0 <= j < i ==> (#[trigger] ps[j]).name@ != name {
        lemma_first_named_unique(ps, name, i);
    } else {
        let j = choose|j: int| 0 <= j < i && (#[trigger] ps[j]).name@ == name;
        lemma_first_named_exists(ps, name, j);
    }
}

/// Finds the position of the first profile named `name`.
pub fn profile_index(ps: &Vec<Profile>, name: &str) -> (r: Option<usize>)
    ensures
        match r {
            Some(i) => first_named(ps@, name@) == Some(i as int),
            None => first_named(ps@, name@) is None && !has_named(ps@, name@),
        },
{
    let mut i: usize = 0;
    while i < ps.len()
        invariant
            0 <= i <= ps@.len(),
            forall|j: int| 0 <= j < i ==> (#[trigger] ps@[j]).name@ != name@,
        decreases ps@.len() - i,
    {
        if str_eq(ps[i].name.as_str(), name) {
            proof {
                lemma_first_named_unique(ps@, name@, i as int);
            }
            return Some(i);
        }
        i = i + 1;
    }
    None
}

/// Profiles with `enabled` set, in their order.
pub open spec fn enabled_only(ps: Seq<Profile>) -> Seq<Profile>
    decreases ps.len(),
{
    if ps.len() == 0 {
        ps
    } else {
        let rest = enabled_only(ps.drop_last());
        if ps.last().enabled {
            rest.push(ps.last())
        } else {
            rest
        }
    }
}

/// The profiles that a sequence of references points to.
pub open spec fn deref_profiles(s: Seq<&Profile>) -> Seq<Profile> {
    s.map_values(|p: &Profile| *p)
}

/// References to the enabled profiles among `ps`, in their order.
pub fn enabled_in(ps: &Vec<Profile>) -> (r: Vec<&Profile>)
    ensures
        deref_profiles(r@) == enabled_only(ps@),
{
    let mut r: Vec<&Profile> = Vec::new();
    let mut i: usize = 0;
    while i < ps.len()
        invariant
            0 <= i <= ps@.len(),
            deref_profiles(r@) == enabled_only(ps@.take(i as int)),
        decreases ps@.len() - i,
    {
        assert(ps@.take(i + 1).drop_last() =~= ps@.take(i as int));
        if ps[i].enabled {
            r.push(&ps[i]);
        }
        assert(deref_profiles(r@) =~= enabled_only(ps@.take(i + 1)));
        i = i + 1;
    }
    assert(ps@.take(ps@.len() as int) =~= ps@);
    r
}


// ---------------------------------------------------------------------------
// Laws of the profile list
// ---------------------------------------------------------------------------

/// No two profiles share a name.
pub open spec fn names_unique(ps: Seq<Profile>) -> bool {
    forall|i: int, j: int|
        0 <= i < ps.len() && 0 <= j < ps.len() && i != j ==> (#[trigger] ps[i]).name@ != (
        #[trigger] ps[j]).name@
}

/// A profile added under a name that no profile has is what a look-up of
/// that name then finds.
pub proof fn law_add_then_find(ps: Seq<Profile>, p: Profile)
    requires
        !has_named(ps, p.name@),
    ensures
        profile_named(ps.push(p), p.name@) == Some(p),
{
    let qs = ps.push(p);
    assert forall|j: int| 0 <= j < ps.len() implies (#[trigger] qs[j]).name@ != p.name@ by {
        assert(qs[j] == ps[j]);
    }
    lemma_first_named_unique(qs, p.name@, ps.len() as int);
}

/// Removing by name a profile that was just added under a new name gives
/// back the list as it was before the addition.
pub proof fn law_add_then_remove(ps: Seq<Profile>, p: Profile)
    requires
        !has_named(ps, p.name@),
    ensures
        first_named(ps.push(p), p.name@) == Some(ps.len() as int),
        ps.push(p).remove(ps.len() as int) == ps,
{
    let qs = ps.push(p);
    assert forall|j: int| 0 <= j < ps.len() implies (#[trigger] qs[j]).name@ != p.name@ by {
        assert(qs[j] == ps[j]);
    }
    lemma_first_named_unique(qs, p.name@, ps.len() as int);
    assert(qs.remove(ps.len() as int) =~= ps);
}

/// Adding a profile whose name is new keeps the names unique.
pub proof fn law_add_keeps_names_unique(ps: Seq<Profile>, p: Profile)
    requires
        names_unique(ps),
        !has_named(ps, p.name@),
    ensures
        names_unique(ps.push(p)),
{
    let qs = ps.push(p);
    assert forall|i: int, j: int|
        0 <= i < qs.len() && 0 <= j < qs.len() && i != j implies (#[trigger] qs[i]).name@ != (
        #[trigger] qs[j]).name@ by {
        if i < ps.len() && j < ps.len() {
            assert(qs[i] == ps[i] && qs[j] == ps[j]);
        } else if i < ps.len() {
            assert(qs[i] == ps[i]);
        } else {
            assert(qs[j] == ps[j]);
        }
    }
}

/// With unique names, once the profile of a name is removed no profile has
/// that name, and the others keep theirs unique.
pub proof fn law_remove_then_absent(ps: Seq<Profile>, name: Seq<char>, i: int)
    requires
        names_unique(ps),
        first_named(ps, name) == Some(i),
    ensures
        !has_named(ps.remove(i), name),
        names_unique(ps.remove(i)),
{
    let k = choose|k: int| is_first_named(ps, name, k);
    assert(is_first_named(ps, name, k));
    let qs = ps.remove(i);
    assert forall|j: int| 0 <= j < qs.len() implies (#[trigger] qs[j]).name@ != name by {
        if j < i {
            assert(qs[j] == ps[j]);
        } else {
            assert(qs[j] == ps[j + 1]);
        }
    }
    assert forall|a: int, b: int|
        0 <= a < qs.len() && 0 <= b < qs.len() && a != b implies (#[trigger] qs[a]).name@ != (
        #[trigger] qs[b]).name@ by {
        let a2 = if a < i { a } else { a + 1 };
        let b2 = if b < i { b } else { b + 1 };
        assert(qs[a] == ps[a2] && qs[b] == ps[b2]);
    }
}

/// Root configuration structure.
#[derive(Debug)]
pub struct Config {
    /// Configuration version
    pub version: u32,
    /// Global settings
    pub settings: Settings,
    /// Configured profiles
    pub profiles: Vec<Profile>,
}

/// Two configurations hold the same settings and the same profiles.
pub open spec fn same_config(a: Config, b: Config) -> bool {
    &&& a.version == b.version
    &&& a.settings == b.settings
    &&& a.profiles@.len() == b.profiles@.len()
    &&& forall|i: int|
        0 <= i < a.profiles@.len() ==> same_profile(a.profiles@[i], #[trigger] b.profiles@[i])
}

impl Clone for Config {
    fn clone(&self) -> (r: Self)
        ensures
            same_config(*self, r),
    {
        let mut profiles: Vec<Profile> = Vec::new();
        let mut i: usize = 0;
        while i < self.profiles.len()
            invariant
                0 <= i <= self.profiles@.len(),
                profiles@.len() == i,
                forall|j: int|
                    0 <= j < i ==> same_profile(self.profiles@[j], #[trigger] profiles@[j]),
            decreases self.profiles@.len() - i,
        {
            profiles.push(self.profiles[i].clone());
            i = i + 1;
        }
        Config { version: self.version, settings: self.settings.clone(), profiles }
    }
}

impl Default for Config {
    fn default() -> (r: Self)
        ensures
            r.version == CONFIG_VERSION,
            r.settings.log_level@ == "info"@,
            !r.settings.auto_start,
            r.settings.hotplug_enabled,
            r.settings.execution_mode == ExecutionMode::BackgroundThread,
            r.profiles@.len() == 0,
    {
        Config { version: CONFIG_VERSION, settings: Settings::default(), profiles: Vec::new() }
    }
}


impl Config {
    /// Create a new empty configuration.
    pub fn new() -> (r: Self)
        ensures
            r.version == CONFIG_VERSION,
            r.settings.log_level@ == "info"@,
            !r.settings.auto_start,
            r.settings.hotplug_enabled,
            r.settings.execution_mode == ExecutionMode::BackgroundThread,
            r.profiles@.len() == 0,
    {
        Self::default()
    }

    /// Find a profile by name: the first one with that name.
    pub fn find_profile(&self, name: &str) -> (r: Option<&Profile>)
        ensures
            match r {
                Some(p) => profile_named(self.profiles@, name@) == Some(*p),
                None => profile_named(self.profiles@, name@) is None,
            },
    {
        match profile_index(&self.profiles, name) {
            Some(i) => Some(&self.profiles[i]),
            None => None,
        }
    }

    /// Find a profile by name (mutable): the first one with that name.
    pub fn find_profile_mut(&mut self, name: &str) -> (r: Option<&mut Profile>)
        ensures
            final(self).version == old(self).version,
            final(self).settings == old(self).settings,
            match first_named(old(self).profiles@, name@) {
                Some(i) => r matches Some(p) && *p == old(self).profiles@[i] && final(self).profiles@
                    == old(self).profiles@.update(i, *final(p)),
                None => r is None && final(self).profiles@ == old(self).profiles@,
            },
    {
        match profile_index(&self.profiles, name) {
            Some(i) => Some(&mut self.profiles[i]),
            None => None,
        }
    }

    /// Get enabled profiles.
    pub fn enabled_profiles(&self) -> (r: Vec<&Profile>)
        ensures
            deref_profiles(r@) == enabled_only(self.profiles@),
    {
        enabled_in(&self.profiles)
    }

    /// Add a new profile; refused when a profile of that name exists.
    pub fn add_profile(&mut self, profile: Profile) -> (r: Result<(), RemapperError>)
        ensures
            final(self).version == old(self).version,
            final(self).settings == old(self).settings,
            match r {
                Ok(()) => !has_named(old(self).profiles@, profile.name@) && final(self).profiles@ == old(self).profiles@.push(profile),
                Err(e) => {
                    &&& has_named(old(self).profiles@, profile.name@)
                    &&& final(self).profiles@ == old(self).profiles@
                    &&& e matches RemapperError::ProfileExists(n) && n@ == profile.name@
                },
            },
    {
        match profile_index(&self.profiles, profile.name.as_str()) {
            Some(i) => {
                proof {
                    assert(self.profiles@[i as int].name@ == profile.name@);
                }
                Err(RemapperError::ProfileExists(profile.name.clone()))
            },
            None => {
                self.profiles.push(profile);
                Ok(())
            },
        }
    }

    /// Remove a profile by name: the first one with that name.
    pub fn remove_profile(&mut self, name: &str) -> (r: Result<Profile, RemapperError>)
        ensures
            final(self).version == old(self).version,
            final(self).settings == old(self).settings,
            match r {
                Ok(p) => first_named(old(self).profiles@, name@) matches Some(i) && p == old(self).profiles@[i] && final(self).profiles@ == old(self).profiles@.remove(i),
                Err(e) => {
                    &&& first_named(old(self).profiles@, name@) is None
                    &&& final(self).profiles@ == old(self).profiles@
                    &&& e matches RemapperError::ProfileNotFound(n) && n@ == name@
                },
            },
    {
        match profile_index(&self.profiles, name) {
            Some(i) => Ok(self.profiles.remove(i)),
            None => Err(RemapperError::ProfileNotFound(String::from_str(name))),
        }
    }

    /// Set the `enabled` flag of the first profile named `name`.
    pub fn set_enabled(&mut self, name: &str, enabled: bool) -> (r: bool)
        ensures
            final(self).version == old(self).version,
            final(self).settings == old(self).settings,
            r == (first_named(old(self).profiles@, name@) is Some),
            match first_named(old(self).profiles@, name@) {
                Some(i) => final(self).profiles@ == old(self).profiles@.update(
                    i,
                    Profile { enabled, ..old(self).profiles@[i] },
                ),
                None => final(self).profiles@ == old(self).profiles@,
            },
    {
        match profile_index(&self.profiles, name) {
            Some(i) => {
                let mut p = self.profiles.remove(i);
                p.enabled = enabled;
                self.profiles.insert(i, p);
                assert(self.profiles@ =~= old(self).profiles@.update(
                    i as int,
                    Profile { enabled, ..old(self).profiles@[i as int] },
                ));
                true
            },
            None => false,
        }
    }
}

} // verus!
