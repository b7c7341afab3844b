//! The interface's application state and how each message changes it. The
//! caller draws the state, performs the actions that an update hands back
//! (loading and saving the configuration, starting engines, talking to the
//! daemon) and feeds their outcomes back as messages.
use vstd::prelude::*;
use vstd::string::*;
use vstd::view::View as _;

use crate::config::{
    execution_mode_text, first_named, has_named, lemma_first_named_exists, profile_named,
    same_profile, ExecutionMode, Profile, Settings,
};
use crate::daemon::DaemonConnectionState;
use crate::devices::DeviceInfo;
use crate::engine::{engine_state_text, EngineState};
use crate::error::{error_text, RemapperError};
use crate::gui::profile_editor::{
    editor_of_profile, fresh_profile_editor, lemma_editor_of_same_profile, ProfileEditor,
};
use crate::manager::ConfigManager;
use crate::text::{dec_str, push_dec, str_eq};

verus! {

// ---------------------------------------------------------------------------
// Names and engine states
// ---------------------------------------------------------------------------

/// No name occurs twice.
pub open spec fn distinct_names(s: Seq<String>) -> bool {
    forall|i: int, j: int|
        0 <= i < s.len() && 0 <= j < s.len() && i != j ==> (#[trigger] s[i])@ != (
        #[trigger] s[j])@
}

/// Some position holds the name.
pub open spec fn holds_name(s: Seq<String>, k: Seq<char>) -> bool {
    exists|i: int| 0 <= i < s.len() && (#[trigger] s[i])@ == k
}

/// The names, as a set.
pub open spec fn name_set(s: Seq<String>) -> Set<Seq<char>> {
    Set::new(|k: Seq<char>| holds_name(s, k))
}

/// The position that holds the name, when one does.
pub open spec fn position_of(s: Seq<String>, k: Seq<char>) -> int {
    choose|i: int| 0 <= i < s.len() && (#[trigger] s[i])@ == k
}

/// The names with their states, as a map.
pub open spec fn state_map(names: Seq<String>, states: Seq<EngineState>) -> Map<
    Seq<char>,
    EngineState,
> {
    Map::new(|k: Seq<char>| holds_name(names, k), |k: Seq<char>| states[position_of(names, k)])
}

/// Where names are distinct, the position of a name is the one that holds it.
proof fn lemma_position_of(s: Seq<String>, i: int)
    requires
        distinct_names(s),
        0 <= i < s.len(),
    ensures
        holds_name(s, s[i]@),
        position_of(s, s[i]@) == i,
{
    assert(s[i]@ == s[i]@);
    let j = position_of(s, s[i]@);
    assert(0 <= j < s.len() && s[j]@ == s[i]@);
}

/// The position of a name in a list, if it is there.
fn position(names: &Vec<String>, name: &str) -> (r: Option<usize>)
    ensures
        match r {
            Some(i) => i < names@.len() && names@[i as int]@ == name@,
            None => !holds_name(names@, name@),
        },
{
    let mut i: usize = 0;
    while i < names.len()
        invariant
            0 <= i <= names@.len(),
            forall|j: int| 0 <= j < i ==> (#[trigger] names@[j])@ != name@,
        decreases names@.len() - i,
    {
        if str_eq(names[i].as_str(), name) {
            return Some(i);
        }
        i = i + 1;
    }
    None
}

/// A set of profile names, held as a vector of distinct names: vstd's hash
/// collections specify their contents only for keys with a key model, which
/// `String` lacks.
#[derive(Debug)]
pub struct NameSet {
    names: Vec<String>,
}

impl vstd::view::View for NameSet {
    type V = Set<Seq<char>>;

    closed spec fn view(&self) -> Set<Seq<char>> {
        name_set(self.names@)
    }
}

impl NameSet {
    #[verifier::type_invariant]
    spec fn wf(&self) -> bool {
        distinct_names(self.names@)
    }

    /// The empty set.
    pub fn new() -> (r: Self)
        ensures
            r@ == Set::<Seq<char>>::empty(),
    {
        let r = NameSet { names: Vec::new() };
        assert(r@ =~= Set::<Seq<char>>::empty());
        r
    }

    /// Whether the set holds the name.
    pub fn contains(&self, name: &str) -> (r: bool)
        ensures
            r == self@.contains(name@),
    {
        position(&self.names, name).is_some()
    }

    /// Whether the set is empty.
    pub fn is_empty(&self) -> (r: bool)
        ensures
            r == (self@ == Set::<Seq<char>>::empty()),
    {
        if self.names.len() == 0 {
            assert(self@ =~= Set::<Seq<char>>::empty());
            true
        } else {
            assert(self@.contains(self.names@[0]@));
            false
        }
    }

    /// Adds a name.
    pub fn insert(&mut self, name: String)
        ensures
            final(self)@ == old(self)@.insert(name@),
    {
        proof {
            use_type_invariant(&*self);
        }
        if position(&self.names, name.as_str()).is_none() {
            let ghost before = self.names@;
            let mut names: Vec<String> = Vec::new();
            std::mem::swap(&mut names, &mut self.names);
            names.push(name);
            assert forall|i: int, j: int|
                0 <= i < names@.len() && 0 <= j < names@.len() && i != j implies (
                #[trigger] names@[i])@ != (#[trigger] names@[j])@ by {
                if i < before.len() && j < before.len() {
                    assert(names@[i] == before[i] && names@[j] == before[j]);
                } else if i < before.len() {
                    assert(names@[i] == before[i]);
                } else {
                    assert(names@[j] == before[j]);
                }
            }
            self.names = names;
            assert forall|k: Seq<char>| #[trigger] self@.contains(k) == old(self)@.insert(
                name@,
            ).contains(k) by {
                if holds_name(before, k) {
                    let i = choose|i: int| 0 <= i < before.len() && (#[trigger] before[i])@ == k;
                    assert(self.names@[i] == before[i]);
                }
                if holds_name(self.names@, k) {
                    let i = choose|i: int|
                        0 <= i < self.names@.len() && (#[trigger] self.names@[i])@ == k;
                    if i < before.len() {
                        assert(self.names@[i] == before[i]);
                    }
                }
                assert(self.names@[before.len() as int]@ == name@);
            }
            assert(self@ =~= old(self)@.insert(name@));
        } else {
            assert(self@ =~= old(self)@.insert(name@));
        }
    }

    /// Removes a name.
    pub fn remove(&mut self, name: &str)
        ensures
            final(self)@ == old(self)@.remove(name@),
    {
        proof {
            use_type_invariant(&*self);
        }
        match position(&self.names, name) {
            Some(i) => {
                let ghost before = self.names@;
                let mut names: Vec<String> = Vec::new();
                std::mem::swap(&mut names, &mut self.names);
                names.remove(i);
                assert forall|a: int, b: int|
                    0 <= a < names@.len() && 0 <= b < names@.len() && a != b implies (
                    #[trigger] names@[a])@ != (#[trigger] names@[b])@ by {
                    let a2 = if a < i { a } else { a + 1 };
                    let b2 = if b < i { b } else { b + 1 };
                    assert(names@[a] == before[a2] && names@[b] == before[b2]);
                }
                self.names = names;
                assert forall|k: Seq<char>| #[trigger] self@.contains(k) == old(self)@.remove(
                    name@,
                ).contains(k) by {
                    if holds_name(self.names@, k) {
                        let a = choose|a: int|
                            0 <= a < self.names@.len() && (#[trigger] self.names@[a])@ == k;
                        let a2 = if a < i { a } else { a + 1 };
                        assert(self.names@[a] == before[a2]);
                        assert(a2 != i);
                    }
                    if holds_name(before, k) && k != name@ {
                        let b = choose|b: int| 0 <= b < before.len() && (#[trigger] before[b])@ == k;
                        assert(b != i);
                        let b2 = if b < i { b } else { b - 1 };
                        assert(self.names@[b2] == before[b]);
                    }
                }
                assert(self@ =~= old(self)@.remove(name@));
            },
            None => {
                assert(self@ =~= old(self)@.remove(name@));
            },
        }
    }

    /// Empties the set.
    pub fn clear(&mut self)
        ensures
            final(self)@ == Set::<Seq<char>>::empty(),
    {
        self.names = Vec::new();
        assert(self@ =~= Set::<Seq<char>>::empty());
    }
}

/// The state of each profile's engine, by profile name, held as a vector of
/// entries with distinct names (see `NameSet`).
#[derive(Debug)]
pub struct EngineStates {
    names: Vec<String>,
    states: Vec<EngineState>,
}

impl vstd::view::View for EngineStates {
    type V = Map<Seq<char>, EngineState>;

    closed spec fn view(&self) -> Map<Seq<char>, EngineState> {
        state_map(self.names@, self.states@)
    }
}

impl EngineStates {
    #[verifier::type_invariant]
    spec fn wf(&self) -> bool {
        &&& self.names@.len() == self.states@.len()
        &&& distinct_names(self.names@)
    }

    /// No states.
    pub fn new() -> (r: Self)
        ensures
            r@ == Map::<Seq<char>, EngineState>::empty(),
    {
        let r = EngineStates { names: Vec::new(), states: Vec::new() };
        assert(r@ =~= Map::<Seq<char>, EngineState>::empty());
        r
    }

    /// The state recorded for a profile.
    pub fn get(&self, name: &str) -> (r: Option<EngineState>)
        ensures
            match r {
                Some(s) => self@.contains_key(name@) && self@[name@] == s,
                None => !self@.contains_key(name@),
            },
    {
        proof {
            use_type_invariant(self);
        }
        match position(&self.names, name) {
            Some(i) => {
                proof {
                    lemma_position_of(self.names@, i as int);
                }
                Some(self.states[i])
            },
            None => None,
        }
    }

    /// Records a profile's state.
    pub fn insert(&mut self, name: String, state: EngineState)
        ensures
            final(self)@ == old(self)@.insert(name@, state),
    {
        proof {
            use_type_invariant(&*self);
        }
        let ghost old_names = self.names@;
        let ghost old_states = self.states@;
        match position(&self.names, name.as_str()) {
            Some(i) => {
                let mut whole = EngineStates { names: Vec::new(), states: Vec::new() };
                std::mem::swap(&mut whole, self);
                let EngineStates { names, mut states } = whole;
                states.set(i, state);
                *self = EngineStates { names, states };
                assert forall|k: Seq<char>| #[trigger] holds_name(self.names@, k) implies self@[k]
                    == old(self)@.insert(name@, state)[k] by {
                    let j = position_of(self.names@, k);
                    assert(0 <= j < self.names@.len() && self.names@[j]@ == k);
                    lemma_position_of(self.names@, j);
                    lemma_position_of(self.names@, i as int);
                }
                assert(self@ =~= old(self)@.insert(name@, state));
            },
            None => {
                let mut whole = EngineStates { names: Vec::new(), states: Vec::new() };
                std::mem::swap(&mut whole, self);
                let EngineStates { mut names, mut states } = whole;
                names.push(name);
                states.push(state);
                assert forall|a: int, b: int|
                    0 <= a < names@.len() && 0 <= b < names@.len() && a != b implies (
                    #[trigger] names@[a])@ != (#[trigger] names@[b])@ by {
                    if a < old_names.len() && b < old_names.len() {
                        assert(names@[a] == old_names[a] && names@[b] == old_names[b]);
                    } else if a < old_names.len() {
                        assert(names@[a] == old_names[a]);
                    } else {
                        assert(names@[b] == old_names[b]);
                    }
                }
                *self = EngineStates { names, states };
                let ghost n = old_names.len() as int;
                assert forall|k: Seq<char>| #[trigger]
                    holds_name(self.names@, k) == old(self)@.insert(name@, state).contains_key(
                        k,
                    ) by {
                    if holds_name(old_names, k) {
                        let j = position_of(old_names, k);
                        assert(self.names@[j] == old_names[j]);
                    }
                    if holds_name(self.names@, k) && k != name@ {
                        let j = position_of(self.names@, k);
                        assert(j != n);
                        assert(self.names@[j] == old_names[j]);
                    }
                    assert(self.names@[n]@ == name@);
                }
                assert forall|k: Seq<char>| #[trigger] holds_name(self.names@, k) implies self@[k]
                    == old(self)@.insert(name@, state)[k] by {
                    let j = position_of(self.names@, k);
                    assert(0 <= j < self.names@.len() && self.names@[j]@ == k);
                    lemma_position_of(self.names@, j);
                    if j < n {
                        assert(self.names@[j] == old_names[j]);
                        lemma_position_of(old_names, j);
                        assert(self.states@[j] == old_states[j]);
                    }
                }
                assert(self@ =~= old(self)@.insert(name@, state));
            },
        }
    }

    /// Forgets every state.
    pub fn clear(&mut self)
        ensures
            final(self)@ == Map::<Seq<char>, EngineState>::empty(),
    {
        *self = EngineStates { names: Vec::new(), states: Vec::new() };
        assert(self@ =~= Map::<Seq<char>, EngineState>::empty());
    }
}


// ---------------------------------------------------------------------------
// The application
// ---------------------------------------------------------------------------

/// Current view.
#[derive(Debug, Clone, Copy, PartialEq, Eq, Structural)]
pub enum View {
    /// Main profile list view
    Main,
    /// Profile editor
    Editor,
    /// Device list
    Devices,
    /// Event viewer/debugger
    Events,
    /// Settings view
    Settings,
}

/// A running profile as the daemon reports it; its uptime, a fraction of
/// seconds, is the caller's to show.
#[derive(Debug)]
pub struct DaemonProfile {
    pub name: String,
    pub state: EngineState,
    pub events_processed: u64,
}

/// Application messages.
#[derive(Debug)]
pub enum Message {
    /// Profile selected
    ProfileSelected(usize),
    /// Start a profile
    StartProfile(String),
    /// Stop a profile
    StopProfile(String),
    /// Create new profile
    CreateProfile,
    /// Edit profile
    EditProfile(String),
    /// Delete profile
    DeleteProfile(String),
    /// Toggle profile enabled
    ToggleProfile(String),
    /// Save profile from editor
    SaveProfile(Profile),
    /// Cancel profile editing
    CancelEdit,
    /// Switch to view
    SwitchView(View),
    /// Refresh device list
    RefreshDevices,
    /// Device list loaded
    DevicesLoaded(Vec<DeviceInfo>),
    /// Reload configuration
    ReloadConfig,
    /// Config loaded
    ConfigLoaded(Result<ConfigManager, String>),
    /// Engine state changed
    EngineStateChanged(String, EngineState),
    /// Error occurred
    Error(String),
    /// Clear status
    ClearStatus,
    /// Periodic tick to poll engine state updates
    Tick,
    /// Toggle execution mode between background thread and daemon
    ToggleExecutionMode,
    /// Connect to daemon
    ConnectToDaemon,
    /// Daemon connection result
    DaemonConnected(Result<(), String>),
    /// Daemon status received
    DaemonStatusReceived(Result<Vec<DaemonProfile>, String>),
    /// Spawn daemon process
    SpawnDaemon,
    /// Daemon spawned result
    DaemonSpawned(Result<(), String>),
    /// Daemon operation result (start/stop profile)
    DaemonOperationResult(Result<String, String>),
}

/// What the caller is to do after an update, in order.
#[derive(Debug)]
pub enum AppAction {
    /// Load the configuration file and answer with `ConfigLoaded`.
    LoadConfig,
    /// List the input devices and answer with `DevicesLoaded`.
    ListDevices,
    /// Save the configuration; where `report` is set, answer a failure
    /// with `Error` and the failure's text.
    SaveConfig { report: bool },
    /// Start the profile's engine in the background, keep its stop handle
    /// under the profile's name, pass on its state changes, and answer with
    /// `Tick` once the start has been carried out.
    SpawnEngine(Profile),
    /// Signal the named engine to stop.
    StopEngine(String),
    /// Signal every engine to stop and drop their handles.
    StopAllEngines,
    /// Drop the named engine's handle.
    ReleaseEngine(String),
    /// Answer with `Tick` after this many milliseconds.
    TickAfter(u64),
    /// Connect to the daemon and answer with `DaemonConnected`.
    DaemonConnect,
    /// Start the daemon process and answer with `DaemonSpawned`.
    DaemonSpawn,
    /// Ask the daemon for its running profiles and answer with
    /// `DaemonStatusReceived`.
    DaemonStatus,
    /// Ask the daemon to start a profile and answer with
    /// `DaemonOperationResult`.
    DaemonStart(String),
    /// Ask the daemon to stop a profile and answer with
    /// `DaemonOperationResult`.
    DaemonStop(String),
}

/// What the application holds.
pub struct AppView {
    pub view: View,
    pub config: Option<ConfigManager>,
    pub config_error: Option<Seq<char>>,
    pub running: Set<Seq<char>>,
    pub engine_states: Map<Seq<char>, EngineState>,
    pub selected_profile: Option<usize>,
    pub profile_editor: Option<ProfileEditor>,
    pub devices: Seq<DeviceInfo>,
    pub status: Seq<char>,
    pub daemon_state: DaemonConnectionState,
    pub daemon_linked: bool,
    pub daemon_profiles: Seq<DaemonProfile>,
}

/// Main application state.
pub struct RemapperApp {
    /// Current view
    view: View,
    /// Configuration manager
    config: Option<ConfigManager>,
    /// Error message if config failed to load
    config_error: Option<String>,
    /// Profiles whose engines run in this process
    running: NameSet,
    /// Engine states for display
    engine_states: EngineStates,
    /// Selected profile index
    selected_profile: Option<usize>,
    /// Profile editor state (when editing)
    profile_editor: Option<ProfileEditor>,
    /// Available devices
    devices: Vec<DeviceInfo>,
    /// Status message
    status: String,
    /// Daemon connection state
    daemon_state: DaemonConnectionState,
    /// Whether a daemon connection is held
    daemon_linked: bool,
    /// The daemon's last report of its running profiles
    daemon_profiles: Vec<DaemonProfile>,
}

impl vstd::view::View for RemapperApp {
    type V = AppView;

    closed spec fn view(&self) -> AppView {
        AppView {
            view: self.view,
            config: self.config,
            config_error: match self.config_error {
                Some(e) => Some(e@),
                None => None,
            },
            running: self.running@,
            engine_states: self.engine_states@,
            selected_profile: self.selected_profile,
            profile_editor: self.profile_editor,
            devices: self.devices@,
            status: self.status@,
            daemon_state: self.daemon_state,
            daemon_linked: self.daemon_linked,
            daemon_profiles: self.daemon_profiles@,
        }
    }
}

/// The execution mode the configuration asks for; background threads when
/// there is no configuration.
pub open spec fn app_mode(v: AppView) -> ExecutionMode {
    match v.config {
        Some(c) => c.config_view().settings.execution_mode,
        None => ExecutionMode::BackgroundThread,
    }
}

/// The profile of that name in the loaded configuration.
pub open spec fn configured_profile(v: AppView, name: Seq<char>) -> Option<Profile> {
    match v.config {
        Some(c) => profile_named(c.config_view().profiles@, name),
        None => None,
    }
}

/// `c` is `old` with the profiles `ps`, the rest unchanged.
pub open spec fn manager_with_profiles(old: ConfigManager, c: ConfigManager, ps: Seq<Profile>) -> bool {
    &&& c.path_view() == old.path_view()
    &&& c.config_view().version == old.config_view().version
    &&& c.config_view().settings == old.config_view().settings
    &&& c.config_view().profiles@ == ps
}

/// The single action is the one given by `f` on a name.
pub open spec fn one_named(acts: Seq<AppAction>, name: Seq<char>, which: spec_fn(AppAction, Seq<char>) -> bool) -> bool {
    acts.len() == 1 && which(acts[0], name)
}

/// The action asks the daemon to start the profile.
pub open spec fn daemon_start_of(a: AppAction, name: Seq<char>) -> bool {
    a matches AppAction::DaemonStart(n) && n@ == name
}

/// The action asks the daemon to stop the profile.
pub open spec fn daemon_stop_of(a: AppAction, name: Seq<char>) -> bool {
    a matches AppAction::DaemonStop(n) && n@ == name
}

/// The app after an engine reports its state: the state is recorded, a
/// stopped or failed engine leaves the running set (and its handle is
/// dropped), and the status tells the state or the error.
pub open spec fn after_report(
    v: AppView,
    name: Seq<char>,
    state: EngineState,
    error: Option<Seq<char>>,
    w: AppView,
    acts: Seq<AppAction>,
) -> bool {
    let gone = state == EngineState::Stopped || state == EngineState::Error;
    &&& w == AppView {
        engine_states: v.engine_states.insert(name, state),
        running: if gone {
            v.running.remove(name)
        } else {
            v.running
        },
        status: match error {
            Some(e) => "Error ("@ + name + "): "@ + e,
            None => name + ": "@ + engine_state_text(state),
        },
        ..v
    }
    &&& if gone {
        acts.len() == 1 && (acts[0] matches AppAction::ReleaseEngine(n) && n@ == name)
    } else {
        acts.len() == 0
    }
}

/// Starting a profile: through the daemon when in daemon mode (once
/// connected), else in this process, unless it already runs here or the
/// configuration does not hold it.
pub open spec fn after_start(v: AppView, name: Seq<char>, w: AppView, acts: Seq<AppAction>) -> bool {
    if app_mode(v) == ExecutionMode::Daemon {
        if v.daemon_state != DaemonConnectionState::Connected {
            w == AppView { status: "Not connected to daemon"@, ..v } && acts.len() == 0
        } else {
            &&& w == AppView {
                status: "Starting "@ + name + " via daemon..."@,
                engine_states: v.engine_states.insert(name, EngineState::Starting),
                ..v
            }
            &&& one_named(acts, name, |a: AppAction, n: Seq<char>| daemon_start_of(a, n))
        }
    } else if v.running.contains(name) {
        w == AppView { status: "Profile '"@ + name + "' is already running"@, ..v } && acts.len()
            == 0
    } else {
        match configured_profile(v, name) {
            Some(p) => {
                &&& w == AppView {
                    status: "Starting "@ + name + "..."@,
                    engine_states: v.engine_states.insert(name, EngineState::Starting),
                    running: v.running.insert(name),
                    ..v
                }
                &&& acts.len() == 1
                &&& acts[0] matches AppAction::SpawnEngine(q) && same_profile(p, q)
            },
            None => w == AppView { status: "Error: Profile '"@ + name + "' not found"@, ..v }
                && acts.len() == 0,
        }
    }
}

/// Stopping a profile: through the daemon when in daemon mode (once
/// connected), else by signalling its engine here, if it runs.
pub open spec fn after_stop(v: AppView, name: Seq<char>, w: AppView, acts: Seq<AppAction>) -> bool {
    if app_mode(v) == ExecutionMode::Daemon {
        if v.daemon_state != DaemonConnectionState::Connected {
            w == AppView { status: "Not connected to daemon"@, ..v } && acts.len() == 0
        } else {
            &&& w == AppView {
                status: "Stopping "@ + name + " via daemon..."@,
                engine_states: v.engine_states.insert(name, EngineState::Stopping),
                ..v
            }
            &&& one_named(acts, name, |a: AppAction, n: Seq<char>| daemon_stop_of(a, n))
        }
    } else if v.running.contains(name) {
        &&& w == AppView {
            status: "Stopping "@ + name + "..."@,
            engine_states: v.engine_states.insert(name, EngineState::Stopping),
            ..v
        }
        &&& acts.len() == 2
        &&& acts[0] matches AppAction::StopEngine(n) && n@ == name
        &&& acts[1] matches AppAction::TickAfter(ms) && ms == 50
    } else {
        w == AppView { status: "Profile '"@ + name + "' is not running"@, ..v } && acts.len() == 0
    }
}

/// A tick: in daemon mode, a status request once connected; otherwise
/// another tick while engines run here.
pub open spec fn after_tick(v: AppView, w: AppView, acts: Seq<AppAction>) -> bool {
    &&& w == v
    &&& if app_mode(v) == ExecutionMode::Daemon {
        if v.daemon_state == DaemonConnectionState::Connected {
            acts.len() == 1 && acts[0] is DaemonStatus
        } else {
            acts.len() == 0
        }
    } else if v.running != Set::<Seq<char>>::empty() {
        acts.len() == 1 && (acts[0] matches AppAction::TickAfter(ms) && ms == 100)
    } else {
        acts.len() == 0
    }
}

/// Editing a profile of the configuration opens the editor on it.
pub open spec fn after_edit(v: AppView, name: Seq<char>, w: AppView) -> bool {
    match configured_profile(v, name) {
        Some(p) => w == AppView { view: View::Editor, profile_editor: w.profile_editor, ..v }
            && (w.profile_editor matches Some(e) && editor_of_profile(p, e)),
        None => w == v,
    }
}

/// Deleting a profile from the configuration, which is then saved.
pub open spec fn after_delete(v: AppView, name: Seq<char>, w: AppView, acts: Seq<AppAction>) -> bool {
    match v.config {
        None => w == v && acts.len() == 0,
        Some(c) => {
            &&& w.config matches Some(c2) && manager_with_profiles(
                c,
                c2,
                match first_named(c.config_view().profiles@, name) {
                    Some(i) => c.config_view().profiles@.remove(i),
                    None => c.config_view().profiles@,
                },
            )
            &&& match first_named(c.config_view().profiles@, name) {
                Some(i) => {
                    &&& w == AppView {
                        config: w.config,
                        status: "Deleted profile: "@ + name,
                        selected_profile: None,
                        ..v
                    }
                    &&& acts.len() == 1 && acts[0] == (AppAction::SaveConfig { report: true })
                },
                None => w == AppView {
                    config: w.config,
                    status: "Error: "@ + ("Profile not found: "@ + name),
                    ..v
                } && acts.len() == 0,
            }
        },
    }
}

/// Turning a profile of the configuration on or off; the configuration is
/// then saved.
pub open spec fn after_toggle_profile(
    v: AppView,
    name: Seq<char>,
    w: AppView,
    acts: Seq<AppAction>,
) -> bool {
    match v.config {
        None => w == v && acts.len() == 0,
        Some(c) => match first_named(c.config_view().profiles@, name) {
            Some(i) => {
                let p = c.config_view().profiles@[i];
                &&& w == AppView {
                    config: w.config,
                    status: if p.enabled {
                        "Disabled: "@ + name
                    } else {
                        "Enabled: "@ + name
                    },
                    ..v
                }
                &&& w.config matches Some(c2) && manager_with_profiles(
                    c,
                    c2,
                    c.config_view().profiles@.update(i, Profile { enabled: !p.enabled, ..p }),
                )
                &&& acts.len() == 1 && acts[0] == (AppAction::SaveConfig { report: false })
            },
            None => {
                &&& w == AppView { config: w.config, ..v }
                &&& w.config matches Some(c2) && manager_with_profiles(
                    c,
                    c2,
                    c.config_view().profiles@,
                )
                &&& acts.len() == 0
            },
        },
    }
}

/// Saving the edited profile: a new name adds it, a known name replaces the
/// first profile of that name (the new one goes last); the editor closes.
pub open spec fn after_save(v: AppView, p: Profile, w: AppView, acts: Seq<AppAction>) -> bool {
    match v.config {
        None => w == AppView { profile_editor: None, view: View::Main, ..v } && acts.len() == 0,
        Some(c) => {
            let ps = c.config_view().profiles@;
            let refused = match first_named(ps, p.name@) {
                Some(i) => has_named(ps.remove(i), p.name@),
                None => false,
            };
            &&& w == AppView {
                config: w.config,
                status: w.status,
                profile_editor: None,
                view: View::Main,
                ..v
            }
            &&& w.config matches Some(c2) && manager_with_profiles(
                c,
                c2,
                match first_named(ps, p.name@) {
                    Some(i) => if refused {
                        ps
                    } else {
                        ps.remove(i).push(p)
                    },
                    None => ps.push(p),
                },
            )
            &&& w.status == match first_named(ps, p.name@) {
                Some(i) => if refused {
                    "Error: "@ + "Profile already exists: "@ + p.name@
                } else {
                    "Updated profile: "@ + p.name@
                },
                None => "Created profile: "@ + p.name@,
            }
            &&& if refused {
                acts.len() == 0
            } else {
                acts.len() == 1 && acts[0] == (AppAction::SaveConfig { report: true })
            }
        },
    }
}

/// A loaded configuration replaces the held one, and in daemon mode the
/// connection to the daemon is sought; a failure is kept and shown.
pub open spec fn after_config_loaded(
    v: AppView,
    result: Result<ConfigManager, String>,
    w: AppView,
    acts: Seq<AppAction>,
) -> bool {
    match result {
        Ok(c) => {
            let daemon = c.config_view().settings.execution_mode == ExecutionMode::Daemon;
            &&& w == AppView {
                config: Some(c),
                config_error: None,
                status: "Loaded "@ + dec_str(c.config_view().profiles@.len()) + " profiles"@,
                daemon_state: if daemon {
                    DaemonConnectionState::Connecting
                } else {
                    v.daemon_state
                },
                ..v
            }
            &&& if daemon {
                acts.len() == 1 && acts[0] is DaemonConnect
            } else {
                acts.len() == 0
            }
        },
        Err(e) => w == AppView { config_error: Some(e@), status: "Error: "@ + e@, ..v }
            && acts.len() == 0,
    }
}

/// The engine states after switching to the daemon: every engine running
/// here is stopping.
pub open spec fn stopping_all(states: Map<Seq<char>, EngineState>, running: Set<Seq<char>>) -> Map<
    Seq<char>,
    EngineState,
> {
    states.union_prefer_right(Map::new(|k: Seq<char>| running.contains(k), |k: Seq<char>| EngineState::Stopping))
}

/// Switching between running profiles here and in the daemon: the mode is
/// saved; towards the daemon the engines here are stopped and the daemon is
/// sought, back from it the daemon's state is forgotten.
pub open spec fn after_toggle_mode(v: AppView, w: AppView, acts: Seq<AppAction>) -> bool {
    match v.config {
        None => w == v && acts.len() == 0,
        Some(c) => {
            let m = if c.config_view().settings.execution_mode == ExecutionMode::Daemon {
                ExecutionMode::BackgroundThread
            } else {
                ExecutionMode::Daemon
            };
            &&& w.config matches Some(c2) && {
                &&& c2.path_view() == c.path_view()
                &&& c2.config_view().version == c.config_view().version
                &&& c2.config_view().settings == Settings {
                    execution_mode: m,
                    ..c.config_view().settings
                }
                &&& c2.config_view().profiles == c.config_view().profiles
            }
            &&& if m == ExecutionMode::Daemon {
                &&& w == AppView {
                    config: w.config,
                    status: "Execution mode: "@ + execution_mode_text(m),
                    engine_states: stopping_all(v.engine_states, v.running),
                    running: Set::empty(),
                    daemon_state: DaemonConnectionState::Connecting,
                    ..v
                }
                &&& acts.len() == 3
                &&& acts[0] == (AppAction::SaveConfig { report: false })
                &&& acts[1] is StopAllEngines
                &&& acts[2] is DaemonConnect
            } else {
                &&& w == AppView {
                    config: w.config,
                    status: "Execution mode: "@ + execution_mode_text(m),
                    engine_states: Map::empty(),
                    daemon_state: DaemonConnectionState::Disconnected,
                    daemon_linked: false,
                    daemon_profiles: Seq::empty(),
                    ..v
                }
                &&& acts.len() == 1
                &&& acts[0] == (AppAction::SaveConfig { report: false })
            }
        },
    }
}

/// The engine states the daemon reports, a later report of a name winning.
pub open spec fn reported_states(ps: Seq<DaemonProfile>) -> Map<Seq<char>, EngineState>
    decreases ps.len(),
{
    if ps.len() == 0 {
        Map::empty()
    } else {
        reported_states(ps.drop_last()).insert(ps.last().name@, ps.last().state)
    }
}

/// How the application changes on a message, and what it asks the caller
/// to do.
pub open spec fn app_updated(v: AppView, m: Message, w: AppView, acts: Seq<AppAction>) -> bool {
    match m {
        Message::ProfileSelected(i) => w == AppView { selected_profile: Some(i), ..v }
            && acts.len() == 0,
        Message::StartProfile(name) => after_start(v, name@, w, acts),
        Message::StopProfile(name) => after_stop(v, name@, w, acts),
        Message::Tick => after_tick(v, w, acts),
        Message::CreateProfile => w == AppView {
            view: View::Editor,
            profile_editor: w.profile_editor,
            ..v
        } && (w.profile_editor matches Some(e) && fresh_profile_editor(e)) && acts.len() == 0,
        Message::EditProfile(name) => after_edit(v, name@, w) && acts.len() == 0,
        Message::DeleteProfile(name) => after_delete(v, name@, w, acts),
        Message::ToggleProfile(name) => after_toggle_profile(v, name@, w, acts),
        Message::SaveProfile(p) => after_save(v, p, w, acts),
        Message::CancelEdit => w == AppView { profile_editor: None, view: View::Main, ..v }
            && acts.len() == 0,
        Message::SwitchView(view) => w == AppView { view, ..v } && if view == View::Devices {
            acts.len() == 1 && acts[0] is ListDevices
        } else {
            acts.len() == 0
        },
        Message::RefreshDevices => w == v && acts.len() == 1 && acts[0] is ListDevices,
        Message::DevicesLoaded(ds) => w == AppView {
            devices: ds@,
            status: "Found "@ + dec_str(ds@.len()) + " devices"@,
            ..v
        } && acts.len() == 0,
        Message::ReloadConfig => w == v && acts.len() == 1 && acts[0] is LoadConfig,
        Message::ConfigLoaded(result) => after_config_loaded(v, result, w, acts),
        Message::EngineStateChanged(name, state) => after_report(v, name@, state, None, w, acts),
        Message::Error(msg) => w == AppView { status: "Error: "@ + msg@, ..v } && acts.len() == 0,
        Message::ClearStatus => w == AppView { status: Seq::empty(), ..v } && acts.len() == 0,
        Message::ToggleExecutionMode => after_toggle_mode(v, w, acts),
        Message::ConnectToDaemon => w == AppView {
            daemon_state: DaemonConnectionState::Connecting,
            ..v
        } && acts.len() == 1 && acts[0] is DaemonConnect,
        Message::DaemonConnected(result) => match result {
            Ok(()) => {
                &&& w == AppView {
                    daemon_state: DaemonConnectionState::Connected,
                    daemon_linked: true,
                    status: "Connected to daemon"@,
                    ..v
                }
                &&& acts.len() == 1 && (acts[0] matches AppAction::TickAfter(ms) && ms == 100)
            },
            Err(e) => w == AppView {
                daemon_state: DaemonConnectionState::Unavailable,
                status: "Daemon unavailable: "@ + e@,
                ..v
            } && acts.len() == 0,
        },
        Message::DaemonStatusReceived(result) => match result {
            Ok(ps) => {
                &&& w == AppView { engine_states: reported_states(ps@), daemon_profiles: ps@, ..v }
                &&& acts.len() == 1 && (acts[0] matches AppAction::TickAfter(ms) && ms == 500)
            },
            Err(e) => w == AppView {
                daemon_state: DaemonConnectionState::Unavailable,
                daemon_linked: false,
                status: "Daemon connection lost: "@ + e@,
                ..v
            } && acts.len() == 0,
        },
        Message::SpawnDaemon => w == AppView {
            status: "Spawning daemon..."@,
            daemon_state: DaemonConnectionState::Connecting,
            ..v
        } && acts.len() == 1 && acts[0] is DaemonSpawn,
        Message::DaemonSpawned(result) => match result {
            Ok(()) => w == AppView { status: "Daemon spawned, connecting..."@, ..v } && acts.len()
                == 1 && acts[0] is DaemonConnect,
            Err(e) => w == AppView {
                daemon_state: DaemonConnectionState::Unavailable,
                status: "Failed to spawn daemon: "@ + e@,
                ..v
            } && acts.len() == 0,
        },
        Message::DaemonOperationResult(result) => {
            &&& w == AppView {
                status: match result {
                    Ok(msg) => msg@,
                    Err(e) => "Error: "@ + e@,
                },
                ..v
            }
            &&& acts.len() == 1 && (acts[0] matches AppAction::TickAfter(ms) && ms == 100)
        },
    }
}

fn cat(a: &str, b: &str) -> (r: String)
    ensures
        r@ == a@ + b@,
{
    let mut s = String::from_str(a);
    s.append(b);
    s
}

fn cat3(a: &str, b: &str, c: &str) -> (r: String)
    ensures
        r@ == a@ + b@ + c@,
{
    let mut s = String::from_str(a);
    s.append(b);
    s.append(c);
    s
}

impl NameSet {
    /// The names, each once.
    pub fn names(&self) -> (r: &Vec<String>)
        ensures
            name_set(r@) == self@,
            distinct_names(r@),
    {
        proof {
            use_type_invariant(self);
        }
        &self.names
    }
}

impl RemapperApp {
    /// The application as it starts: the main view, no configuration yet,
    /// status `Loading...`; the configuration is to be loaded.
    pub fn new() -> (r: (Self, Vec<AppAction>))
        ensures
            r.0@.view == View::Main,
            r.0@.config is None,
            r.0@.config_error is None,
            r.0@.running == Set::<Seq<char>>::empty(),
            r.0@.engine_states == Map::<Seq<char>, EngineState>::empty(),
            r.0@.selected_profile is None,
            r.0@.profile_editor is None,
            r.0@.devices.len() == 0,
            r.0@.status == "Loading..."@,
            r.0@.daemon_state == DaemonConnectionState::Disconnected,
            !r.0@.daemon_linked,
            r.0@.daemon_profiles.len() == 0,
            r.1@.len() == 1 && r.1@[0] is LoadConfig,
    {
        let mut app = Self::default();
        app.status = String::from_str("Loading...");
        (app, vec![AppAction::LoadConfig])
    }

    /// The title of the window.
    pub fn title(&self) -> (r: String)
        ensures
            r@ == "Remapper"@,
    {
        String::from_str("Remapper")
    }

    /// The view shown.
    pub fn current_view(&self) -> (r: View)
        ensures
            r == self@.view,
    {
        self.view
    }

    /// The loaded configuration.
    pub fn config(&self) -> (r: Option<&ConfigManager>)
        ensures
            match r {
                Some(c) => self@.config == Some(*c),
                None => self@.config is None,
            },
    {
        match &self.config {
            Some(c) => Some(c),
            None => None,
        }
    }

    /// Why the configuration could not be loaded.
    pub fn config_error(&self) -> (r: Option<&str>)
        ensures
            match r {
                Some(e) => self@.config_error == Some(e@),
                None => self@.config_error is None,
            },
    {
        match &self.config_error {
            Some(e) => Some(e.as_str()),
            None => None,
        }
    }

    /// The state recorded for a profile's engine.
    pub fn engine_state(&self, name: &str) -> (r: Option<EngineState>)
        ensures
            match r {
                Some(s) => self@.engine_states.contains_key(name@) && self@.engine_states[name@]
                    == s,
                None => !self@.engine_states.contains_key(name@),
            },
    {
        self.engine_states.get(name)
    }

    /// Whether the profile's engine runs in this process.
    pub fn is_running_here(&self, name: &str) -> (r: bool)
        ensures
            r == self@.running.contains(name@),
    {
        self.running.contains(name)
    }

    /// The selected profile's position.
    pub fn selected_profile(&self) -> (r: Option<usize>)
        ensures
            r == self@.selected_profile,
    {
        self.selected_profile
    }

    /// The profile editor, while one is open.
    pub fn profile_editor(&self) -> (r: Option<&ProfileEditor>)
        ensures
            match r {
                Some(e) => self@.profile_editor == Some(*e),
                None => self@.profile_editor is None,
            },
    {
        match &self.profile_editor {
            Some(e) => Some(e),
            None => None,
        }
    }

    /// The devices last listed.
    pub fn devices(&self) -> (r: &Vec<DeviceInfo>)
        ensures
            r@ == self@.devices,
    {
        &self.devices
    }

    /// The status line.
    pub fn status(&self) -> (r: &str)
        ensures
            r@ == self@.status,
    {
        self.status.as_str()
    }

    /// The connection to the daemon.
    pub fn daemon_state(&self) -> (r: DaemonConnectionState)
        ensures
            r == self@.daemon_state,
    {
        self.daemon_state
    }

    /// The daemon's last report of its running profiles.
    pub fn daemon_profiles(&self) -> (r: &Vec<DaemonProfile>)
        ensures
            r@ == self@.daemon_profiles,
    {
        &self.daemon_profiles
    }

    /// The execution mode the configuration asks for.
    pub fn execution_mode(&self) -> (r: ExecutionMode)
        ensures
            r == app_mode(self@),
    {
        match &self.config {
            Some(c) => c.config().settings.execution_mode,
            None => ExecutionMode::BackgroundThread,
        }
    }

    /// Whether profiles run in the daemon.
    pub fn is_daemon_mode(&self) -> (r: bool)
        ensures
            r == (app_mode(self@) == ExecutionMode::Daemon),
    {
        self.execution_mode() == ExecutionMode::Daemon
    }

    /// Takes an engine's report of its state, as the engines running here
    /// send them; the caller passes each pending report before a `Tick`.
    pub fn engine_report(&mut self, name: String, state: EngineState, error: Option<String>) -> (acts: Vec<AppAction>)
        ensures
            after_report(
                old(self)@,
                name@,
                state,
                match error {
                    Some(e) => Some(e@),
                    None => None,
                },
                final(self)@,
                acts@,
            ),
    {
        self.engine_states.insert(name.clone(), state);
        self.status = match &error {
            Some(e) => {
                let mut s = cat3("Error (", name.as_str(), "): ");
                s.append(e.as_str());
                s
            },
            None => {
                let st = state.to_string();
                cat3(name.as_str(), ": ", st.as_str())
            },
        };
        if state == EngineState::Stopped || state == EngineState::Error {
            self.running.remove(name.as_str());
            vec![AppAction::ReleaseEngine(name)]
        } else {
            Vec::new()
        }
    }

    fn start_profile(&mut self, name: String) -> (acts: Vec<AppAction>)
        ensures
            after_start(old(self)@, name@, final(self)@, acts@),
    {
        if self.is_daemon_mode() {
            if self.daemon_state != DaemonConnectionState::Connected {
                self.status = String::from_str("Not connected to daemon");
                return Vec::new();
            }
            self.status = cat3("Starting ", name.as_str(), " via daemon...");
            self.engine_states.insert(name.clone(), EngineState::Starting);
            return vec![AppAction::DaemonStart(name)];
        }
        if self.running.contains(name.as_str()) {
            self.status = cat3("Profile '", name.as_str(), "' is already running");
            return Vec::new();
        }
        let found: Option<Profile> = match &self.config {
            Some(c) => match c.get_profile(name.as_str()) {
                Some(p) => Some(p.clone()),
                None => None,
            },
            None => None,
        };
        match found {
            Some(p) => {
                self.status = cat3("Starting ", name.as_str(), "...");
                self.engine_states.insert(name.clone(), EngineState::Starting);
                self.running.insert(name);
                vec![AppAction::SpawnEngine(p)]
            },
            None => {
                self.status = cat3("Error: Profile '", name.as_str(), "' not found");
                Vec::new()
            },
        }
    }

    fn stop_profile(&mut self, name: String) -> (acts: Vec<AppAction>)
        ensures
            after_stop(old(self)@, name@, final(self)@, acts@),
    {
        if self.is_daemon_mode() {
            if self.daemon_state != DaemonConnectionState::Connected {
                self.status = String::from_str("Not connected to daemon");
                return Vec::new();
            }
            self.status = cat3("Stopping ", name.as_str(), " via daemon...");
            self.engine_states.insert(name.clone(), EngineState::Stopping);
            return vec![AppAction::DaemonStop(name)];
        }
        if self.running.contains(name.as_str()) {
            self.status = cat3("Stopping ", name.as_str(), "...");
            self.engine_states.insert(name.clone(), EngineState::Stopping);
            vec![AppAction::StopEngine(name), AppAction::TickAfter(50)]
        } else {
            self.status = cat3("Profile '", name.as_str(), "' is not running");
            Vec::new()
        }
    }

    fn tick(&self) -> (acts: Vec<AppAction>)
        ensures
            after_tick(self@, self@, acts@),
    {
        if self.is_daemon_mode() {
            if self.daemon_state == DaemonConnectionState::Connected {
                vec![AppAction::DaemonStatus]
            } else {
                Vec::new()
            }
        } else if !self.running.is_empty() {
            vec![AppAction::TickAfter(100)]
        } else {
            Vec::new()
        }
    }

    fn edit_profile(&mut self, name: String)
        ensures
            after_edit(old(self)@, name@, final(self)@),
    {
        let opened: Option<ProfileEditor> = match &self.config {
            Some(c) => match c.get_profile(name.as_str()) {
                Some(p) => {
                    let q = p.clone();
                    let ghost gq = q;
                    let e = ProfileEditor::from_profile(q);
                    proof {
                        lemma_editor_of_same_profile(*p, gq, e);
                    }
                    Some(e)
                },
                None => None,
            },
            None => None,
        };
        match opened {
            Some(e) => {
                self.profile_editor = Some(e);
                self.view = View::Editor;
            },
            None => {},
        }
    }

    fn delete_profile(&mut self, name: String) -> (acts: Vec<AppAction>)
        ensures
            after_delete(old(self)@, name@, final(self)@, acts@),
    {
        match self.config.take() {
            None => Vec::new(),
            Some(mut c) => {
                let result = c.delete_profile(name.as_str());
                self.config = Some(c);
                match result {
                    Ok(()) => {
                        self.status = cat("Deleted profile: ", name.as_str());
                        self.selected_profile = None;
                        vec![AppAction::SaveConfig { report: true }]
                    },
                    Err(e) => {
                        let t = e.to_string();
                        self.status = cat("Error: ", t.as_str());
                        Vec::new()
                    },
                }
            },
        }
    }

    fn toggle_profile(&mut self, name: String) -> (acts: Vec<AppAction>)
        ensures
            after_toggle_profile(old(self)@, name@, final(self)@, acts@),
    {
        match self.config.take() {
            None => Vec::new(),
            Some(mut c) => {
                let current = match c.get_profile(name.as_str()) {
                    Some(p) => Some(p.enabled),
                    None => None,
                };
                match current {
                    Some(was) => {
                        let _ = c.set_profile_enabled(name.as_str(), !was);
                        self.config = Some(c);
                        self.status = if was {
                            cat("Disabled: ", name.as_str())
                        } else {
                            cat("Enabled: ", name.as_str())
                        };
                        vec![AppAction::SaveConfig { report: false }]
                    },
                    None => {
                        self.config = Some(c);
                        Vec::new()
                    },
                }
            },
        }
    }

    fn save_profile(&mut self, profile: Profile) -> (acts: Vec<AppAction>)
        ensures
            after_save(old(self)@, profile, final(self)@, acts@),
    {
        let acts = match self.config.take() {
            None => Vec::new(),
            Some(mut c) => {
                let ghost ps = c.config_view().profiles@;
                let ghost gp = profile;
                let name = profile.name.clone();
                let is_new = c.get_profile(name.as_str()).is_none();
                if is_new {
                    let result = c.add_profile(profile);
                    proof {
                        if has_named(ps, gp.name@) {
                            let i = choose|i: int| 0 <= i < ps.len() && (#[trigger] ps[i]).name@ == gp.name@;
                            lemma_first_named_exists(ps, gp.name@, i);
                        }
                    }
                    self.status = cat("Created profile: ", name.as_str());
                    let _ = result;
                    self.config = Some(c);
                    vec![AppAction::SaveConfig { report: true }]
                } else {
                    match c.update_profile(name.as_str(), profile) {
                        Ok(()) => {
                            self.status = cat("Updated profile: ", name.as_str());
                            self.config = Some(c);
                            vec![AppAction::SaveConfig { report: true }]
                        },
                        Err(e) => {
                            let text = e.to_string();
                            self.status = cat("Error: ", text.as_str());
                            proof {
                                assert(text@ == "Profile already exists: "@ + gp.name@);
                                assert(self.status@ =~= "Error: "@ + "Profile already exists: "@
                                    + gp.name@);
                            }
                            self.config = Some(c);
                            Vec::new()
                        },
                    }
                }
            },
        };
        self.profile_editor = None;
        self.view = View::Main;
        acts
    }

    fn config_loaded(&mut self, result: Result<ConfigManager, String>) -> (acts: Vec<AppAction>)
        ensures
            after_config_loaded(old(self)@, result, final(self)@, acts@),
    {
        match result {
            Ok(c) => {
                let count = c.profiles().len();
                let daemon = c.config().settings.execution_mode == ExecutionMode::Daemon;
                self.config = Some(c);
                self.config_error = None;
                let mut s = String::from_str("Loaded ");
                push_dec(&mut s, count as u64);
                s.append(" profiles");
                self.status = s;
                if daemon {
                    self.daemon_state = DaemonConnectionState::Connecting;
                    vec![AppAction::DaemonConnect]
                } else {
                    Vec::new()
                }
            },
            Err(e) => {
                self.status = cat("Error: ", e.as_str());
                self.config_error = Some(e);
                Vec::new()
            },
        }
    }

    fn toggle_mode(&mut self) -> (acts: Vec<AppAction>)
        ensures
            after_toggle_mode(old(self)@, final(self)@, acts@),
    {
        match self.config.take() {
            None => Vec::new(),
            Some(mut c) => {
                let next = if c.config().settings.execution_mode == ExecutionMode::Daemon {
                    ExecutionMode::BackgroundThread
                } else {
                    ExecutionMode::Daemon
                };
                c.config_mut().settings.execution_mode = next;
                self.config = Some(c);
                let m = next.to_string();
                self.status = cat("Execution mode: ", m.as_str());
                if next == ExecutionMode::Daemon {
                    self.mark_running_stopping();
                    self.running.clear();
                    self.daemon_state = DaemonConnectionState::Connecting;
                    vec![
                        AppAction::SaveConfig { report: false },
                        AppAction::StopAllEngines,
                        AppAction::DaemonConnect,
                    ]
                } else {
                    self.daemon_state = DaemonConnectionState::Disconnected;
                    self.daemon_linked = false;
                    self.engine_states.clear();
                    self.daemon_profiles = Vec::new();
                    vec![AppAction::SaveConfig { report: false }]
                }
            },
        }
    }

    /// Records every engine running here as stopping.
    fn mark_running_stopping(&mut self)
        ensures
            final(self)@ == (AppView {
                engine_states: stopping_all(old(self)@.engine_states, old(self)@.running),
                ..old(self)@
            }),
    {
        let names = self.running.names();
        let ghost old_states = self.engine_states@;
        let ghost ns = names@;
        let mut i: usize = 0;
        while i < names.len()
            invariant
                0 <= i <= ns.len(),
                names@ == ns,
                self@ == (AppView { engine_states: self@.engine_states, ..old(self)@ }),
                forall|k: Seq<char>| #[trigger]
                    self.engine_states@.contains_key(k) == (old_states.contains_key(k)
                        || holds_name(ns.take(i as int), k)),
                forall|k: Seq<char>| #[trigger]
                    self.engine_states@.contains_key(k) ==> self.engine_states@[k] == if holds_name(
                        ns.take(i as int),
                        k,
                    ) {
                        EngineState::Stopping
                    } else {
                        old_states[k]
                    },
            decreases ns.len() - i,
        {
            let n = names[i].clone();
            proof {
                assert forall|k: Seq<char>| #[trigger]
                    holds_name(ns.take(i + 1), k) == (holds_name(ns.take(i as int), k) || k
                        == ns[i as int]@) by {
                    if holds_name(ns.take(i + 1), k) {
                        let j = choose|j: int| 0 <= j < ns.take(i + 1).len() && (#[trigger] ns.take(i + 1)[j])@ == k;
                        if j < i {
                            assert(ns.take(i as int)[j] == ns.take(i + 1)[j]);
                        }
                    }
                    if holds_name(ns.take(i as int), k) {
                        let j = choose|j: int| 0 <= j < ns.take(i as int).len() && (#[trigger] ns.take(i as int)[j])@ == k;
                        assert(ns.take(i + 1)[j] == ns.take(i as int)[j]);
                    }
                    if k == ns[i as int]@ {
                        assert(ns.take(i + 1)[i as int] == ns[i as int]);
                    }
                }
            }
            self.engine_states.insert(n, EngineState::Stopping);
            i = i + 1;
        }
        proof {
            assert(ns.take(ns.len() as int) =~= ns);
            assert forall|k: Seq<char>| #[trigger] holds_name(ns, k) == old(self)@.running.contains(k) by {}
            assert(self.engine_states@ =~= stopping_all(old_states, old(self)@.running));
        }
    }

    fn daemon_status(&mut self, result: Result<Vec<DaemonProfile>, String>) -> (acts: Vec<AppAction>)
        ensures
            app_updated(
                old(self)@,
                Message::DaemonStatusReceived(result),
                final(self)@,
                acts@,
            ),
    {
        match result {
            Ok(ps) => {
                self.engine_states.clear();
                let mut i: usize = 0;
                while i < ps.len()
                    invariant
                        0 <= i <= ps@.len(),
                        self@ == (AppView { engine_states: self@.engine_states, ..old(self)@ }),
                        self.engine_states@ == reported_states(ps@.take(i as int)),
                    decreases ps@.len() - i,
                {
                    proof {
                        assert(ps@.take(i + 1).drop_last() =~= ps@.take(i as int));
                    }
                    self.engine_states.insert(ps[i].name.clone(), ps[i].state);
                    i = i + 1;
                }
                proof {
                    assert(ps@.take(ps@.len() as int) =~= ps@);
                }
                self.daemon_profiles = ps;
                vec![AppAction::TickAfter(500)]
            },
            Err(e) => {
                self.daemon_state = DaemonConnectionState::Unavailable;
                self.daemon_linked = false;
                self.status = cat("Daemon connection lost: ", e.as_str());
                Vec::new()
            },
        }
    }

    /// Applies a message and says what the caller is to do next.
    pub fn update(&mut self, message: Message) -> (acts: Vec<AppAction>)
        ensures
            app_updated(old(self)@, message, final(self)@, acts@),
    {
        match message {
            Message::ProfileSelected(i) => {
                self.selected_profile = Some(i);
                Vec::new()
            },
            Message::StartProfile(name) => self.start_profile(name),
            Message::StopProfile(name) => self.stop_profile(name),
            Message::Tick => self.tick(),
            Message::CreateProfile => {
                self.profile_editor = Some(ProfileEditor::new());
                self.view = View::Editor;
                Vec::new()
            },
            Message::EditProfile(name) => {
                self.edit_profile(name);
                Vec::new()
            },
            Message::DeleteProfile(name) => self.delete_profile(name),
            Message::ToggleProfile(name) => self.toggle_profile(name),
            Message::SaveProfile(p) => self.save_profile(p),
            Message::CancelEdit => {
                self.profile_editor = None;
                self.view = View::Main;
                Vec::new()
            },
            Message::SwitchView(view) => {
                self.view = view;
                if view == View::Devices {
                    vec![AppAction::ListDevices]
                } else {
                    Vec::new()
                }
            },
            Message::RefreshDevices => vec![AppAction::ListDevices],
            Message::DevicesLoaded(devices) => {
                let mut s = String::from_str("Found ");
                push_dec(&mut s, devices.len() as u64);
                s.append(" devices");
                self.devices = devices;
                self.status = s;
                Vec::new()
            },
            Message::ReloadConfig => vec![AppAction::LoadConfig],
            Message::ConfigLoaded(result) => self.config_loaded(result),
            Message::EngineStateChanged(name, state) => self.engine_report(name, state, None),
            Message::Error(msg) => {
                self.status = cat("Error: ", msg.as_str());
                Vec::new()
            },
            Message::ClearStatus => {
                self.status = String::new();
                Vec::new()
            },
            Message::ToggleExecutionMode => self.toggle_mode(),
            Message::ConnectToDaemon => {
                self.daemon_state = DaemonConnectionState::Connecting;
                vec![AppAction::DaemonConnect]
            },
            Message::DaemonConnected(result) => match result {
                Ok(()) => {
                    self.daemon_state = DaemonConnectionState::Connected;
                    self.daemon_linked = true;
                    self.status = String::from_str("Connected to daemon");
                    vec![AppAction::TickAfter(100)]
                },
                Err(e) => {
                    self.daemon_state = DaemonConnectionState::Unavailable;
                    self.status = cat("Daemon unavailable: ", e.as_str());
                    Vec::new()
                },
            },
            Message::DaemonStatusReceived(result) => self.daemon_status(result),
            Message::SpawnDaemon => {
                self.status = String::from_str("Spawning daemon...");
                self.daemon_state = DaemonConnectionState::Connecting;
                vec![AppAction::DaemonSpawn]
            },
            Message::DaemonSpawned(result) => match result {
                Ok(()) => {
                    self.status = String::from_str("Daemon spawned, connecting...");
                    vec![AppAction::DaemonConnect]
                },
                Err(e) => {
                    self.daemon_state = DaemonConnectionState::Unavailable;
                    self.status = cat("Failed to spawn daemon: ", e.as_str());
                    Vec::new()
                },
            },
            Message::DaemonOperationResult(result) => {
                self.status = match result {
                    Ok(msg) => msg,
                    Err(e) => cat("Error: ", e.as_str()),
                };
                vec![AppAction::TickAfter(100)]
            },
        }
    }
}

impl Default for RemapperApp {
    fn default() -> (r: Self)
        ensures
            r@.view == View::Main,
            r@.config is None,
            r@.config_error is None,
            r@.running == Set::<Seq<char>>::empty(),
            r@.engine_states == Map::<Seq<char>, EngineState>::empty(),
            r@.selected_profile is None,
            r@.profile_editor is None,
            r@.devices.len() == 0,
            r@.status.len() == 0,
            r@.daemon_state == DaemonConnectionState::Disconnected,
            !r@.daemon_linked,
            r@.daemon_profiles.len() == 0,
    {
        RemapperApp {
            view: View::Main,
            config: None,
            config_error: None,
            running: NameSet::new(),
            engine_states: EngineStates::new(),
            selected_profile: None,
            profile_editor: None,
            devices: Vec::new(),
            status: String::new(),
            daemon_state: DaemonConnectionState::Disconnected,
            daemon_linked: false,
            daemon_profiles: Vec::new(),
        }
    }
}

} // verus!
