//! What the screens of the graphical interface show, decided from the
//! application's state: the rows, labels and indicators that a renderer
//! draws. Layout and colours are the renderer's part.
use vstd::prelude::*;
use vstd::string::*;

use crate::config::{device_match_text, execution_mode_text, ExecutionMode, Profile};
use crate::daemon::{connection_state_text, DaemonConnectionState};
use crate::devices::{device_badge, DeviceInfo};
use crate::engine::EngineState;
use crate::gui::app::{app_mode, AppView, DaemonProfile, RemapperApp};
use crate::platform::id_text;
use crate::text::{dec_str, push_dec};

verus! {

/// The mark before a profile in the list.
#[derive(Debug, Clone, Copy, PartialEq, Eq, Structural)]
pub enum Indicator {
    /// Filled, green: the engine runs
    Running,
    /// Half filled, yellow: the engine is starting or stopping
    Changing,
    /// Filled, red: the engine failed
    Failed,
    /// Hollow, grey: enabled, not running
    Idle,
    /// Hollow, dark grey: disabled
    Off,
}

/// The mark for a profile with the given engine state.
pub open spec fn indicator_for(state: Option<EngineState>, enabled: bool) -> Indicator {
    match state {
        Some(EngineState::Running) => Indicator::Running,
        Some(EngineState::Starting) => Indicator::Changing,
        Some(EngineState::Stopping) => Indicator::Changing,
        Some(EngineState::Error) => Indicator::Failed,
        _ => if enabled {
            Indicator::Idle
        } else {
            Indicator::Off
        },
    }
}

/// The button that starts or stops a profile.
#[derive(Debug, Clone, Copy, PartialEq, Eq, Structural)]
pub enum StartStop {
    /// `Stop`, which sends `StopProfile`
    Stop,
    /// `Starting...`, inactive
    Starting,
    /// `Stopping...`, inactive
    Stopping,
    /// `Start`, which sends `StartProfile`
    Start,
}

/// The start/stop button for a profile with the given engine state.
pub open spec fn start_stop_for(state: Option<EngineState>) -> StartStop {
    match state {
        Some(EngineState::Running) => StartStop::Stop,
        Some(EngineState::Starting) => StartStop::Starting,
        Some(EngineState::Stopping) => StartStop::Stopping,
        _ => StartStop::Start,
    }
}

/// The caption of a start/stop button.
pub open spec fn start_stop_text(b: StartStop) -> Seq<char> {
    match b {
        StartStop::Stop => "Stop"@,
        StartStop::Starting => "Starting..."@,
        StartStop::Stopping => "Stopping..."@,
        StartStop::Start => "Start"@,
    }
}

impl StartStop {
    /// The button's caption.
    pub fn label(&self) -> (r: &'static str)
        ensures
            r@ == start_stop_text(*self),
    {
        match self {
            StartStop::Stop => "Stop",
            StartStop::Starting => "Starting...",
            StartStop::Stopping => "Stopping...",
            StartStop::Start => "Start",
        }
    }
}

/// One profile in the list.
#[derive(Debug)]
pub struct ProfileRow {
    pub name: String,
    /// The device match as text
    pub device: String,
    /// `<n> mappings`
    pub mappings: String,
    pub indicator: Indicator,
    pub start_stop: StartStop,
    /// `Disable` for an enabled profile, `Enable` otherwise
    pub toggle_label: String,
    /// Whether the row is the selected one
    pub selected: bool,
}

/// The row that shows a profile.
pub open spec fn row_for(p: Profile, state: Option<EngineState>, selected: bool, r: ProfileRow) -> bool {
    &&& r.name@ == p.name@
    &&& r.device@ == device_match_text(p.input_device)
    &&& r.mappings@ == dec_str(p.mappings@.len()) + " mappings"@
    &&& r.indicator == indicator_for(state, p.enabled)
    &&& r.start_stop == start_stop_for(state)
    &&& r.toggle_label@ == if p.enabled {
        "Disable"@
    } else {
        "Enable"@
    }
    &&& r.selected == selected
}

/// The engine state recorded for a profile, if any.
pub open spec fn state_in(v: AppView, name: Seq<char>) -> Option<EngineState> {
    if v.engine_states.contains_key(name) {
        Some(v.engine_states[name])
    } else {
        None
    }
}

/// The profiles of the loaded configuration; none without one.
pub open spec fn profiles_shown(v: AppView) -> Seq<Profile> {
    match v.config {
        Some(c) => c.config_view().profiles@,
        None => Seq::empty(),
    }
}

/// What the profile screen shows.
#[derive(Debug)]
pub enum MainScreen {
    /// `Configuration Error`, the error, and a retry button
    ConfigError(String),
    /// `No Profiles Configured`, and a button to create one
    NoProfiles,
    /// The profiles, in order
    Profiles(Vec<ProfileRow>),
}

/// The device as listed on the device screen.
#[derive(Debug)]
pub struct DeviceRow {
    /// `[Gamepad]`, `[Keyboard]`, `[Mouse]` or `[Other]`
    pub badge: String,
    pub name: String,
    pub path: String,
    /// `ID: <vendor>:<product>` in hexadecimal
    pub id: String,
}

/// The row that shows a device.
pub open spec fn device_row_for(d: DeviceInfo, r: DeviceRow) -> bool {
    &&& r.badge@ == device_badge(d)
    &&& r.name@ == d.name@
    &&& r.path@ == d.path@
    &&& r.id@ == "ID: "@ + id_text(d.vendor, d.product)
}

/// The badge of a device's kind.
pub fn badge_of(d: &DeviceInfo) -> (r: String)
    ensures
        r@ == device_badge(*d),
{
    if d.is_gamepad {
        String::from_str("[Gamepad]")
    } else if d.is_keyboard {
        String::from_str("[Keyboard]")
    } else if d.is_mouse {
        String::from_str("[Mouse]")
    } else {
        String::from_str("[Other]")
    }
}

/// The row that shows a device.
pub fn device_row(d: &DeviceInfo) -> (r: DeviceRow)
    ensures
        device_row_for(*d, r),
{
    let mut id = String::from_str("ID: ");
    let pair = d.id_string();
    id.append(pair.as_str());
    DeviceRow { badge: badge_of(d), name: d.name.clone(), path: d.path.clone(), id }
}

/// What the settings screen says of an execution mode.
pub open spec fn mode_description_text(m: ExecutionMode) -> Seq<char> {
    match m {
        ExecutionMode::BackgroundThread => "Background Thread: Profiles run within the GUI process. Remapping stops when the GUI is closed."@,
        ExecutionMode::Daemon => "Daemon: Profiles run in a separate daemon process. Remapping persists after the GUI is closed."@,
    }
}

/// The description of an execution mode.
pub fn mode_description(m: ExecutionMode) -> (r: &'static str)
    ensures
        r@ == mode_description_text(m),
{
    match m {
        ExecutionMode::BackgroundThread => "Background Thread: Profiles run within the GUI process. Remapping stops when the GUI is closed.",
        ExecutionMode::Daemon => "Daemon: Profiles run in a separate daemon process. Remapping persists after the GUI is closed.",
    }
}

/// The daemon's status line on the settings screen.
pub open spec fn daemon_status_text(s: DaemonConnectionState, running: nat) -> Seq<char> {
    match s {
        DaemonConnectionState::Connected => "Connected - "@ + dec_str(running) + " profiles running"@,
        DaemonConnectionState::Connecting => "Connecting..."@,
        DaemonConnectionState::Disconnected => "Not connected"@,
        DaemonConnectionState::Unavailable => "Daemon not running"@,
    }
}

/// The daemon's status line, given how many profiles it last reported.
pub fn daemon_status_line(s: DaemonConnectionState, running: usize) -> (r: String)
    ensures
        r@ == daemon_status_text(s, running as nat),
{
    match s {
        DaemonConnectionState::Connected => {
            let mut t = String::from_str("Connected - ");
            push_dec(&mut t, running as u64);
            t.append(" profiles running");
            t
        },
        DaemonConnectionState::Connecting => String::from_str("Connecting..."),
        DaemonConnectionState::Disconnected => String::from_str("Not connected"),
        DaemonConnectionState::Unavailable => String::from_str("Daemon not running"),
    }
}

/// Whether the settings screen offers to start the daemon and to retry the
/// connection.
pub open spec fn offers_daemon_start(s: DaemonConnectionState) -> bool {
    s == DaemonConnectionState::Unavailable || s == DaemonConnectionState::Disconnected
}

/// A profile the daemon reported running, as the settings screen lists it.
#[derive(Debug)]
pub struct DaemonRow {
    pub name: String,
    pub state: EngineState,
    /// `<n> events`
    pub events: String,
}

/// The row that lists a profile the daemon reported.
pub open spec fn daemon_row_for(p: DaemonProfile, r: DaemonRow) -> bool {
    &&& r.name@ == p.name@
    &&& r.state == p.state
    &&& r.events@ == dec_str(p.events_processed as nat) + " events"@
}

/// The daemon's part of the settings screen.
#[derive(Debug)]
pub struct DaemonPanel {
    pub status: String,
    /// Whether `Start Daemon` and `Retry Connection` are offered
    pub offer_start: bool,
    /// `Running in Daemon:`, the profiles the daemon last reported, in order
    pub running: Vec<DaemonRow>,
}

/// What the settings screen shows.
#[derive(Debug)]
pub struct SettingsScreen {
    /// `Current: <mode>`, the button that switches the mode
    pub mode_label: String,
    pub mode_description: String,
    /// The daemon's part, in daemon mode only
    pub daemon: Option<DaemonPanel>,
}

impl RemapperApp {
    /// What the profile screen shows: the configuration's error when it could
    /// not be loaded, otherwise each profile with its engine's state, or the
    /// invitation to create one when there are none.
    pub fn main_screen(&self) -> (r: MainScreen)
        ensures
            match self@.config_error {
                Some(e) => r matches MainScreen::ConfigError(m) && m@ == e,
                None => if profiles_shown(self@).len() == 0 {
                    r is NoProfiles
                } else {
                    r matches MainScreen::Profiles(rows) && rows@.len() == profiles_shown(self@).len()
                        && forall|i: int|
                        0 <= i < rows@.len() ==> row_for(
                            profiles_shown(self@)[i],
                            state_in(self@, profiles_shown(self@)[i].name@),
                            self@.selected_profile == Some(i as usize),
                            #[trigger] rows@[i],
                        )
                },
            },
    {
        match self.config_error() {
            Some(e) => {
                return MainScreen::ConfigError(String::from_str(e));
            },
            None => {},
        }
        let profiles = match self.config() {
            Some(c) => c.profiles(),
            None => {
                return MainScreen::NoProfiles;
            },
        };
        if profiles.len() == 0 {
            return MainScreen::NoProfiles;
        }
        let ghost ps = profiles_shown(self@);
        let selected = self.selected_profile();
        let mut rows: Vec<ProfileRow> = Vec::new();
        let mut i: usize = 0;
        while i < profiles.len()
            invariant
                0 <= i <= profiles@.len(),
                profiles@ == ps,
                selected == self@.selected_profile,
                rows@.len() == i,
                forall|j: int|
                    0 <= j < i ==> row_for(
                        ps[j],
                        state_in(self@, ps[j].name@),
                        self@.selected_profile == Some(j as usize),
                        #[trigger] rows@[j],
                    ),
            decreases profiles@.len() - i,
        {
            let p = &profiles[i];
            let state = self.engine_state(p.name.as_str());
            let indicator = match state {
                Some(EngineState::Running) => Indicator::Running,
                Some(EngineState::Starting) => Indicator::Changing,
                Some(EngineState::Stopping) => Indicator::Changing,
                Some(EngineState::Error) => Indicator::Failed,
                _ => if p.enabled {
                    Indicator::Idle
                } else {
                    Indicator::Off
                },
            };
            let start_stop = match state {
                Some(EngineState::Running) => StartStop::Stop,
                Some(EngineState::Starting) => StartStop::Starting,
                Some(EngineState::Stopping) => StartStop::Stopping,
                _ => StartStop::Start,
            };
            let mut mappings = String::new();
            push_dec(&mut mappings, p.mappings.len() as u64);
            mappings.append(" mappings");
            let is_selected = match selected {
                Some(k) => k == i,
                None => false,
            };
            let row = ProfileRow {
                name: p.name.clone(),
                device: p.input_device.display(),
                mappings,
                indicator,
                start_stop,
                toggle_label: if p.enabled {
                    String::from_str("Disable")
                } else {
                    String::from_str("Enable")
                },
                selected: is_selected,
            };
            rows.push(row);
            i = i + 1;
        }
        MainScreen::Profiles(rows)
    }

    /// The devices last listed, as the device screen shows them.
    pub fn device_rows(&self) -> (r: Vec<DeviceRow>)
        ensures
            r@.len() == self@.devices.len(),
            forall|i: int| 0 <= i < r@.len() ==> device_row_for(self@.devices[i], #[trigger] r@[i]),
    {
        let devices = self.devices();
        let mut rows: Vec<DeviceRow> = Vec::new();
        let mut i: usize = 0;
        while i < devices.len()
            invariant
                0 <= i <= devices@.len(),
                devices@ == self@.devices,
                rows@.len() == i,
                forall|j: int| 0 <= j < i ==> device_row_for(devices@[j], #[trigger] rows@[j]),
            decreases devices@.len() - i,
        {
            rows.push(device_row(&devices[i]));
            i = i + 1;
        }
        rows
    }

    /// What the settings screen shows: the mode, and in daemon mode the
    /// daemon's connection and the profiles it last reported running.
    pub fn settings_screen(&self) -> (r: SettingsScreen)
        ensures
            r.mode_label@ == "Current: "@ + execution_mode_text(app_mode(self@)),
            r.mode_description@ == mode_description_text(app_mode(self@)),
            app_mode(self@) == ExecutionMode::Daemon ==> (r.daemon matches Some(panel)
                && panel.status@ == daemon_status_text(
                self@.daemon_state,
                self@.daemon_profiles.len(),
            ) && panel.offer_start == offers_daemon_start(self@.daemon_state)
                && panel.running@.len() == self@.daemon_profiles.len() && forall|i: int|
                0 <= i < panel.running@.len() ==> daemon_row_for(
                self@.daemon_profiles[i],
                #[trigger] panel.running@[i],
            )),
            app_mode(self@) != ExecutionMode::Daemon ==> r.daemon is None,
    {
        let mode = self.execution_mode();
        let mut mode_label = String::from_str("Current: ");
        let name = mode.to_string();
        mode_label.append(name.as_str());
        let daemon = if self.is_daemon_mode() {
            let s = self.daemon_state();
            let offer_start = match s {
                DaemonConnectionState::Unavailable => true,
                DaemonConnectionState::Disconnected => true,
                _ => false,
            };
            let reported = self.daemon_profiles();
            let mut running: Vec<DaemonRow> = Vec::new();
            let mut i: usize = 0;
            while i < reported.len()
                invariant
                    0 <= i <= reported@.len(),
                    reported@ == self@.daemon_profiles,
                    running@.len() == i,
                    forall|j: int|
                        0 <= j < i ==> daemon_row_for(reported@[j], #[trigger] running@[j]),
                decreases reported@.len() - i,
            {
                let p = &reported[i];
                let mut events = String::new();
                push_dec(&mut events, p.events_processed);
                events.append(" events");
                running.push(DaemonRow { name: p.name.clone(), state: p.state, events });
                i = i + 1;
            }
            Some(
                DaemonPanel {
                    status: daemon_status_line(s, reported.len()),
                    offer_start,
                    running,
                },
            )
        } else {
            None
        };
        SettingsScreen {
            mode_label,
            mode_description: String::from_str(mode_description(mode)),
            daemon,
        }
    }

    /// The right-hand side of the status bar: the daemon's connection in
    /// daemon mode, the mode otherwise.
    pub fn status_bar_label(&self) -> (r: String)
        ensures
            r@ == if app_mode(self@) == ExecutionMode::Daemon {
                "Daemon: "@ + connection_state_text(self@.daemon_state)
            } else {
                "Mode: Background Thread"@
            },
    {
        if self.is_daemon_mode() {
            let mut s = String::from_str("Daemon: ");
            let state = self.daemon_state().to_string();
            s.append(state.as_str());
            s
        } else {
            String::from_str("Mode: Background Thread")
        }
    }
}

} // verus!
