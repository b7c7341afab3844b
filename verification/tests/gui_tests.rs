use remapper::config::{Config, DeviceMatch, ExecutionMode, MacroStep, Mapping, Profile};
use remapper::daemon::DaemonConnectionState;
use remapper::devices::DeviceInfo;
use remapper::engine::EngineState;
use remapper::events::{EventCode, EventType, InputEvent};
use remapper::gui::app::{AppAction, DaemonProfile, Message, RemapperApp, View};
use remapper::gui::device_picker::{DeviceFilter, DevicePicker, DevicePickerMessage};
use remapper::gui::event_viewer::{get_code_name, get_value_string, EventFilter, EventViewer, EventViewerMessage};
use remapper::gui::mapping_editor::{MacroStepType, MappingEditor, MappingEditorMessage, MappingType};
use remapper::gui::profile_editor::{MappingEntry, ProfileEditor};
use remapper::gui::screens::{device_row, Indicator, MainScreen, StartStop};
use remapper::gui::event_viewer::{selection_from_label, CaptureButton};
use remapper::manager::ConfigManager;

fn dev(path: &str, name: &str, gamepad: bool, keyboard: bool) -> DeviceInfo {
    DeviceInfo {
        path: String::from(path),
        name: String::from(name),
        phys: None,
        uniq: None,
        vendor: 1,
        product: 2,
        version: 1,
        is_keyboard: keyboard,
        is_mouse: false,
        is_gamepad: gamepad,
    }
}

fn loaded_app(mode: ExecutionMode) -> RemapperApp {
    let (mut app, acts) = RemapperApp::new();
    assert!(matches!(acts[0], AppAction::LoadConfig));
    assert_eq!(app.status(), "Loading...");
    let mut config = Config::default();
    config.settings.execution_mode = mode;
    config.add_profile(Profile::new("Game", DeviceMatch::by_path("/dev/input/event3"))).unwrap();
    let acts = app.update(Message::ConfigLoaded(Ok(ConfigManager::new(String::from("config.json"), config))));
    assert_eq!(app.status(), "Loaded 1 profiles");
    if mode == ExecutionMode::Daemon {
        assert!(matches!(acts[0], AppAction::DaemonConnect));
        assert_eq!(app.daemon_state(), DaemonConnectionState::Connecting);
    } else {
        assert!(acts.is_empty());
    }
    app
}

#[test]
fn app_starts_and_stops_engines_here() {
    let mut app = loaded_app(ExecutionMode::BackgroundThread);
    let acts = app.update(Message::StartProfile(String::from("Game")));
    assert_eq!(app.status(), "Starting Game...");
    assert_eq!(app.engine_state("Game"), Some(EngineState::Starting));
    assert!(app.is_running_here("Game"));
    match &acts[0] {
        AppAction::SpawnEngine(p) => assert_eq!(p.name, "Game"),
        _ => panic!("expected the engine to be started"),
    }
    app.update(Message::StartProfile(String::from("Game")));
    assert_eq!(app.status(), "Profile 'Game' is already running");
    app.update(Message::StartProfile(String::from("Nope")));
    assert_eq!(app.status(), "Error: Profile 'Nope' not found");

    // While an engine runs here, ticks keep coming.
    assert!(matches!(app.update(Message::Tick)[0], AppAction::TickAfter(100)));

    let acts = app.update(Message::StopProfile(String::from("Game")));
    assert_eq!(app.status(), "Stopping Game...");
    assert!(matches!(&acts[0], AppAction::StopEngine(n) if n == "Game"));
    assert!(matches!(acts[1], AppAction::TickAfter(50)));

    let acts = app.engine_report(String::from("Game"), EngineState::Stopped, None);
    assert!(matches!(&acts[0], AppAction::ReleaseEngine(n) if n == "Game"));
    assert!(!app.is_running_here("Game"));
    assert_eq!(app.status(), "Game: Stopped");
    assert!(app.update(Message::Tick).is_empty());
    app.update(Message::StopProfile(String::from("Game")));
    assert_eq!(app.status(), "Profile 'Game' is not running");

    app.engine_report(String::from("Game"), EngineState::Error, Some(String::from("device gone")));
    assert_eq!(app.status(), "Error (Game): device gone");
}

#[test]
fn app_edits_profiles() {
    let mut app = loaded_app(ExecutionMode::BackgroundThread);
    app.update(Message::CreateProfile);
    assert_eq!(app.current_view(), View::Editor);
    assert!(app.profile_editor().unwrap().is_new);
    app.update(Message::CancelEdit);
    assert_eq!(app.current_view(), View::Main);
    assert!(app.profile_editor().is_none());

    app.update(Message::EditProfile(String::from("Game")));
    let editor = app.profile_editor().unwrap();
    assert_eq!(editor.name, "Game");
    assert_eq!(editor.input_device, "/dev/input/event3");
    assert!(!editor.is_new);

    let acts = app.update(Message::SaveProfile(Profile::new("Other", DeviceMatch::by_name("pad"))));
    assert_eq!(app.status(), "Created profile: Other");
    assert!(matches!(acts[0], AppAction::SaveConfig { report: true }));
    assert_eq!(app.config().unwrap().profiles().len(), 2);
    app.update(Message::SaveProfile(Profile::new("Game", DeviceMatch::by_name("pad"))));
    assert_eq!(app.status(), "Updated profile: Game");
    assert_eq!(app.config().unwrap().profiles()[1].name, "Game");

    let acts = app.update(Message::ToggleProfile(String::from("Game")));
    assert_eq!(app.status(), "Disabled: Game");
    assert!(matches!(acts[0], AppAction::SaveConfig { report: false }));
    app.update(Message::ToggleProfile(String::from("Game")));
    assert_eq!(app.status(), "Enabled: Game");

    app.update(Message::ProfileSelected(1));
    assert_eq!(app.selected_profile(), Some(1));
    app.update(Message::DeleteProfile(String::from("Game")));
    assert_eq!(app.status(), "Deleted profile: Game");
    assert_eq!(app.selected_profile(), None);
    app.update(Message::DeleteProfile(String::from("Game")));
    assert_eq!(app.status(), "Error: Profile not found: Game");
}

#[test]
fn app_talks_to_the_daemon() {
    let mut app = loaded_app(ExecutionMode::Daemon);
    assert!(app.is_daemon_mode());
    app.update(Message::StartProfile(String::from("Game")));
    assert_eq!(app.status(), "Not connected to daemon");

    let acts = app.update(Message::DaemonConnected(Ok(())));
    assert_eq!(app.daemon_state(), DaemonConnectionState::Connected);
    assert!(matches!(acts[0], AppAction::TickAfter(100)));
    assert!(matches!(app.update(Message::Tick)[0], AppAction::DaemonStatus));

    let acts = app.update(Message::StartProfile(String::from("Game")));
    assert_eq!(app.status(), "Starting Game via daemon...");
    assert!(matches!(&acts[0], AppAction::DaemonStart(n) if n == "Game"));

    let acts = app.update(Message::DaemonStatusReceived(Ok(vec![
        DaemonProfile { name: String::from("Game"), state: EngineState::Starting, events_processed: 0 },
        DaemonProfile { name: String::from("Game"), state: EngineState::Running, events_processed: 12 },
    ])));
    assert_eq!(app.engine_state("Game"), Some(EngineState::Running));
    assert_eq!(app.daemon_profiles().len(), 2);
    assert!(matches!(acts[0], AppAction::TickAfter(500)));

    app.update(Message::DaemonOperationResult(Err(String::from("refused"))));
    assert_eq!(app.status(), "Error: refused");
    app.update(Message::DaemonStatusReceived(Err(String::from("broken pipe"))));
    assert_eq!(app.daemon_state(), DaemonConnectionState::Unavailable);
    assert_eq!(app.status(), "Daemon connection lost: broken pipe");

    // Back to running profiles here.
    let acts = app.update(Message::ToggleExecutionMode);
    assert_eq!(app.status(), "Execution mode: Background Thread");
    assert!(!app.is_daemon_mode());
    assert_eq!(acts.len(), 1);
    assert!(app.daemon_profiles().is_empty());
    assert_eq!(app.daemon_state(), DaemonConnectionState::Disconnected);
    assert_eq!(app.engine_state("Game"), None);
}

#[test]
fn app_switching_to_daemon_stops_local_engines() {
    let mut app = loaded_app(ExecutionMode::BackgroundThread);
    app.update(Message::StartProfile(String::from("Game")));
    let acts = app.update(Message::ToggleExecutionMode);
    assert_eq!(app.status(), "Execution mode: Daemon");
    assert!(matches!(acts[0], AppAction::SaveConfig { report: false }));
    assert!(matches!(acts[1], AppAction::StopAllEngines));
    assert!(matches!(acts[2], AppAction::DaemonConnect));
    assert_eq!(app.engine_state("Game"), Some(EngineState::Stopping));
    assert!(!app.is_running_here("Game"));
}

#[test]
fn app_small_messages() {
    let mut app = RemapperApp::default();
    assert_eq!(app.title(), "Remapper");
    assert!(matches!(app.update(Message::SwitchView(View::Devices))[0], AppAction::ListDevices));
    assert!(app.update(Message::SwitchView(View::Settings)).is_empty());
    app.update(Message::DevicesLoaded(vec![dev("/dev/input/event1", "a", false, true)]));
    assert_eq!(app.status(), "Found 1 devices");
    assert_eq!(app.devices().len(), 1);
    app.update(Message::Error(String::from("x")));
    assert_eq!(app.status(), "Error: x");
    app.update(Message::ClearStatus);
    assert_eq!(app.status(), "");
    app.update(Message::ConfigLoaded(Err(String::from("bad file"))));
    assert_eq!(app.config_error(), Some("bad file"));
    assert!(matches!(app.update(Message::SpawnDaemon)[0], AppAction::DaemonSpawn));
    app.update(Message::DaemonSpawned(Err(String::from("no exe"))));
    assert_eq!(app.status(), "Failed to spawn daemon: no exe");
    app.update(Message::EngineStateChanged(String::from("P"), EngineState::Running));
    assert_eq!(app.status(), "P: Running");
    // Without a configuration, toggling the mode does nothing.
    assert!(app.update(Message::ToggleExecutionMode).is_empty());
    assert!(matches!(app.update(Message::ReloadConfig)[0], AppAction::LoadConfig));
}

#[test]
fn mapping_editor_builds_mappings() {
    let mut ed = MappingEditor::new();
    assert_eq!(ed.build_mapping().err().unwrap(), "From code is required");
    ed.update(MappingEditorMessage::FromCodeChanged(String::from("BTN_A")));
    assert_eq!(ed.build_mapping().err().unwrap(), "To code is required");
    ed.update(MappingEditorMessage::ToCodeChanged(String::from("BTN_B")));
    match ed.build_mapping().unwrap() {
        Mapping::Simple { from, to } => assert_eq!((from.code.as_str(), to.code.as_str()), ("BTN_A", "BTN_B")),
        _ => panic!("expected a simple mapping"),
    }

    ed.update(MappingEditorMessage::TypeChanged(MappingType::Macro));
    assert_eq!(ed.build_mapping().err().unwrap(), "At least one macro step is required");
    ed.update(MappingEditorMessage::AddMacroStep);
    assert_eq!(ed.build_mapping().err().unwrap(), "Key code is required");
    ed.update(MappingEditorMessage::MacroStepCodeChanged(0, String::from("KEY_A")));
    ed.update(MappingEditorMessage::AddMacroStep);
    ed.update(MappingEditorMessage::MacroStepTypeChanged(1, MacroStepType::Delay));
    ed.update(MappingEditorMessage::MacroStepDelayChanged(1, String::from("abc")));
    assert_eq!(ed.build_mapping().err().unwrap(), "Invalid delay");
    ed.update(MappingEditorMessage::MacroStepDelayChanged(1, String::from("75")));
    match ed.build_mapping().unwrap() {
        Mapping::Macro { sequence, .. } => {
            assert_eq!(sequence.len(), 2);
            assert!(matches!(sequence[1], MacroStep::Delay { delay_ms: 75 }));
        }
        _ => panic!("expected a macro"),
    }
    ed.update(MappingEditorMessage::RemoveMacroStep(5));
    ed.update(MappingEditorMessage::RemoveMacroStep(0));

    ed.update(MappingEditorMessage::TypeChanged(MappingType::Conditional));
    assert_eq!(ed.build_mapping().err().unwrap(), "At least tap or hold must be specified");
    ed.update(MappingEditorMessage::HoldCodeChanged(String::from("KEY_LEFTMETA")));
    ed.update(MappingEditorMessage::ThresholdChanged(String::from("-1")));
    assert_eq!(ed.build_mapping().err().unwrap(), "Invalid threshold");
    ed.update(MappingEditorMessage::ThresholdChanged(String::from("250")));
    match ed.build_mapping().unwrap() {
        Mapping::Conditional { tap, hold, threshold_ms, .. } => {
            assert!(tap.is_none());
            assert_eq!(hold.unwrap().code, "KEY_LEFTMETA");
            assert_eq!(threshold_ms, 250);
        }
        _ => panic!("expected a tap/hold mapping"),
    }

    ed.update(MappingEditorMessage::TypeChanged(MappingType::Combo));
    ed.update(MappingEditorMessage::ComboKeyChanged(0, String::from("KEY_A")));
    assert_eq!(ed.build_mapping().err().unwrap(), "At least 2 combo keys are required");
    ed.update(MappingEditorMessage::AddComboKey);
    ed.update(MappingEditorMessage::ComboKeyChanged(2, String::from("KEY_S")));
    match ed.build_mapping().unwrap() {
        Mapping::Combo { keys, order_sensitive, .. } => {
            assert_eq!(keys.len(), 2);
            assert_eq!(keys[1].code, "KEY_S");
            assert!(!order_sensitive);
        }
        _ => panic!("expected a combo"),
    }
    assert_eq!(MappingType::Conditional.to_string(), "Tap/Hold");
    assert_eq!(MacroStepType::Delay.to_string(), "Delay");
}

#[test]
fn mapping_editor_opens_mappings() {
    let m = Mapping::conditional(EventCode::key("BTN_START"), None, Some(EventCode::key("KEY_LEFTMETA")), 300);
    let ed = MappingEditor::from_mapping(&m);
    match ed.build_mapping().unwrap() {
        Mapping::Conditional { trigger, hold, threshold_ms, .. } => {
            assert_eq!(trigger.code, "BTN_START");
            assert_eq!(hold.unwrap().code, "KEY_LEFTMETA");
            assert_eq!(threshold_ms, 300);
        }
        _ => panic!("expected a tap/hold mapping"),
    }
    let mac = Mapping::macro_seq(EventCode::key("BTN_SELECT"), vec![MacroStep::press("KEY_A"), MacroStep::delay(20)]);
    match MappingEditor::from_mapping(&mac).build_mapping().unwrap() {
        Mapping::Macro { sequence, .. } => assert!(matches!(sequence[1], MacroStep::Delay { delay_ms: 20 })),
        _ => panic!("expected a macro"),
    }
}

#[test]
fn profile_editor_round_trip() {
    let mut p = Profile::new("Game", DeviceMatch::by_name("Xbox Controller"));
    p.add_mapping(Mapping::simple(EventCode::key("BTN_A"), EventCode::key("BTN_B")));
    p.add_mapping(Mapping::macro_seq(EventCode::key("BTN_X"), vec![]));
    p.grab = true;
    let mut ed = ProfileEditor::from_profile(p);
    assert_eq!(ed.mappings.len(), 1);
    assert_eq!(ed.input_device, "Xbox Controller");
    ed.mappings.push(MappingEntry { from_code: String::from("KEY_A"), to_code: String::new() });
    let built = ed.build_profile().unwrap();
    assert_eq!(built.name, "Game");
    assert!(built.grab);
    assert_eq!(built.mappings.len(), 1);
    assert!(matches!(built.input_device, DeviceMatch::Name { .. }));
    assert!(built.output_device.name.is_none());

    let mut fresh = ProfileEditor::new();
    assert_eq!(fresh.build_profile().err().unwrap(), "Profile name is required");
    fresh.name = String::from("N");
    assert_eq!(fresh.build_profile().err().unwrap(), "Input device is required");
    fresh.input_device = String::from("/dev/input/event4");
    fresh.output_name = String::from("Virtual");
    let built = fresh.build_profile().unwrap();
    assert!(matches!(built.input_device, DeviceMatch::Path { .. }));
    assert_eq!(built.output_device.name.as_deref(), Some("Virtual"));
}

#[test]
fn device_picker_filters() {
    let mut picker = DevicePicker::new(vec![
        dev("/dev/input/event1", "kbd", false, true),
        dev("/dev/input/event2", "pad", true, false),
    ]);
    assert_eq!(picker.filtered_devices().len(), 2);
    picker.update(DevicePickerMessage::FilterChanged(DeviceFilter::Gamepads));
    let only = picker.filtered_devices();
    assert_eq!(only.len(), 1);
    assert_eq!(only[0].name, "pad");
    picker.update(DevicePickerMessage::Selected(0));
    assert_eq!(picker.selected_device().unwrap().name, "pad");
}

#[test]
fn event_viewer_logs_events() {
    let mut viewer = EventViewer::new(vec![]);
    viewer.add_event(InputEvent::new(EventType::Key, 30, 1));
    viewer.add_event(InputEvent::sync());
    assert_eq!(viewer.events().len(), 1);
    assert_eq!(viewer.events()[0].code_name, "KEY_A");
    assert_eq!(viewer.events()[0].value_str, "PRESS");
    assert_eq!(viewer.events()[0].event_type, "EV_KEY");
    viewer.update(EventViewerMessage::FilterChanged(EventFilter::Axes));
    viewer.add_event(InputEvent::new(EventType::Key, 31, 1));
    assert_eq!(viewer.events().len(), 1);
    viewer.update(EventViewerMessage::TogglePause);
    assert!(viewer.is_paused());
    viewer.add_event(InputEvent::new(EventType::Abs, 0, -7));
    assert_eq!(viewer.events().len(), 1);
    viewer.update(EventViewerMessage::TogglePause);
    viewer.add_event(InputEvent::new(EventType::Abs, 0, -7));
    assert_eq!(viewer.events()[0].value_str, "-7");
    assert_eq!(viewer.events()[0].code_name, "ABS_X");
    viewer.update(EventViewerMessage::ClearEvents);
    assert!(viewer.events().is_empty());
    assert_eq!(EventFilter::Buttons.to_string(), "Buttons Only");

    let e = InputEvent::new(EventType::Msc, 4, 9);
    assert_eq!(get_code_name(&e), "CODE_4");
    assert_eq!(get_value_string(&InputEvent::new(EventType::Key, 1, 2)), "REPEAT");
}

#[test]
fn profile_editor_round_trip_gives_profile_back() {
    let p = Profile {
        name: String::from("Desk"),
        enabled: false,
        input_device: DeviceMatch::by_path("/dev/input/event4"),
        output_device: remapper::config::OutputConfig { name: Some(String::from("Virtual Desk")) },
        grab: true,
        mappings: vec![
            Mapping::simple(EventCode::key("KEY_A"), EventCode::key("KEY_B")),
            Mapping::simple(EventCode::key("BTN_SOUTH"), EventCode::key("KEY_ENTER")),
        ],
    };
    let built = ProfileEditor::from_profile(p.clone()).build_profile().unwrap();
    assert_eq!(built.name, p.name);
    assert_eq!(built.enabled, p.enabled);
    assert_eq!(built.grab, p.grab);
    assert_eq!(built.output_device.name, p.output_device.name);
    match built.input_device {
        DeviceMatch::Path { path } => assert_eq!(path, "/dev/input/event4"),
        other => panic!("unexpected {:?}", other),
    }
    assert_eq!(built.mappings.len(), 2);
    match &built.mappings[1] {
        Mapping::Simple { from, to } => {
            assert_eq!(from.code, "BTN_SOUTH");
            assert_eq!(to.code, "KEY_ENTER");
        }
        other => panic!("unexpected {:?}", other),
    }

    // A device matched by identifier comes back matched by its text.
    let mut q = p.clone();
    q.input_device = DeviceMatch::by_id(0x045e, 0x028e);
    let rebuilt = ProfileEditor::from_profile(q).build_profile().unwrap();
    assert!(matches!(rebuilt.input_device, DeviceMatch::Name { .. }));
}

#[test]
fn main_screen_shows_profiles_with_engine_state() {
    let mut app = loaded_app(ExecutionMode::BackgroundThread);
    match app.main_screen() {
        MainScreen::Profiles(rows) => {
            assert_eq!(rows.len(), 1);
            assert_eq!(rows[0].name, "Game");
            assert_eq!(rows[0].device, "/dev/input/event3");
            assert_eq!(rows[0].mappings, "0 mappings");
            assert_eq!(rows[0].indicator, Indicator::Idle);
            assert_eq!(rows[0].start_stop, StartStop::Start);
            assert_eq!(rows[0].start_stop.label(), "Start");
            assert_eq!(rows[0].toggle_label, "Disable");
            assert!(!rows[0].selected);
        }
        other => panic!("unexpected {:?}", other),
    }
    app.update(Message::EngineStateChanged(String::from("Game"), EngineState::Running));
    app.update(Message::ProfileSelected(0));
    match app.main_screen() {
        MainScreen::Profiles(rows) => {
            assert_eq!(rows[0].indicator, Indicator::Running);
            assert_eq!(rows[0].start_stop, StartStop::Stop);
            assert!(rows[0].selected);
        }
        other => panic!("unexpected {:?}", other),
    }
    app.update(Message::EngineStateChanged(String::from("Game"), EngineState::Error));
    match app.main_screen() {
        MainScreen::Profiles(rows) => assert_eq!(rows[0].indicator, Indicator::Failed),
        other => panic!("unexpected {:?}", other),
    }

    let (mut fresh, _) = RemapperApp::new();
    assert!(matches!(fresh.main_screen(), MainScreen::NoProfiles));
    fresh.update(Message::ConfigLoaded(Err(String::from("bad file"))));
    match fresh.main_screen() {
        MainScreen::ConfigError(e) => assert_eq!(e, "bad file"),
        other => panic!("unexpected {:?}", other),
    }
}

#[test]
fn settings_and_status_bar_follow_mode() {
    let app = loaded_app(ExecutionMode::BackgroundThread);
    let s = app.settings_screen();
    assert_eq!(s.mode_label, "Current: Background Thread");
    assert!(s.mode_description.starts_with("Background Thread: Profiles run within the GUI process."));
    assert!(s.daemon.is_none());
    assert_eq!(app.status_bar_label(), "Mode: Background Thread");

    let mut app = loaded_app(ExecutionMode::Daemon);
    assert_eq!(app.status_bar_label(), "Daemon: Connecting...");
    app.update(Message::DaemonConnected(Ok(())));
    app.update(Message::DaemonStatusReceived(Ok(vec![
        DaemonProfile { name: String::from("Game"), state: EngineState::Running, events_processed: 1000 },
        DaemonProfile { name: String::from("Work"), state: EngineState::Error, events_processed: 3 },
    ])));
    let s = app.settings_screen();
    assert_eq!(s.mode_label, "Current: Daemon");
    let panel = s.daemon.unwrap();
    assert_eq!(panel.status, "Connected - 2 profiles running");
    assert_eq!(panel.running.len(), 2);
    assert_eq!(panel.running[0].name, "Game");
    assert_eq!(panel.running[0].events, "1000 events");
    assert_eq!(panel.running[1].state, EngineState::Error);
    assert!(!panel.offer_start);
    assert_eq!(app.status_bar_label(), "Daemon: Connected");
}

#[test]
fn device_rows_and_viewer_controls() {
    let d = dev("/dev/input/event2", "Pad", true, false);
    let row = device_row(&d);
    assert_eq!(row.badge, "[Gamepad]");
    assert_eq!(row.id, "ID: 0001:0002");
    let mut app = loaded_app(ExecutionMode::BackgroundThread);
    app.update(Message::DevicesLoaded(vec![d.clone(), dev("/dev/input/event5", "Keys", false, true)]));
    let rows = app.device_rows();
    assert_eq!(rows.len(), 2);
    assert_eq!(rows[1].badge, "[Keyboard]");
    assert_eq!(rows[1].path, "/dev/input/event5");

    let mut viewer = EventViewer::new(vec![d, dev("/dev/input/event5", "Keys", false, true)]);
    let labels = viewer.device_labels();
    assert_eq!(labels, vec![String::from("Pad (/dev/input/event2)"), String::from("Keys (/dev/input/event5)")]);
    assert_eq!(selection_from_label(&labels, "Keys (/dev/input/event5)"), 1);
    assert_eq!(selection_from_label(&labels, "Gone (/dev/input/event9)"), 0);
    assert_eq!(viewer.capture_button(), CaptureButton::StartInactive);
    assert_eq!(viewer.status_label(), "Stopped");
    viewer.update(EventViewerMessage::DeviceSelected(1));
    assert_eq!(viewer.capture_button(), CaptureButton::Start);
    viewer.update(EventViewerMessage::StartCapture);
    assert_eq!(viewer.capture_button(), CaptureButton::Stop);
    assert_eq!(viewer.status_label(), "Capturing...");
    assert_eq!(viewer.pause_label(), "Pause");
    viewer.update(EventViewerMessage::TogglePause);
    assert_eq!(viewer.status_label(), "Paused");
    assert_eq!(viewer.pause_label(), "Resume");

    assert_eq!(ProfileEditor::new().title(), "Create New Profile");
}

#[test]
fn mapping_editor_round_trip_gives_mapping_back() {
    let mac = Mapping::macro_seq(
        EventCode::key("KEY_F1"),
        vec![MacroStep::press("KEY_H"), MacroStep::delay(25), MacroStep::release("KEY_H")],
    );
    match MappingEditor::from_mapping(&mac).build_mapping().unwrap() {
        Mapping::Macro { trigger, sequence } => {
            assert_eq!(trigger.code, "KEY_F1");
            assert_eq!(sequence.len(), 3);
            assert!(matches!(&sequence[0], MacroStep::Key { code, value: 1 } if code == "KEY_H"));
            assert!(matches!(&sequence[1], MacroStep::Delay { delay_ms: 25 }));
            assert!(matches!(&sequence[2], MacroStep::Key { code, value: 0 } if code == "KEY_H"));
        }
        other => panic!("unexpected {:?}", other),
    }

    let cond = Mapping::conditional(EventCode::key("KEY_CAPSLOCK"), Some(EventCode::key("KEY_ESC")), None, 180);
    match MappingEditor::from_mapping(&cond).build_mapping().unwrap() {
        Mapping::Conditional { trigger, tap, hold, threshold_ms } => {
            assert_eq!(trigger.code, "KEY_CAPSLOCK");
            assert_eq!(tap.unwrap().code, "KEY_ESC");
            assert!(hold.is_none());
            assert_eq!(threshold_ms, 180);
        }
        other => panic!("unexpected {:?}", other),
    }

    let combo = Mapping::combo(vec![EventCode::key("KEY_LEFTCTRL"), EventCode::key("KEY_C")], EventCode::key("KEY_COPY"));
    match MappingEditor::from_mapping(&combo).build_mapping().unwrap() {
        Mapping::Combo { keys, output, order_sensitive } => {
            assert_eq!(keys.len(), 2);
            assert_eq!(keys[1].code, "KEY_C");
            assert_eq!(output.code, "KEY_COPY");
            assert!(!order_sensitive);
        }
        other => panic!("unexpected {:?}", other),
    }
}
