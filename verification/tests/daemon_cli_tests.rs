use remapper::cli::{
    check_new_profile, conditional_from_answers, debug_device_path, default_output_name,
    device_choice_label, device_match_choice, device_match_for, journal_args, match_option_labels,
    profiles_to_run, service_unit, simple_from_answers, systemctl_report, systemctl_verb,
    wizard_profile, ServiceAction,
};
use remapper::config::{Config, DeviceMatch, Mapping, Profile};
use remapper::daemon::{
    check_start, engine_failed_message, reload_failure_message, reload_report, reply_outcome,
    request_failed_message, shutdown_message, started_message, stop_reply, DaemonConnectionState,
    IpcRequest, MessageReply,
};
use remapper::devices::DeviceInfo;
use remapper::manager::ConfigManager;

fn manager_with(names: &[(&str, bool)]) -> ConfigManager {
    let mut m = ConfigManager::new(String::from("config.json"), Config::default());
    for (n, enabled) in names {
        let mut p = Profile::new(n, DeviceMatch::by_name("pad"));
        p.enabled = *enabled;
        m.add_profile(p).unwrap();
    }
    m
}

#[test]
fn connection_states_read_as_shown() {
    assert_eq!(DaemonConnectionState::Connecting.to_string(), "Connecting...");
    assert_eq!(DaemonConnectionState::Unavailable.to_string(), "Unavailable");
    assert!(IpcRequest::Shutdown.is_shutdown());
    assert!(!IpcRequest::StartProfile { name: String::from("x") }.is_shutdown());
}

#[test]
fn daemon_start_and_stop_checks() {
    let m = manager_with(&[("Game", true)]);
    let running = vec![String::from("Other")];
    let p = check_start(&running, &m.config().profiles, "Game").unwrap();
    assert_eq!(p.name, "Game");
    assert_eq!(
        check_start(&vec![String::from("Game")], &m.config().profiles, "Game").err().unwrap(),
        "Profile 'Game' is already running"
    );
    assert_eq!(check_start(&running, &m.config().profiles, "Nope").err().unwrap(), "Profile 'Nope' not found");
    assert_eq!(started_message("Game"), "Profile 'Game' started");
    assert_eq!(engine_failed_message("boom"), "Failed to create engine: boom");
    assert_eq!(stop_reply(true, "Game").unwrap(), "Stopping profile 'Game'");
    assert_eq!(stop_reply(false, "Game").err().unwrap(), "Profile 'Game' is not running");
    assert_eq!(shutdown_message(), "Daemon shutting down");
}

#[test]
fn reload_reports() {
    let none: Vec<String> = vec![];
    assert_eq!(
        reload_report(&none, None, &vec![]).unwrap(),
        "Configuration reloaded successfully. No profiles were running."
    );
    let names = vec![String::from("A"), String::from("B"), String::from("C")];
    assert_eq!(
        reload_report(&names, None, &vec![None, None, None]).unwrap(),
        "Configuration reloaded successfully. Restarted 3 profile(s)."
    );
    assert_eq!(
        reload_report(&names, None, &vec![None, Some(String::from("gone")), Some(String::from("busy"))]).unwrap(),
        "Configuration reloaded successfully. Restarted 1/3 profile(s). Failed: B: gone, C: busy"
    );
    let err = reload_failure_message("bad json");
    assert_eq!(err, "Config reload failed: bad json. Old configuration retained.");
    // A failed reload with nothing restarted is an error.
    assert_eq!(
        reload_report(&names[..1].to_vec(), Some(err.as_str()), &vec![Some(String::from("x"))]).err().unwrap(),
        "Config reload failed (keeping old config): Config reload failed: bad json. Old configuration retained.. Restarted 0/1 profile(s). Failed: A: x"
    );
    // ...but not when something came back.
    assert!(reload_report(&names[..1].to_vec(), Some("e"), &vec![None]).is_ok());
}

#[test]
fn client_replies() {
    assert_eq!(reply_outcome(MessageReply::Done { message: String::from("ok") }).unwrap(), "ok");
    assert_eq!(reply_outcome(MessageReply::Refused { message: String::from("no") }).err().unwrap(), "no");
    assert_eq!(reply_outcome(MessageReply::Other).err().unwrap(), "Unexpected response");
    assert_eq!(request_failed_message("Ping", "closed"), "Ping request failed: closed");
}

#[test]
fn choosing_profiles_to_run() {
    let m = manager_with(&[("A", true), ("B", false), ("C", true)]);
    let all = profiles_to_run(&m, &vec![]).unwrap();
    let names: Vec<&str> = all.iter().map(|p| p.name.as_str()).collect();
    assert_eq!(names, vec!["A", "C"]);
    let some = profiles_to_run(&m, &vec![String::from("B"), String::from("A")]).unwrap();
    assert_eq!(some[0].name, "B");
    assert_eq!(some[1].name, "A");
    assert_eq!(
        profiles_to_run(&m, &vec![String::from("A"), String::from("X"), String::from("Y")]).err().unwrap(),
        "Profile not found: X"
    );
}

#[test]
fn wizard_steps() {
    let m = manager_with(&[("A", true)]);
    assert!(check_new_profile(&m, "New").is_ok());
    assert_eq!(check_new_profile(&m, "A").err().unwrap(), "Profile 'A' already exists");
    assert!(matches!(device_match_for("/dev/input/event3"), DeviceMatch::Path { .. }));
    assert!(matches!(device_match_for("Xbox"), DeviceMatch::Name { .. }));
    assert_eq!(default_output_name("Game"), "Remapped Game");

    let d = DeviceInfo {
        path: String::from("/dev/input/event2"),
        name: String::from("Pad"),
        phys: None,
        uniq: None,
        vendor: 0x045e,
        product: 0x028e,
        version: 1,
        is_keyboard: false,
        is_mouse: false,
        is_gamepad: true,
    };
    assert_eq!(device_choice_label(&d), "[Gamepad] Pad (/dev/input/event2)");
    assert_eq!(
        match_option_labels(&d),
        vec![String::from("By name: Pad"), String::from("By ID: 045e:028e"), String::from("By path: /dev/input/event2")]
    );
    assert_eq!(device_match_choice(&d, 1).display(), "045e:028e");
    assert_eq!(device_match_choice(&d, 2).display(), "/dev/input/event2");

    match simple_from_answers("BTN_A", "BTN_B") {
        Mapping::Simple { from, to } => assert_eq!((from.code.as_str(), to.code.as_str()), ("BTN_A", "BTN_B")),
        _ => panic!("expected a simple mapping"),
    }
    match conditional_from_answers("BTN_START", "", "KEY_LEFTMETA", 300) {
        Mapping::Conditional { tap, hold, threshold_ms, .. } => {
            assert!(tap.is_none());
            assert_eq!(hold.unwrap().code, "KEY_LEFTMETA");
            assert_eq!(threshold_ms, 300);
        }
        _ => panic!("expected a tap/hold mapping"),
    }
    let p = wizard_profile(String::from("Game"), DeviceMatch::by_name("Pad"), String::from("Remapped Game"), true, vec![]);
    assert!(p.enabled && p.grab);
    assert_eq!(p.output_device.name.as_deref(), Some("Remapped Game"));

    let devices = vec![d];
    assert_eq!(debug_device_path("/dev/input/event9", devices.clone()).unwrap(), "/dev/input/event9");
    assert_eq!(debug_device_path("pad", devices.clone()).unwrap(), "/dev/input/event2");
    assert!(debug_device_path("mouse", devices).is_none());
}

#[test]
fn service_commands() {
    let unit = service_unit("/usr/bin/remapper");
    assert!(unit.starts_with("[Unit]\nDescription=Remapper - Linux evdev input remapping\n"));
    assert!(unit.contains("ExecStart=/usr/bin/remapper run --daemon\n"));
    assert!(unit.ends_with("[Install]\nWantedBy=default.target\n"));
    assert_eq!(systemctl_verb(ServiceAction::Restart), Some("restart"));
    assert_eq!(systemctl_verb(ServiceAction::Install), None);
    assert_eq!(systemctl_report(ServiceAction::Stop), Some(("Service stopped.", "Failed to stop service")));
    assert_eq!(systemctl_report(ServiceAction::Status), None);
    assert_eq!(journal_args(50, false), vec!["--user", "-u", "remapper.service", "-n", "50"]);
    assert_eq!(journal_args(7, true).len(), 6);
}

#[test]
fn service_files_live_under_the_home_directory() {
    assert_eq!(remapper::cli::service_dir("/home/u"), "/home/u/.config/systemd/user");
    assert_eq!(
        remapper::cli::service_path("/home/u/"),
        "/home/u/.config/systemd/user/remapper.service"
    );
}

#[test]
fn event_monitor_value_labels() {
    assert_eq!(remapper::cli::debug_value_label(1), "PRESS");
    assert_eq!(remapper::cli::debug_value_label(0), "RELEASE");
    assert_eq!(remapper::cli::debug_value_label(2), "2");
    assert_eq!(remapper::cli::debug_value_label(-32768), "-32768");
}

#[test]
fn reload_waits_at_most_five_seconds() {
    use_reload_wait();
}

fn use_reload_wait() {
    use_wait(0, 0, remapper::daemon::ReloadWait::AllStopped);
    use_wait(2, 100_000_000, remapper::daemon::ReloadWait::Wait);
    use_wait(2, 5_000_000_000, remapper::daemon::ReloadWait::Wait);
    use_wait(2, 5_000_000_001, remapper::daemon::ReloadWait::TimedOut);
    use_wait(0, 9_000_000_000, remapper::daemon::ReloadWait::AllStopped);
}

fn use_wait(running: usize, ns: u128, expected: remapper::daemon::ReloadWait) {
    assert_eq!(remapper::daemon::reload_wait(running, ns), expected);
}
