use remapper::config::{
    Config, DeviceMatch, ExecutionMode, MacroStep, Mapping, OutputConfig, Profile, Settings,
    CONFIG_VERSION,
};
use remapper::events::EventCode;
use remapper::error::RemapperError;
use remapper::manager::{settle_config_text, ConfigManager, ConfigText};
use remapper::migration::{code_number_to_name, migrate_v1_config, V1Config, V1Remap};

#[test]
fn new_manager_holds_given_path_and_default_config() {
    let manager = ConfigManager::new(String::from("config.json"), Config::default());
    assert_eq!(manager.path(), "config.json");
    assert_eq!(manager.config().version, CONFIG_VERSION);
    assert!(manager.config().profiles.is_empty());
}

#[test]
fn test_add_profile() {
    let mut manager = ConfigManager::new(String::from("config.json"), Config::default());

    let profile = Profile::new("Test Profile", DeviceMatch::by_name("Test Device"));

    manager.add_profile(profile).unwrap();

    assert_eq!(manager.profiles().len(), 1);
    assert!(manager.get_profile("Test Profile").is_some());
}

#[test]
fn test_device_match_display() {
    assert_eq!(DeviceMatch::by_path("/dev/input/event5").display(), "/dev/input/event5");
    assert_eq!(DeviceMatch::by_name("Xbox Controller").display(), "Xbox Controller");
    assert_eq!(DeviceMatch::by_id(0x045e, 0x028e).display(), "045e:028e");
}

#[test]
fn test_migrate_v1_config() {
    // {"remaps": [{"input_device": "/dev/input/event5",
    //   "output_device_name": "Remapped Controller",
    //   "event_map": {"304": 305, "305": 304}, "grab": true}]}
    let v1 = V1Config {
        remaps: Some(vec![V1Remap {
            input_device: Some(String::from("/dev/input/event5")),
            output_device_name: Some(String::from("Remapped Controller")),
            grab: Some(true),
            event_map: Some(vec![
                (String::from("304"), Some(305)),
                (String::from("305"), Some(304)),
            ]),
            name: None,
        }]),
    };
    let config = migrate_v1_config(&v1).unwrap();

    assert_eq!(config.version, CONFIG_VERSION);
    assert_eq!(config.profiles.len(), 1);

    let profile = &config.profiles[0];
    assert_eq!(profile.name, "Profile 1");
    assert!(profile.grab);
    assert_eq!(profile.mappings.len(), 2);
}

#[test]
fn test_code_number_to_name() {
    assert_eq!(code_number_to_name(304), "BTN_SOUTH");
    assert_eq!(code_number_to_name(305), "BTN_EAST");
    assert_eq!(code_number_to_name(1), "KEY_ESC");
    assert_eq!(code_number_to_name(57), "KEY_SPACE");
    assert_eq!(code_number_to_name(9999), "KEY_9999");
}

// ---------------------------------------------------------------------------
// Further cases
// ---------------------------------------------------------------------------

#[test]
fn migrated_mappings_name_both_keys() {
    let v1 = V1Config {
        remaps: Some(vec![V1Remap {
            input_device: Some(String::from("/dev/input/event5")),
            output_device_name: None,
            grab: None,
            event_map: Some(vec![(String::from("304"), Some(305))]),
            name: Some(String::from("Pad")),
        }]),
    };
    let config = migrate_v1_config(&v1).unwrap();
    let p = &config.profiles[0];
    assert_eq!(p.name, "Pad");
    assert!(!p.grab);
    assert!(p.enabled);
    assert_eq!(p.input_device.display(), "/dev/input/event5");
    match &p.mappings[0] {
        Mapping::Simple { from, to } => {
            assert_eq!(from.code, "BTN_SOUTH");
            assert_eq!(to.code, "BTN_EAST");
        }
        _ => panic!("expected a simple mapping"),
    }
}

#[test]
fn migration_errors() {
    let none = V1Config { remaps: None };
    assert_eq!(
        migrate_v1_config(&none).err().unwrap().to_string(),
        "Failed to parse configuration: Missing 'remaps' array"
    );
    let no_device = V1Config {
        remaps: Some(vec![V1Remap {
            input_device: None,
            output_device_name: None,
            grab: None,
            event_map: None,
            name: None,
        }]),
    };
    assert_eq!(
        migrate_v1_config(&no_device).err().unwrap().to_string(),
        "Failed to parse configuration: Missing input_device in remap"
    );
    let bad_code = V1Config {
        remaps: Some(vec![V1Remap {
            input_device: Some(String::from("/dev/input/event1")),
            output_device_name: None,
            grab: None,
            event_map: Some(vec![(String::from("abc"), Some(1))]),
            name: None,
        }]),
    };
    assert_eq!(
        migrate_v1_config(&bad_code).err().unwrap().to_string(),
        "Failed to parse configuration: Invalid event code: abc"
    );
    let bad_target = V1Config {
        remaps: Some(vec![V1Remap {
            input_device: Some(String::from("/dev/input/event1")),
            output_device_name: None,
            grab: None,
            event_map: Some(vec![(String::from("30"), None)]),
            name: None,
        }]),
    };
    assert_eq!(
        migrate_v1_config(&bad_target).err().unwrap().to_string(),
        "Failed to parse configuration: Invalid target event code"
    );
}

#[test]
fn add_then_find_and_remove() {
    // Laws: a profile added can be found by its name, a second profile of
    // the same name is refused, and a removed profile is gone.
    let mut config = Config::new();
    config.add_profile(Profile::new("A", DeviceMatch::by_name("pad"))).unwrap();
    assert!(config.find_profile("A").is_some());
    let again = config.add_profile(Profile::new("A", DeviceMatch::by_name("other")));
    assert_eq!(again.err().unwrap().to_string(), "Profile already exists: A");
    let removed = config.remove_profile("A").unwrap();
    assert_eq!(removed.name, "A");
    assert!(config.find_profile("A").is_none());
    assert_eq!(
        config.remove_profile("A").err().unwrap().to_string(),
        "Profile not found: A"
    );
}

#[test]
fn enabled_profiles_keep_order() {
    let mut config = Config::new();
    let mut b = Profile::new("B", DeviceMatch::by_name("x"));
    b.enabled = false;
    config.add_profile(Profile::new("A", DeviceMatch::by_name("x"))).unwrap();
    config.add_profile(b).unwrap();
    config.add_profile(Profile::new("C", DeviceMatch::by_name("x"))).unwrap();
    let names: Vec<&str> = config.enabled_profiles().iter().map(|p| p.name.as_str()).collect();
    assert_eq!(names, vec!["A", "C"]);
    assert!(config.set_enabled("B", true));
    assert_eq!(config.enabled_profiles().len(), 3);
    assert!(!config.set_enabled("Z", true));
}

#[test]
fn manager_update_and_delete() {
    let mut m = ConfigManager::new(String::from("/tmp/c.json"), Config::default());
    m.add_profile(Profile::new("A", DeviceMatch::by_name("x"))).unwrap();
    m.add_profile(Profile::new("B", DeviceMatch::by_name("y"))).unwrap();
    let mut a2 = Profile::new("A", DeviceMatch::by_path("/dev/input/event3"));
    a2.grab = true;
    m.update_profile("A", a2).unwrap();
    // The updated profile moves to the end.
    assert_eq!(m.profiles()[0].name, "B");
    assert_eq!(m.profiles()[1].name, "A");
    assert!(m.profiles()[1].grab);
    assert_eq!(
        m.update_profile("Z", Profile::new("Z", DeviceMatch::by_name("z"))).err().unwrap().to_string(),
        "Profile not found: Z"
    );
    m.set_profile_enabled("B", false).unwrap();
    assert_eq!(m.enabled_profiles().len(), 1);
    m.delete_profile("B").unwrap();
    assert_eq!(m.profiles().len(), 1);
}

#[test]
fn defaults_and_builders() {
    let s = Settings::default();
    assert_eq!(s.log_level, "info");
    assert!(!s.auto_start);
    assert!(s.hotplug_enabled);
    assert!(matches!(s.execution_mode, ExecutionMode::BackgroundThread));
    assert_eq!(ExecutionMode::Daemon.to_string(), "Daemon");
    assert!(OutputConfig::default().name.is_none());
    assert_eq!(OutputConfig::with_name("Virtual").name.as_deref(), Some("Virtual"));
    let id = DeviceMatch::Id { vendor: 0x045e, product: 0x028e, name: Some(String::from("Pad")) };
    assert_eq!(id.display(), "Pad (045e:028e)");
    match MacroStep::delay(25) {
        MacroStep::Delay { delay_ms } => assert_eq!(delay_ms, 25),
        _ => panic!("expected a delay"),
    }
    let m = Mapping::combo(vec![EventCode::key("KEY_A"), EventCode::key("KEY_B")], EventCode::key("KEY_C"));
    assert_eq!(m.trigger().unwrap().code, "KEY_A");
    let cloned = Profile::new("P", DeviceMatch::by_name("d")).clone();
    assert_eq!(cloned.name, "P");
}

#[test]
fn config_file_sits_in_config_dir() {
    assert_eq!(
        ConfigManager::config_path_in(Some(String::from("/home/u/.config/remapper"))),
        Some(String::from("/home/u/.config/remapper/config.json"))
    );
    assert_eq!(
        ConfigManager::config_path_in(Some(String::from("/etc/remapper/"))),
        Some(String::from("/etc/remapper/config.json"))
    );
    assert_eq!(ConfigManager::config_path_in(Some(String::new())), Some(String::from("config.json")));
    assert_eq!(ConfigManager::config_path_in(None), None);
    if let Some(p) = ConfigManager::default_config_path() {
        assert!(p.ends_with("config.json"));
    }
}

#[test]
fn backup_names_carry_the_time() {
    assert_eq!(remapper::manager::backup_file_name(1700000000), "config.backup.1700000000.json");
    assert_eq!(remapper::manager::backup_file_name(0), "config.backup.0.json");
}

#[test]
fn update_refuses_another_profiles_name() {
    let mut m = ConfigManager::new(String::from("/tmp/c.json"), Config::default());
    m.add_profile(Profile::new("A", DeviceMatch::by_name("x"))).unwrap();
    m.add_profile(Profile::new("B", DeviceMatch::by_name("y"))).unwrap();
    assert_eq!(
        m.update_profile("A", Profile::new("B", DeviceMatch::by_name("z"))).err().unwrap().to_string(),
        "Profile already exists: B"
    );
    assert_eq!(m.profiles().len(), 2);
    assert_eq!(m.profiles()[0].name, "A");
    // Renaming to a name that no other profile has is accepted.
    m.update_profile("A", Profile::new("C", DeviceMatch::by_name("z"))).unwrap();
    assert_eq!(m.profiles()[0].name, "B");
    assert_eq!(m.profiles()[1].name, "C");
}

fn one_remap_v1() -> V1Config {
    V1Config {
        remaps: Some(vec![V1Remap {
            input_device: Some(String::from("/dev/input/event5")),
            output_device_name: None,
            grab: None,
            event_map: Some(vec![(String::from("304"), Some(305))]),
            name: None,
        }]),
    }
}

#[test]
fn current_config_text_is_used_as_it_is() {
    let loaded = settle_config_text(ConfigText::Current(Config::default()), String::new()).unwrap();
    assert_eq!(loaded.config.version, CONFIG_VERSION);
    assert!(!loaded.back_up_v1);
    assert!(!loaded.save);

    let mut old = Config::default();
    old.version = 1;
    let loaded = settle_config_text(ConfigText::Current(old), String::new()).unwrap();
    assert_eq!(loaded.config.version, 1);
    assert!(loaded.save);
}

#[test]
fn json_without_version_is_migrated_and_backed_up() {
    let text = ConfigText::OtherJson { has_version: false, v1: one_remap_v1() };
    let loaded = settle_config_text(text, String::from("missing field")).unwrap();
    assert!(loaded.back_up_v1);
    assert!(!loaded.save);
    assert_eq!(loaded.config.version, CONFIG_VERSION);
    assert_eq!(loaded.config.profiles.len(), 1);
    assert_eq!(loaded.config.profiles[0].name, "Profile 1");

    let text = ConfigText::OtherJson { has_version: false, v1: V1Config { remaps: None } };
    let e = settle_config_text(text, String::from("missing field")).err().unwrap();
    assert!(matches!(e, RemapperError::ConfigParseError(ref m) if m == "Missing 'remaps' array"));
}

#[test]
fn unreadable_config_text_gives_the_parse_error() {
    let text = ConfigText::OtherJson { has_version: true, v1: one_remap_v1() };
    let e = settle_config_text(text, String::from("bad profiles")).err().unwrap();
    assert!(matches!(e, RemapperError::ConfigParseError(ref m) if m == "bad profiles"));

    let e = settle_config_text(ConfigText::NotJson, String::from("expected value")).err().unwrap();
    assert!(matches!(e, RemapperError::ConfigParseError(ref m) if m == "expected value"));
}
