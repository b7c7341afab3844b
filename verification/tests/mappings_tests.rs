use remapper::config::MacroStep;
use remapper::events::{EventCode, EventType, InputEvent};
use remapper::mappings::combo::ComboHandler;
use remapper::mappings::conditional::ConditionalHandler;
use remapper::mappings::macro_map::MacroHandler;
use remapper::mappings::simple::SimpleHandler;

#[test]
fn test_combo_handler() {
    let mut handler = ComboHandler::new(
        vec![EventCode::key("BTN_TL"), EventCode::key("BTN_TR")],
        EventCode::key("KEY_ESC"),
        false,
    )
    .unwrap();

    let press1 = InputEvent::new(EventType::Key, 310, 1);
    assert!(handler.handles(&press1));
    let output = handler.process(press1);
    assert!(output.is_empty());

    let press2 = InputEvent::new(EventType::Key, 311, 1);
    let output = handler.process(press2);
    assert!(!output.is_empty());
    assert_eq!(output[0].code, 1);
    assert_eq!(output[0].value, 1);

    let release1 = InputEvent::new(EventType::Key, 310, 0);
    let output = handler.process(release1);
    assert!(!output.is_empty());
    assert_eq!(output[0].code, 1);
    assert_eq!(output[0].value, 0);
}

#[test]
fn test_combo_order_sensitive() {
    let mut handler = ComboHandler::new(
        vec![EventCode::key("BTN_TL"), EventCode::key("BTN_TR")],
        EventCode::key("KEY_ESC"),
        true,
    )
    .unwrap();

    let press1 = InputEvent::new(EventType::Key, 311, 1);
    handler.process(press1);

    let press2 = InputEvent::new(EventType::Key, 310, 1);
    let output = handler.process(press2);
    assert!(output.is_empty());

    handler.reset();

    let press1 = InputEvent::new(EventType::Key, 310, 1);
    handler.process(press1);

    let press2 = InputEvent::new(EventType::Key, 311, 1);
    let output = handler.process(press2);
    assert!(!output.is_empty());
}

#[test]
fn test_conditional_tap() {
    let mut handler = ConditionalHandler::new(
        EventCode::key("BTN_START"),
        Some(EventCode::key("KEY_ESC")),
        Some(EventCode::key("KEY_LEFTMETA")),
        300,
    )
    .unwrap();

    let press = InputEvent::new(EventType::Key, 315, 1);
    assert!(handler.handles(&press));
    let output = handler.process(press);
    assert!(output.is_empty());

    let release = InputEvent::new(EventType::Key, 315, 0);
    let output = handler.process(release);

    assert_eq!(output.len(), 4);
    assert_eq!(output[0].code, 1);
    assert_eq!(output[0].value, 1);
    assert_eq!(output[2].code, 1);
    assert_eq!(output[2].value, 0);
}

#[test]
fn test_conditional_hold() {
    let mut handler = ConditionalHandler::new(
        EventCode::key("BTN_START"),
        Some(EventCode::key("KEY_ESC")),
        Some(EventCode::key("KEY_LEFTMETA")),
        50,
    )
    .unwrap();

    let press = InputEvent::new(EventType::Key, 315, 1);
    handler.process(press);

    // Wait past the threshold on the monotonic clock.
    let start = std::time::Instant::now();
    while start.elapsed() < std::time::Duration::from_millis(100) {
        std::hint::spin_loop();
    }

    let repeat = InputEvent::new(EventType::Key, 315, 2);
    let output = handler.process(repeat);

    assert!(!output.is_empty());
    assert_eq!(output[0].code, 125);
    assert_eq!(output[0].value, 1);
}

#[test]
fn test_macro_handler() {
    let sequence = vec![
        MacroStep::press("KEY_LEFTALT"),
        MacroStep::press("KEY_TAB"),
        MacroStep::delay(50),
        MacroStep::release("KEY_TAB"),
        MacroStep::release("KEY_LEFTALT"),
    ];

    let mut handler = MacroHandler::new(EventCode::key("BTN_SELECT"), sequence).unwrap();

    let event = InputEvent::new(EventType::Key, 314, 1);
    assert!(handler.handles(&event));

    let output = handler.process(event);
    assert!(!output.is_empty());
}

#[test]
fn test_simple_handler() {
    let mut handler = SimpleHandler::new(EventCode::key("BTN_A"), EventCode::key("BTN_B")).unwrap();

    let event = InputEvent::new(EventType::Key, 304, 1);

    assert!(handler.handles(&event));

    let output = handler.process(event);
    assert_eq!(output.len(), 1);
    assert_eq!(output[0].code, 305);
    assert_eq!(output[0].value, 1);
}

#[test]
fn test_simple_handler_passthrough() {
    let handler = SimpleHandler::new(EventCode::key("BTN_A"), EventCode::key("BTN_B")).unwrap();

    let event = InputEvent::new(EventType::Key, 305, 1);

    assert!(!handler.handles(&event));
}

// ---------------------------------------------------------------------------
// Further cases
// ---------------------------------------------------------------------------

#[test]
fn simple_handler_keeps_value_and_refuses_unknown_names() {
    let mut handler = SimpleHandler::new(EventCode::key("KEY_A"), EventCode::key("KEY_B")).unwrap();
    let out = handler.process(InputEvent::new(EventType::Key, 30, 0));
    assert_eq!(out.len(), 1);
    assert_eq!(out[0].code, 48);
    assert_eq!(out[0].value, 0);
    assert_eq!(handler.description(), "EV_KEY:KEY_A -> EV_KEY:KEY_B");

    let err = SimpleHandler::new(EventCode::key("NOT_A_KEY"), EventCode::key("KEY_B"));
    assert!(err.is_err());
    assert_eq!(err.err().unwrap().to_string(), "Invalid mapping: Unknown key code: NOT_A_KEY");

    // Numbers are accepted where no name matches.
    let h = SimpleHandler::new(EventCode::key("30"), EventCode::key("48")).unwrap();
    assert!(h.handles(&InputEvent::new(EventType::Key, 30, 1)));
}

#[test]
fn macro_handler_expands_and_ignores_release() {
    let sequence = vec![
        MacroStep::press("KEY_LEFTALT"),
        MacroStep::press("KEY_TAB"),
        MacroStep::delay(50),
        MacroStep::release("KEY_TAB"),
        MacroStep::release("KEY_LEFTALT"),
    ];
    let mut handler = MacroHandler::new(EventCode::key("BTN_SELECT"), sequence).unwrap();
    let out = handler.process(InputEvent::new(EventType::Key, 314, 1));
    // press alt, sync, press tab, sync, release tab, sync, release alt, sync
    assert_eq!(out.len(), 8);
    assert_eq!((out[0].code, out[0].value), (56, 1));
    assert!(matches!(out[1].event_type, EventType::Syn));
    assert_eq!((out[2].code, out[2].value), (15, 1));
    assert_eq!((out[4].code, out[4].value), (15, 0));
    assert_eq!((out[6].code, out[6].value), (56, 0));
    assert_eq!(handler.delays(), vec![50]);
    // The release of the trigger is swallowed.
    let out = handler.process(InputEvent::new(EventType::Key, 314, 0));
    assert!(out.is_empty());
    assert_eq!(handler.description(), "EV_KEY:BTN_SELECT -> [macro with 5 steps]");

    let bad = MacroHandler::new(EventCode::key("BTN_SELECT"), vec![MacroStep::press("NOPE")]);
    assert!(bad.is_err());
}

#[test]
fn conditional_press_release_is_a_click() {
    // Law: a press followed by a quick release gives press, sync, release,
    // sync of the tap key.
    let mut handler = ConditionalHandler::new(
        EventCode::key("KEY_CAPSLOCK"),
        Some(EventCode::key("KEY_ESC")),
        None,
        500,
    )
    .unwrap();
    assert!(handler.process(InputEvent::new(EventType::Key, 58, 1)).is_empty());
    let out = handler.process(InputEvent::new(EventType::Key, 58, 0));
    assert_eq!(out.len(), 4);
    assert_eq!((out[0].code, out[0].value), (1, 1));
    assert!(matches!(out[1].event_type, EventType::Syn));
    assert_eq!((out[2].code, out[2].value), (1, 0));
    assert!(matches!(out[3].event_type, EventType::Syn));

    let none = ConditionalHandler::new(EventCode::key("KEY_CAPSLOCK"), None, None, 300);
    assert_eq!(
        none.err().unwrap().to_string(),
        "Invalid mapping: Conditional mapping must have at least tap or hold defined"
    );
}

#[test]
fn conditional_hold_is_released_on_release() {
    // Law: once the hold key was sent, the release of the trigger releases it.
    let mut handler = ConditionalHandler::new(
        EventCode::key("BTN_START"),
        Some(EventCode::key("KEY_ESC")),
        Some(EventCode::key("KEY_LEFTMETA")),
        10,
    )
    .unwrap();
    handler.process(InputEvent::new(EventType::Key, 315, 1));
    let start = std::time::Instant::now();
    while start.elapsed() < std::time::Duration::from_millis(40) {
        std::hint::spin_loop();
    }
    let held = handler.process(InputEvent::new(EventType::Key, 315, 2));
    assert_eq!((held[0].code, held[0].value), (125, 1));
    let out = handler.process(InputEvent::new(EventType::Key, 315, 0));
    assert_eq!(out.len(), 2);
    assert_eq!((out[0].code, out[0].value), (125, 0));
}

#[test]
fn combo_needs_two_keys_and_describes_itself() {
    let err = ComboHandler::new(vec![EventCode::key("BTN_TL")], EventCode::key("KEY_ESC"), false);
    assert_eq!(err.err().unwrap().to_string(), "Invalid mapping: Combo must have at least 2 keys");

    let h = ComboHandler::new(
        vec![EventCode::key("BTN_TL"), EventCode::key("BTN_TR")],
        EventCode::key("KEY_ESC"),
        true,
    )
    .unwrap();
    assert_eq!(h.description(), "BTN_TL+BTN_TR -> EV_KEY:KEY_ESC (order_sensitive=true)");
}

#[test]
fn combo_release_after_trigger_releases_output_once() {
    let mut h = ComboHandler::new(
        vec![EventCode::key("KEY_A"), EventCode::key("KEY_S")],
        EventCode::key("KEY_ENTER"),
        false,
    )
    .unwrap();
    assert!(h.process(InputEvent::new(EventType::Key, 31, 1)).is_empty());
    let out = h.process(InputEvent::new(EventType::Key, 30, 1));
    assert_eq!((out[0].code, out[0].value), (28, 1));
    let out = h.process(InputEvent::new(EventType::Key, 31, 0));
    assert_eq!((out[0].code, out[0].value), (28, 0));
    // The second release gives nothing more.
    assert!(h.process(InputEvent::new(EventType::Key, 30, 0)).is_empty());
}
