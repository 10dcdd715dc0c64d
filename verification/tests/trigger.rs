use std::str::FromStr;

use niri_cursor::trigger::{ClickTrigger, ClickTriggerType};

#[test]
fn click_trigger_accepts_routing() {
    assert!(ClickTrigger::Left.accepts(true, false));
    assert!(!ClickTrigger::Left.accepts(false, true));
    assert!(ClickTrigger::Right.accepts(false, true));
    assert!(!ClickTrigger::Right.accepts(true, false));
    assert!(ClickTrigger::Both.accepts(true, false));
    assert!(ClickTrigger::Both.accepts(false, true));
}

#[test]
fn click_trigger_rejects_unpressed_buttons() {
    assert!(!ClickTrigger::Both.accepts(false, false));
    assert!(!ClickTrigger::Left.accepts(false, false));
}

#[test]
fn click_trigger_type_parses_names_and_numbers() {
    for s in ["left", "Left", "LEFT", "0", "  left\t"] {
        assert_eq!(s.parse::<ClickTriggerType>(), Ok(ClickTriggerType::Left), "{s}");
    }
    for s in ["right", "Right", "RIGHT", "1", "\nright "] {
        assert_eq!(ClickTriggerType::from_str(s), Ok(ClickTriggerType::Right), "{s}");
    }
    for s in ["both", "Both", "BOTH", "2"] {
        assert_eq!(ClickTriggerType::from_str(s), Ok(ClickTriggerType::Both), "{s}");
    }
}

#[test]
fn click_trigger_type_error_names_trimmed_text() {
    assert_eq!(
        ClickTriggerType::from_str("  middle "),
        Err(String::from("invalid click-trigger `middle`: expected left/right/both or 0/1/2"))
    );
    assert_eq!(
        ClickTriggerType::from_str("lEft"),
        Err(String::from("invalid click-trigger `lEft`: expected left/right/both or 0/1/2"))
    );
    assert!(ClickTriggerType::from_str("3").is_err());
    assert!(ClickTriggerType::from_str("").is_err());
}

#[test]
fn click_trigger_from_config_keeps_variant() {
    assert_eq!(ClickTrigger::from_config(ClickTriggerType::Left), ClickTrigger::Left);
    assert_eq!(ClickTrigger::from_config(ClickTriggerType::Right), ClickTrigger::Right);
    assert_eq!(ClickTrigger::from_config(ClickTriggerType::Both), ClickTrigger::Both);
    assert_eq!(ClickTriggerType::default(), ClickTriggerType::Left);
}
