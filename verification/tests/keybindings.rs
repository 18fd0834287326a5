use rockbot_tui::input::{normalize_for_text_input, InputAction};
use rockbot_tui::keybindings::{KeyBinding, KeySpec, KeybindingConfig, TuiAction};
use rockbot_tui::keys::{KeyCode, KeyEvent, KeyModifiers};

fn key_event(code: KeyCode, modifiers: KeyModifiers) -> KeyEvent {
    KeyEvent::new(code, modifiers)
}

#[test]
fn test_keyspec_parse_char() {
    let spec = KeySpec::parse("q").unwrap();
    assert_eq!(spec, KeySpec::Char('q'));
}

#[test]
fn test_keyspec_parse_named_key() {
    let spec = KeySpec::parse("Tab").unwrap();
    assert_eq!(spec, KeySpec::Key(KeyCode::Tab));
}

#[test]
fn test_keyspec_parse_modified() {
    let spec = KeySpec::parse("ctrl+c").unwrap();
    assert_eq!(
        spec,
        KeySpec::Modified {
            modifiers: KeyModifiers::control(),
            code: KeyCode::Char('c'),
        }
    );
}

#[test]
fn test_keyspec_parse_shift_bracket() {
    let spec = KeySpec::parse("shift+[").unwrap();
    assert_eq!(
        spec,
        KeySpec::Modified {
            modifiers: KeyModifiers::shift(),
            code: KeyCode::Char('['),
        }
    );
}

#[test]
fn test_keyspec_parse_f5() {
    let spec = KeySpec::parse("F5").unwrap();
    assert_eq!(spec, KeySpec::Key(KeyCode::F(5)));
}

#[test]
fn test_keyspec_matches_char() {
    let spec = KeySpec::Char('q');
    let event = key_event(KeyCode::Char('q'), KeyModifiers::none());
    assert!(spec.matches(&event));
}

#[test]
fn test_keyspec_matches_char_with_modifier_fails() {
    let spec = KeySpec::Char('q');
    let event = key_event(KeyCode::Char('q'), KeyModifiers::control());
    assert!(!spec.matches(&event));
}

#[test]
fn test_keyspec_matches_modified() {
    let spec = KeySpec::Modified {
        modifiers: KeyModifiers::control(),
        code: KeyCode::Char('c'),
    };
    let event = key_event(KeyCode::Char('c'), KeyModifiers::control());
    assert!(spec.matches(&event));
}

#[test]
fn test_keyspec_roundtrip_display_parse() {
    let cases = ["q", "Tab", "ctrl+c", "shift+[", "F5", "PageUp"];
    for s in cases {
        let spec = KeySpec::parse(s).unwrap();
        let roundtrip = spec.to_string();
        let re_parsed = KeySpec::parse(&roundtrip).unwrap();
        assert_eq!(spec, re_parsed, "roundtrip failed for {s}: got {roundtrip}");
    }
}

#[test]
fn test_default_config_lookup_quit() {
    let config = KeybindingConfig::default();
    let event = key_event(KeyCode::Char('q'), KeyModifiers::none());
    let action = config.lookup("normal", &event);
    assert_eq!(action, Some(TuiAction::Quit));
}

#[test]
fn test_default_config_lookup_nav_up() {
    let config = KeybindingConfig::default();
    let event = key_event(KeyCode::Up, KeyModifiers::none());
    let action = config.lookup("normal", &event);
    assert_eq!(action, Some(TuiAction::NavUp));
}

#[test]
fn test_default_config_lookup_jump_section() {
    let config = KeybindingConfig::default();
    let event = key_event(KeyCode::Char('3'), KeyModifiers::none());
    let action = config.lookup("normal", &event);
    assert_eq!(action, Some(TuiAction::JumpToSection(3)));
}

#[test]
fn test_default_config_lookup_chat_enter() {
    let config = KeybindingConfig::default();
    let event = key_event(KeyCode::Enter, KeyModifiers::none());
    let action = config.lookup("chat", &event);
    assert_eq!(action, Some(TuiAction::Enter));
}

#[test]
fn test_default_config_lookup_unknown_mode() {
    let config = KeybindingConfig::default();
    let event = key_event(KeyCode::Char('q'), KeyModifiers::none());
    assert!(config.lookup("unknown_mode", &event).is_none());
}

/// The serde form of a key: its text, read back with the parser.
#[derive(Debug, PartialEq)]
struct SerdeKey(KeySpec);

impl serde::Serialize for SerdeKey {
    fn serialize<S: serde::Serializer>(&self, serializer: S) -> Result<S::Ok, S::Error> {
        serializer.serialize_str(&self.0.to_string())
    }
}

impl<'de> serde::Deserialize<'de> for SerdeKey {
    fn deserialize<D: serde::Deserializer<'de>>(deserializer: D) -> Result<Self, D::Error> {
        let s = <String as serde::Deserialize>::deserialize(deserializer)?;
        KeySpec::parse(&s).map(SerdeKey).map_err(serde::de::Error::custom)
    }
}

#[test]
fn test_keyspec_serde_roundtrip() {
    let spec = KeySpec::Modified {
        modifiers: KeyModifiers::shift(),
        code: KeyCode::Char('['),
    };
    let json = serde_json::to_string(&SerdeKey(spec.clone())).unwrap();
    let de: SerdeKey = serde_json::from_str(&json).unwrap();
    assert_eq!(SerdeKey(spec), de);
}

#[test]
fn keyspec_display_of_each_form() {
    assert_eq!(KeySpec::Char('q').to_string(), "q");
    assert_eq!(KeySpec::Key(KeyCode::PageUp).to_string(), "PageUp");
    assert_eq!(KeySpec::Key(KeyCode::F(5)).to_string(), "F5");
    let spec = KeySpec::Modified {
        modifiers: KeyModifiers::control(),
        code: KeyCode::Char('c'),
    };
    assert_eq!(spec.to_string(), "ctrl+c");
}

#[test]
fn keyspec_parse_rejects_unknown_modifier_and_key() {
    assert_eq!(KeySpec::parse("hyperx+c"), Err("Unknown modifier: hyperx".to_string()));
    assert_eq!(KeySpec::parse("NotAKey"), Err("Unknown key: NotAKey".to_string()));
    assert_eq!(
        KeySpec::parse("ctrl+Nope"),
        Err("Unknown key after modifier: Nope".to_string())
    );
}

#[test]
fn keyspec_parse_is_case_insensitive_for_modifiers() {
    let spec = KeySpec::parse("Ctrl+c").unwrap();
    assert_eq!(
        spec,
        KeySpec::Modified {
            modifiers: KeyModifiers::control(),
            code: KeyCode::Char('c'),
        }
    );
}

#[test]
fn lookup_finds_first_matching_binding() {
    let config = KeybindingConfig {
        normal: vec![
            KeyBinding::new(KeySpec::Char('x'), TuiAction::Quit),
            KeyBinding::new(KeySpec::Char('x'), TuiAction::NavUp),
        ],
        chat: Vec::new(),
    };
    let event = key_event(KeyCode::Char('x'), KeyModifiers::none());
    assert_eq!(config.lookup("normal", &event), Some(TuiAction::Quit));
    assert_eq!(config.lookup("chat", &event), None);
}

#[test]
fn normalize_enter_variants() {
    let plain = key_event(KeyCode::Enter, KeyModifiers::none());
    assert_eq!(normalize_for_text_input(plain), InputAction::Submit);
    let shifted = key_event(KeyCode::Enter, KeyModifiers::shift());
    assert_eq!(normalize_for_text_input(shifted), InputAction::Newline);
    let ctrl_j = key_event(KeyCode::Char('j'), KeyModifiers::control());
    assert_eq!(normalize_for_text_input(ctrl_j), InputAction::Newline);
}

#[test]
fn normalize_text_and_raw() {
    let typed = key_event(KeyCode::Char('A'), KeyModifiers::shift());
    assert_eq!(normalize_for_text_input(typed), InputAction::Text('A'));
    let alt = key_event(KeyCode::Char('a'), KeyModifiers::alt());
    assert_eq!(normalize_for_text_input(alt), InputAction::Raw(alt));
    let esc = key_event(KeyCode::Esc, KeyModifiers::none());
    assert_eq!(normalize_for_text_input(esc), InputAction::Cancel);
}
