use clipse::hotkey::{
    code_by_name, format_key, load_hotkey_config, modifier_by_name, parse_key, parse_modifiers,
    Code, HotkeyConfig, Modifiers,
};

fn mods(control: bool, shift: bool, alt: bool, meta: bool) -> Modifiers {
    Modifiers { control, shift, alt, meta }
}

#[test]
fn modifiers_are_read_by_name() {
    assert_eq!(parse_modifiers("ctrl+shift"), Ok(mods(true, true, false, false)));
    assert_eq!(parse_modifiers("cmd+alt"), Ok(mods(false, false, true, true)));
    assert_eq!(parse_modifiers("control"), Ok(mods(true, false, false, false)));
    assert_eq!(parse_modifiers("option"), Ok(mods(false, false, true, false)));
    assert_eq!(parse_modifiers("super"), Ok(mods(false, false, false, true)));
    assert_eq!(parse_modifiers("win"), Ok(mods(false, false, false, true)));
    assert_eq!(parse_modifiers("command"), Ok(mods(false, false, false, true)));
    assert_eq!(parse_modifiers("shift+shift"), Ok(mods(false, true, false, false)));
}

#[test]
fn modifiers_are_read_in_any_case_and_with_white_space() {
    assert_eq!(parse_modifiers(" Ctrl + SHIFT "), Ok(mods(true, true, false, false)));
    assert_eq!(parse_modifiers("ALT"), Ok(mods(false, false, true, false)));
}

#[test]
fn unknown_modifier_is_refused_by_name() {
    assert_eq!(parse_modifiers("ctrl+hyper"), Err("Unknown modifier: hyper".to_string()));
    assert_eq!(parse_modifiers("Hyper+ctrl"), Err("Unknown modifier: hyper".to_string()));
    assert_eq!(parse_modifiers(""), Err("Unknown modifier: ".to_string()));
    assert_eq!(parse_modifiers("ctrl+"), Err("Unknown modifier: ".to_string()));
    assert_eq!(parse_modifiers("ctrl shift"), Err("Unknown modifier: ctrl shift".to_string()));
    assert_eq!(parse_modifiers("foo+bar"), Err("Unknown modifier: foo".to_string()));
}

#[test]
fn keys_are_read_by_name() {
    assert_eq!(parse_key("s"), Ok(Code::KeyS));
    assert_eq!(parse_key("A"), Ok(Code::KeyA));
    assert_eq!(parse_key(" z "), Ok(Code::KeyZ));
    assert_eq!(parse_key("0"), Ok(Code::Digit0));
    assert_eq!(parse_key("9"), Ok(Code::Digit9));
    assert_eq!(parse_key("space"), Ok(Code::Space));
    assert_eq!(parse_key("Enter"), Ok(Code::Enter));
    assert_eq!(parse_key("return"), Ok(Code::Enter));
    assert_eq!(parse_key("TAB"), Ok(Code::Tab));
    assert_eq!(parse_key("escape"), Ok(Code::Escape));
    assert_eq!(parse_key("esc"), Ok(Code::Escape));
}

#[test]
fn every_letter_and_digit_is_a_key() {
    for c in "abcdefghijklmnopqrstuvwxyz0123456789".chars() {
        let name = c.to_string();
        let code = parse_key(&name).expect("a key");
        assert_eq!(format_key(&code), name.to_uppercase());
        assert_eq!(code_by_name(&name), Some(code));
    }
}

#[test]
fn key_names_follow_the_case_mapping_of_the_text() {
    assert_eq!(parse_key("\u{212a}"), Ok(Code::KeyK));
    assert_eq!(code_by_name("\u{212a}"), None);
    assert_eq!(code_by_name("S"), None);
}

#[test]
fn unknown_key_is_refused_by_name() {
    assert_eq!(parse_key("F1"), Err("Unknown key: f1".to_string()));
    assert_eq!(parse_key(""), Err("Unknown key: ".to_string()));
    assert_eq!(parse_key("ss"), Err("Unknown key: ss".to_string()));
}

#[test]
fn names_are_looked_up_in_lower_case_only() {
    assert_eq!(modifier_by_name("ctrl"), Some(mods(true, false, false, false)));
    assert_eq!(modifier_by_name("Ctrl"), None);
    assert_eq!(modifier_by_name(""), None);
}

#[test]
fn keys_are_shown_by_their_labels() {
    assert_eq!(format_key(&Code::KeyS), "S");
    assert_eq!(format_key(&Code::Digit1), "1");
    assert_eq!(format_key(&Code::Space), "Space");
    assert_eq!(format_key(&Code::Enter), "Enter");
    assert_eq!(format_key(&Code::Tab), "Tab");
    assert_eq!(format_key(&Code::Escape), "Escape");
}

#[test]
fn default_shortcut_is_control_shift_s() {
    let config = HotkeyConfig::default();
    assert_eq!(config.modifiers, "ctrl+shift");
    assert_eq!(config.key, "s");
    assert_eq!(config.modifiers(), mods(true, true, false, false));
    assert_eq!(config.key(), Code::KeyS);
    assert_eq!(config.to_string(), "Ctrl + Shift + S");
}

#[test]
fn shortcut_is_made_from_two_texts() {
    let config = HotkeyConfig::from_strings("cmd+alt", "p").expect("a shortcut");
    assert_eq!(config.modifiers, "cmd+alt");
    assert_eq!(config.key, "p");
    assert_eq!(config.modifiers_parsed, Some(mods(false, false, true, true)));
    assert_eq!(config.key_parsed, Some(Code::KeyP));
    assert_eq!(config.to_string(), "Alt + Cmd/Super + P");
    let all = HotkeyConfig::from_strings("win+alt+shift+ctrl", "esc").expect("a shortcut");
    assert_eq!(all.to_string(), "Ctrl + Shift + Alt + Cmd/Super + Escape");
}

#[test]
fn shortcut_from_bad_texts_is_refused() {
    assert_eq!(HotkeyConfig::from_strings("hyper", "p").err(), Some("Unknown modifier: hyper".to_string()));
    assert_eq!(HotkeyConfig::from_strings("ctrl", "f13").err(), Some("Unknown key: f13".to_string()));
    assert_eq!(HotkeyConfig::from_strings("hyper", "f13").err(), Some("Unknown modifier: hyper".to_string()));
}

#[test]
fn unread_shortcut_is_read_in_place() {
    let mut config = HotkeyConfig {
        modifiers: "ctrl+alt".to_string(),
        key: "x".to_string(),
        modifiers_parsed: None,
        key_parsed: None,
    };
    assert_eq!(config.to_string(), "ctrl+alt + x");
    assert_eq!(config.modifiers(), mods(true, true, false, false));
    assert_eq!(config.key(), Code::KeyS);
    assert_eq!(config.parse(), Ok(()));
    assert_eq!(config.modifiers(), mods(true, false, true, false));
    assert_eq!(config.key(), Code::KeyX);
    assert_eq!(config.to_string(), "Ctrl + Alt + X");
}

#[test]
fn reading_stops_at_the_first_bad_text() {
    let mut config = HotkeyConfig {
        modifiers: "ctrl".to_string(),
        key: "nokey".to_string(),
        modifiers_parsed: None,
        key_parsed: None,
    };
    assert_eq!(config.parse(), Err("Unknown key: nokey".to_string()));
    assert_eq!(config.modifiers_parsed, Some(mods(true, false, false, false)));
    assert_eq!(config.key_parsed, None);
    let mut bad = HotkeyConfig {
        modifiers: "nomod".to_string(),
        key: "s".to_string(),
        modifiers_parsed: None,
        key_parsed: Some(Code::KeyA),
    };
    assert_eq!(bad.parse(), Err("Unknown modifier: nomod".to_string()));
    assert_eq!(bad.modifiers_parsed, None);
    assert_eq!(bad.key_parsed, Some(Code::KeyA));
}

#[test]
fn shortcut_without_modifiers_is_shown_behind_a_plus() {
    let config = HotkeyConfig {
        modifiers: String::new(),
        key: "s".to_string(),
        modifiers_parsed: Some(mods(false, false, false, false)),
        key_parsed: Some(Code::KeyS),
    };
    assert_eq!(config.to_string(), " + S");
}

fn stored(modifiers: &str, key: &str) -> Option<HotkeyConfig> {
    Some(HotkeyConfig {
        modifiers: modifiers.to_string(),
        key: key.to_string(),
        modifiers_parsed: None,
        key_parsed: None,
    })
}

#[test]
fn stored_shortcut_is_read_or_replaced_by_the_standard_one() {
    let read = load_hotkey_config(stored("cmd + alt", "P"));
    assert_eq!(read.modifiers, "cmd + alt");
    assert_eq!(read.key, "P");
    assert_eq!(read.modifiers(), mods(false, false, true, true));
    assert_eq!(read.key(), Code::KeyP);
    for bad in [stored("hyper", "p"), stored("ctrl", "f1"), stored("", ""), None] {
        let config = load_hotkey_config(bad);
        assert_eq!(config.modifiers, "ctrl+shift");
        assert_eq!(config.key, "s");
        assert_eq!(config.modifiers_parsed, Some(mods(true, true, false, false)));
        assert_eq!(config.key_parsed, Some(Code::KeyS));
    }
}
