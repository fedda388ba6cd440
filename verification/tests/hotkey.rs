use global_hotkey::hotkey::Code;
use orttaai_core::hotkey::{
    combo_to_trigger, format_combo, key_to_code, normalize_key_name, ShortcutToggle, ToggleAction,
};
use orttaai_core::types::{HotkeyCombo, Modifier};

#[test]
fn maps_common_keys() {
    assert_eq!(key_to_code("space").unwrap(), Code::Space);
    assert_eq!(key_to_code("Space").unwrap(), Code::Space);
    assert_eq!(key_to_code("a").unwrap(), Code::KeyA);
    assert_eq!(key_to_code("Z").unwrap(), Code::KeyZ);
    assert_eq!(key_to_code("1").unwrap(), Code::Digit1);
    assert_eq!(key_to_code("f5").unwrap(), Code::F5);
    assert!(key_to_code("definitely-not-a-key").is_err());
}

#[test]
fn unknown_key_error_names_the_key() {
    match key_to_code("nope") {
        Err(e) => assert_eq!(e.message(), "hotkey registration failed: unsupported hotkey key: nope"),
        Ok(_) => panic!("expected an error"),
    }
}

#[test]
fn key_names_normalize_to_code_names() {
    assert_eq!(normalize_key_name("a"), "KeyA");
    assert_eq!(normalize_key_name("Q"), "KeyQ");
    assert_eq!(normalize_key_name("7"), "Digit7");
    assert_eq!(normalize_key_name("space"), "Space");
    assert_eq!(normalize_key_name("f12"), "F12");
    assert_eq!(normalize_key_name("-"), "-");
    assert_eq!(normalize_key_name(""), "");
    assert_eq!(normalize_key_name("éclair"), "éclair");
}

#[test]
fn parse_reads_modifiers_and_key() {
    let c = HotkeyCombo::parse("Ctrl+Shift+Space");
    assert_eq!(c.key, "Space");
    assert_eq!(c.modifiers, vec![Modifier::Ctrl, Modifier::Shift]);

    let c = HotkeyCombo::parse(" control + OPTION + cmd + k ");
    assert_eq!(c.key, "k");
    assert_eq!(c.modifiers, vec![Modifier::Ctrl, Modifier::Alt, Modifier::Meta]);

    let c = HotkeyCombo::parse("super+win+Command+Meta+alt+shift");
    assert_eq!(c.key, "Space");
    assert_eq!(
        c.modifiers,
        vec![Modifier::Meta, Modifier::Meta, Modifier::Meta, Modifier::Meta, Modifier::Alt, Modifier::Shift]
    );
}

#[test]
fn parse_skips_empty_pieces_and_keeps_last_key() {
    let c = HotkeyCombo::parse("");
    assert_eq!(c.key, "Space");
    assert!(c.modifiers.is_empty());

    let c = HotkeyCombo::parse("a++ +b");
    assert_eq!(c.key, "b");
    assert!(c.modifiers.is_empty());
}

#[test]
fn default_combo_is_ctrl_shift_space() {
    let c = HotkeyCombo::default();
    assert_eq!(c.key, "Space");
    assert_eq!(c.modifiers, vec![Modifier::Ctrl, Modifier::Shift]);
}

#[test]
fn format_then_parse_round_trips() {
    let c = HotkeyCombo { key: "F9".to_string(), modifiers: vec![Modifier::Alt, Modifier::Meta] };
    let written = format_combo(&c);
    assert_eq!(written, "Alt+Meta+F9");
    assert_eq!(HotkeyCombo::parse(&written), c);
    assert_eq!(format_combo(&HotkeyCombo::default()), "Ctrl+Shift+Space");
    let bare = HotkeyCombo { key: "x".to_string(), modifiers: vec![] };
    assert_eq!(format_combo(&bare), "x");
}

#[test]
fn trigger_uses_xdg_names_and_lowercase_key() {
    assert_eq!(combo_to_trigger(&HotkeyCombo::default()), "CTRL+SHIFT+space");
    let c = HotkeyCombo { key: "F5".to_string(), modifiers: vec![Modifier::Meta, Modifier::Alt] };
    assert_eq!(combo_to_trigger(&c), "LOGO+ALT+f5");
}

#[test]
fn toggle_alternates_and_debounces() {
    let mut t = ShortcutToggle::new();
    assert_eq!(t.on_activated(1_000), Some(ToggleAction::Down));
    assert!(t.active);
    // Repeats of a held key within the window are absorbed, the window sliding.
    assert_eq!(t.on_activated(1_500), None);
    assert_eq!(t.on_activated(2_100), None);
    assert_eq!(t.on_activated(2_800), None);
    // A fresh press after more than 700 ms.
    assert_eq!(t.on_activated(3_501), Some(ToggleAction::Up));
    assert!(!t.active);
    assert_eq!(t.on_activated(4_202), Some(ToggleAction::Down));
    assert_eq!(t.last_activated, Some(4_202));
}

#[test]
fn toggle_window_boundary_is_exclusive() {
    let mut t = ShortcutToggle::new();
    assert_eq!(t.on_activated(0), Some(ToggleAction::Down));
    assert_eq!(t.on_activated(700), None);
    assert_eq!(t.on_activated(1_401), Some(ToggleAction::Up));
}
