use clipvault::hotkey::{
    key_code_for, parse_hotkey_string, parse_key_code, parse_modifier, test_global_hotkey,
    update_global_shortcut, HotkeyBinding, InvalidHotkeySpec, KeyCode, Modifier, Modifiers,
    Platform, RegistryAction,
};

fn mods(meta: bool, shift: bool, alt: bool, control: bool) -> Modifiers {
    Modifiers { meta, shift, alt, control }
}

#[test]
fn default_accelerator_on_macos_uses_meta() {
    let parsed = parse_hotkey_string("CommandOrControl+Shift+S", Platform::MacOs);
    assert_eq!(
        parsed,
        Ok(HotkeyBinding { modifiers: mods(true, true, false, false), key: KeyCode::KeyS })
    );
}

#[test]
fn default_accelerator_elsewhere_uses_control() {
    let parsed = parse_hotkey_string("CommandOrControl+Shift+S", Platform::Other);
    assert_eq!(
        parsed,
        Ok(HotkeyBinding { modifiers: mods(false, true, false, true), key: KeyCode::KeyS })
    );
}

#[test]
fn alt_f9_parses() {
    let parsed = parse_hotkey_string("Alt+F9", Platform::Other);
    assert_eq!(
        parsed,
        Ok(HotkeyBinding { modifiers: mods(false, false, true, false), key: KeyCode::F9 })
    );
}

#[test]
fn key_names_ignore_case() {
    let lower = parse_hotkey_string("Control+s", Platform::Other);
    let upper = parse_hotkey_string("Control+S", Platform::Other);
    assert_eq!(lower, upper);
    assert_eq!(
        lower,
        Ok(HotkeyBinding { modifiers: mods(false, false, false, true), key: KeyCode::KeyS })
    );
    assert_eq!(parse_key_code("escape"), Ok(KeyCode::Escape));
    assert_eq!(parse_key_code("Space"), Ok(KeyCode::Space));
    assert_eq!(parse_key_code("eNtEr"), Ok(KeyCode::Enter));
    assert_eq!(parse_key_code("f12"), Ok(KeyCode::F12));
}

#[test]
fn tokens_are_trimmed() {
    let parsed = parse_hotkey_string("  Shift +\tAlt + 7 ", Platform::Other);
    assert_eq!(
        parsed,
        Ok(HotkeyBinding { modifiers: mods(false, true, true, false), key: KeyCode::Digit7 })
    );
}

#[test]
fn repeated_modifier_changes_nothing() {
    let once = parse_hotkey_string("Shift+A", Platform::Other);
    let twice = parse_hotkey_string("Shift+Shift+A", Platform::Other);
    assert_eq!(once, twice);
    assert!(once.is_ok());
}

#[test]
fn meta_has_three_names() {
    for name in ["Meta", "Cmd", "Command"] {
        assert_eq!(parse_modifier(name, Platform::Other), Some(Modifier::Meta));
    }
    assert_eq!(parse_modifier("Control", Platform::MacOs), Some(Modifier::Control));
    assert_eq!(parse_modifier("Alt", Platform::MacOs), Some(Modifier::Alt));
    assert_eq!(parse_modifier("Shift", Platform::MacOs), Some(Modifier::Shift));
    assert_eq!(parse_modifier("shift", Platform::MacOs), None);
}

#[test]
fn a_key_alone_is_a_binding() {
    assert_eq!(
        parse_hotkey_string("Q", Platform::Other),
        Ok(HotkeyBinding { modifiers: mods(false, false, false, false), key: KeyCode::KeyQ })
    );
}

#[test]
fn modifiers_alone_have_no_key() {
    assert_eq!(parse_hotkey_string("Shift+Alt", Platform::Other), Err(InvalidHotkeySpec::NoKey));
}

#[test]
fn two_keys_are_rejected() {
    assert_eq!(
        parse_hotkey_string("Shift+A+B", Platform::Other),
        Err(InvalidHotkeySpec::SeveralKeys)
    );
}

#[test]
fn unknown_tokens_are_rejected() {
    assert_eq!(
        parse_hotkey_string("Ctrl+S", Platform::Other),
        Err(InvalidHotkeySpec::UnknownToken)
    );
    assert_eq!(parse_hotkey_string("", Platform::Other), Err(InvalidHotkeySpec::UnknownToken));
    assert_eq!(
        parse_hotkey_string("Shift+", Platform::Other),
        Err(InvalidHotkeySpec::UnknownToken)
    );
    assert_eq!(
        parse_hotkey_string("Shift+F13", Platform::Other),
        Err(InvalidHotkeySpec::UnknownToken)
    );
    assert_eq!(
        parse_hotkey_string("A+B+Nope", Platform::Other),
        Err(InvalidHotkeySpec::UnknownToken)
    );
}

#[test]
fn key_table_covers_letters_digits_and_function_keys() {
    assert_eq!(key_code_for("A"), Some(KeyCode::KeyA));
    assert_eq!(key_code_for("Z"), Some(KeyCode::KeyZ));
    assert_eq!(key_code_for("0"), Some(KeyCode::Digit0));
    assert_eq!(key_code_for("9"), Some(KeyCode::Digit9));
    assert_eq!(key_code_for("F1"), Some(KeyCode::F1));
    assert_eq!(key_code_for("F10"), Some(KeyCode::F10));
    assert_eq!(key_code_for("SPACE"), Some(KeyCode::Space));
    assert_eq!(key_code_for("ENTER"), Some(KeyCode::Enter));
    assert_eq!(key_code_for("ESCAPE"), Some(KeyCode::Escape));
    assert_eq!(key_code_for("a"), None);
    assert_eq!(key_code_for("TAB"), None);
}

#[test]
fn lower_case_key_needs_upper_casing() {
    assert_eq!(key_code_for("s"), None);
    assert_eq!(parse_key_code("s"), Ok(KeyCode::KeyS));
    assert_eq!(parse_key_code("tab"), Err(InvalidHotkeySpec::UnknownToken));
}

#[test]
fn checking_a_hotkey_agrees_with_parsing() {
    assert_eq!(test_global_hotkey("Alt+F9", Platform::MacOs), Ok(()));
    assert_eq!(test_global_hotkey("Alt", Platform::MacOs), Err(InvalidHotkeySpec::NoKey));
    assert_eq!(
        test_global_hotkey("Alt+F9+F8", Platform::MacOs),
        Err(InvalidHotkeySpec::SeveralKeys)
    );
    assert_eq!(
        test_global_hotkey("Alt+Bogus", Platform::MacOs),
        Err(InvalidHotkeySpec::UnknownToken)
    );
}

#[test]
fn a_new_binding_replaces_the_old_one() {
    let steps = update_global_shortcut("Alt+F9", Platform::Other).unwrap();
    assert_eq!(
        steps,
        vec![
            RegistryAction::UnregisterAll,
            RegistryAction::Register(HotkeyBinding {
                modifiers: mods(false, false, true, false),
                key: KeyCode::F9,
            }),
        ]
    );
}

#[test]
fn a_bad_accelerator_leaves_the_registry_alone() {
    assert_eq!(
        update_global_shortcut("Alt+F9+F10", Platform::Other),
        Err(InvalidHotkeySpec::SeveralKeys)
    );
    assert_eq!(update_global_shortcut("Alt", Platform::Other), Err(InvalidHotkeySpec::NoKey));
}
