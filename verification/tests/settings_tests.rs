use clipvault::settings::{Setting, SettingsError, SettingsManager, DEFAULT_HOTKEY, HOTKEY_KEY};
use std::path::PathBuf;

fn setting(key: &str, value: &str) -> Setting {
    Setting { key: key.to_string(), value: value.to_string() }
}

#[test]
fn a_new_cache_is_empty() {
    let manager = SettingsManager::new(PathBuf::from("/tmp/settings.db"));
    assert_eq!(manager.get_setting("global_hotkey"), None);
    assert!(manager.get_all_settings().is_empty());
    assert_eq!(manager.db_path(), &PathBuf::from("/tmp/settings.db"));
}

#[test]
fn set_then_get_returns_the_value() {
    let mut manager = SettingsManager::new(PathBuf::new());
    assert_eq!(manager.set_setting("global_hotkey", "Alt+F9", Ok(())), Ok(()));
    assert_eq!(manager.get_setting("global_hotkey"), Some("Alt+F9".to_string()));
    assert_eq!(manager.get_global_hotkey(), "Alt+F9");
}

#[test]
fn last_write_wins() {
    let mut manager = SettingsManager::new(PathBuf::new());
    manager.set_setting("k", "one", Ok(())).unwrap();
    manager.set_setting("other", "x", Ok(())).unwrap();
    manager.set_setting("k", "two", Ok(())).unwrap();
    assert_eq!(manager.get_setting("k"), Some("two".to_string()));
    assert_eq!(manager.get_setting("other"), Some("x".to_string()));
    assert_eq!(manager.get_all_settings(), vec![setting("k", "two"), setting("other", "x")]);
}

#[test]
fn a_failed_write_leaves_the_cache_unchanged() {
    let mut manager = SettingsManager::new(PathBuf::new());
    manager.set_setting("global_hotkey", "Alt+F9", Ok(())).unwrap();
    let failed = manager.set_setting(
        "global_hotkey",
        "Alt+F10",
        Err(SettingsError::Database("disk full".to_string())),
    );
    assert_eq!(failed, Err(SettingsError::Database("disk full".to_string())));
    assert_eq!(manager.get_setting("global_hotkey"), Some("Alt+F9".to_string()));
}

#[test]
fn initialize_loads_rows_and_asks_for_the_default() {
    let mut manager = SettingsManager::new(PathBuf::new());
    manager.set_setting("stale", "x", Ok(())).unwrap();
    let missing = manager.initialize(Some(vec![setting("llm_api_key", "SECRET-REDACTED")]));
    assert_eq!(missing, vec![setting(HOTKEY_KEY, DEFAULT_HOTKEY)]);
    assert_eq!(manager.get_setting("stale"), None);
    assert_eq!(manager.get_setting("llm_api_key"), Some("SECRET-REDACTED".to_string()));
    assert_eq!(manager.get_setting(HOTKEY_KEY), None);
    assert_eq!(manager.get_global_hotkey(), "CommandOrControl+Shift+S");
}

#[test]
fn initialize_keeps_a_stored_hotkey() {
    let mut manager = SettingsManager::new(PathBuf::new());
    let missing = manager.initialize(Some(vec![
        setting("global_hotkey", "Alt+F1"),
        setting("global_hotkey", "Alt+F2"),
    ]));
    assert!(missing.is_empty());
    assert_eq!(manager.get_global_hotkey(), "Alt+F2");
}

#[test]
fn a_store_that_cannot_be_read_counts_as_empty() {
    let mut manager = SettingsManager::new(PathBuf::new());
    let missing = manager.initialize(None);
    assert_eq!(missing, vec![setting("global_hotkey", "CommandOrControl+Shift+S")]);
    assert!(manager.get_all_settings().is_empty());
}

#[test]
fn a_seeded_default_enters_the_cache_once_written() {
    let mut manager = SettingsManager::new(PathBuf::new());
    for seed in manager.initialize(None) {
        manager.set_setting(&seed.key, &seed.value, Ok(())).unwrap();
    }
    assert_eq!(manager.get_setting("global_hotkey"), Some(DEFAULT_HOTKEY.to_string()));
}
