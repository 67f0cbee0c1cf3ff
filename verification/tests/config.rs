use winshaper::config::{
    load_config, save_config, ModuleConfig, SaveOutcome, StoredConfig, UiConfig, WinShaperConfig,
};
use winshaper::settings::{SettingValue, Settings};

fn text(s: &str) -> SettingValue {
    SettingValue::Text(s.to_string())
}

fn check_defaults(config: &WinShaperConfig) {
    let modules = &config.modules;
    for module in [
        &modules.dynamic_split,
        &modules.taskbar_customizer,
        &modules.mouse_action_mapper,
        &modules.process_controller,
        &modules.clipboard_history,
    ] {
        assert!(!module.enabled);
    }
    assert_eq!(
        modules.dynamic_split.settings.entries(),
        &vec![("layouts".to_string(), SettingValue::List(vec![text("60-40"), text("50-50")]))]
    );
    assert_eq!(
        modules.taskbar_customizer.settings.entries(),
        &vec![
            ("theme".to_string(), text("dark")),
            ("opacity".to_string(), SettingValue::Unsigned(100))
        ]
    );
    assert_eq!(
        modules.mouse_action_mapper.settings.entries(),
        &vec![("sensitivity".to_string(), SettingValue::Unsigned(50))]
    );
    assert_eq!(
        modules.process_controller.settings.entries(),
        &vec![
            ("threshold_cpu".to_string(), SettingValue::Unsigned(80)),
            ("threshold_ram".to_string(), SettingValue::Unsigned(1024))
        ]
    );
    assert_eq!(
        modules.clipboard_history.settings.entries(),
        &vec![
            ("max_items".to_string(), SettingValue::Unsigned(200)),
            ("expiry_days".to_string(), SettingValue::Unsigned(30))
        ]
    );
    assert_eq!(config.ui, UiConfig { theme: "dark".to_string(), start_minimized: true });
}

#[test]
fn the_default_configuration() {
    check_defaults(&WinShaperConfig::default());
}

#[test]
fn without_a_usable_stored_configuration_the_default_is_taken() {
    check_defaults(&load_config(StoredConfig::Absent).unwrap());
    check_defaults(&load_config(StoredConfig::Unreadable).unwrap());
}

#[test]
fn a_stored_configuration_is_taken_as_it_is() {
    let mut stored = WinShaperConfig::default();
    stored.ui.theme = "light".to_string();
    stored.ui.start_minimized = false;
    let mut settings = Settings::new();
    settings.insert("max_items".to_string(), SettingValue::Unsigned(5));
    stored.modules.clipboard_history = ModuleConfig { enabled: true, settings };
    let loaded = load_config(StoredConfig::Loaded(stored)).unwrap();
    assert_eq!(loaded.ui, UiConfig { theme: "light".to_string(), start_minimized: false });
    assert!(loaded.modules.clipboard_history.enabled);
    assert_eq!(
        loaded.modules.clipboard_history.settings.entries(),
        &vec![("max_items".to_string(), SettingValue::Unsigned(5))]
    );
    assert!(!loaded.modules.process_controller.enabled);
}

#[test]
fn without_a_place_to_keep_it_loading_fails() {
    let r = load_config(StoredConfig::NoLocation("Could not find app data directory".to_string()));
    assert_eq!(
        r.unwrap_err(),
        "Failed to get config path: Could not find app data directory"
    );
}

#[test]
fn saving_reports_what_went_wrong() {
    assert_eq!(save_config(SaveOutcome::Saved), Ok(()));
    assert_eq!(
        save_config(SaveOutcome::NoLocation("no home".to_string())),
        Err("Failed to get config path: no home".to_string())
    );
    assert_eq!(
        save_config(SaveOutcome::NotSerialized("key must be a string".to_string())),
        Err("Failed to serialize config: key must be a string".to_string())
    );
    assert_eq!(
        save_config(SaveOutcome::NotWritten("disk full".to_string())),
        Err("Failed to write config file: disk full".to_string())
    );
}
