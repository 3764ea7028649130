use pal::modes::Mode;
use pal::paths::{config_dir_from, config_path_from, get_config_path};
use pal::settings::{Settings, settings_or_default};
use pal::text::greet;

#[test]
fn absent_settings_load_as_defaults() {
    let s = settings_or_default(None);
    assert_eq!(s.pal_name, "Pal");
    assert_eq!(s.owner_name, "");
    assert!(s.sounds_enabled);
    assert!(s.notifications_enabled);
    assert_eq!(s.default_mode, Mode::Full);
    assert_eq!(s.api_key, "");
}

#[test]
fn loaded_settings_pass_through_untouched() {
    let s = Settings {
        pal_name: "Robo".to_string(),
        owner_name: "Alice".to_string(),
        sounds_enabled: false,
        notifications_enabled: false,
        default_mode: Mode::Floating,
        api_key: "SECRET-REDACTED".to_string(),
    };
    let out = settings_or_default(Some(s.clone()));
    assert_eq!(out.pal_name, s.pal_name);
    assert_eq!(out.owner_name, s.owner_name);
    assert_eq!(out.sounds_enabled, s.sounds_enabled);
    assert_eq!(out.notifications_enabled, s.notifications_enabled);
    assert_eq!(out.default_mode, s.default_mode);
    assert_eq!(out.api_key, s.api_key);
}

#[test]
fn default_settings_match_the_constructor() {
    let d = Settings::default();
    assert_eq!(d.pal_name, "Pal");
    assert_eq!(d.default_mode, Mode::Full);
}

#[test]
fn config_dir_joins_base_and_app_dir() {
    assert_eq!(config_dir_from(Some("/home/alice/.config".to_string())), "/home/alice/.config/Pal");
    assert_eq!(config_dir_from(None), "./Pal");
}

#[test]
fn config_path_names_the_settings_file() {
    assert_eq!(
        config_path_from(Some("/home/alice/.config".to_string())),
        "/home/alice/.config/Pal/settings.json"
    );
    assert_eq!(config_path_from(None), "./Pal/settings.json");
}

#[test]
fn machine_config_path_ends_with_the_settings_file() {
    let p = get_config_path();
    assert!(p.ends_with("/Pal/settings.json"));
}

#[test]
fn greeting_names_the_guest() {
    assert_eq!(greet("Pal"), "Hello, Pal! You've been greeted from Rust!");
}
