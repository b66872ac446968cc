use dumbgram::theme::{Color, Theme};
use dumbgram::config::{
    default_session_file, expand_tilde_with_home, resolve_api_id, telegram_config_from_raw,
    ApiIdValue, RawTelegramConfig, TelegramConfig,
};
use dumbgram::paths::{
    app_config_dir, default_config_path, default_download_dir, platform_config_root, ConfigEnv,
    APP_CONFIG_DIR_NAME, CONFIG_FILE_NAME,
};
use dumbgram::preferences::{
    clamp_split_ratio, preferences_changed, state_path_for_config, AppPreferences, UiPreferences,
};
use dumbgram::state::{AppState, DEFAULT_SPLIT_RATIO, MAX_SPLIT_RATIO, MIN_SPLIT_RATIO};

/// Reads the `[telegram]` table of a test configuration the way the configuration file is
/// read: `api_id` as a number or a string, `session_file` or its older name `session_path`.
fn parse_test_config(config: &str) -> Result<TelegramConfig, String> {
    let table: toml::Table = toml::from_str(config).expect("test configuration should be TOML");
    let telegram = table["telegram"].as_table().expect("test configuration has [telegram]");
    let api_id = match &telegram["api_id"] {
        toml::Value::Integer(n) => ApiIdValue::Number(*n as i32),
        toml::Value::String(s) => ApiIdValue::Text(s.clone()),
        other => panic!("unexpected api_id {other:?}"),
    };
    let api_hash = telegram["api_hash"].as_str().unwrap().to_string();
    let session_file = telegram
        .get("session_file")
        .or_else(|| telegram.get("session_path"))
        .map(|v| v.as_str().unwrap().to_string());
    telegram_config_from_raw(RawTelegramConfig { api_id, api_hash, session_file })
}

#[test]
fn telegram_config_accepts_numeric_api_id_and_session_file() {
    let config = parse_test_config(
        r#"
        [telegram]
        api_id = 12345
        api_hash = "hash"
        session_file = "session.dat"
        "#,
    )
    .unwrap();

    assert_eq!(config.api_id, 12345);
    assert_eq!(config.api_hash, "hash");
    assert_eq!(config.session_file, "session.dat");
}

#[test]
fn telegram_config_defaults_session_file_when_omitted() {
    let config = parse_test_config(
        r#"
        [telegram]
        api_id = 12345
        api_hash = "hash"
        "#,
    )
    .unwrap();

    assert_eq!(config.session_file, default_session_file());
}

#[test]
fn telegram_config_accepts_string_api_id_and_session_path_alias() {
    let config = parse_test_config(
        r#"
        [telegram]
        api_id = "12345"
        api_hash = "hash"
        session_path = "legacy-session.dat"
        "#,
    )
    .unwrap();

    assert_eq!(config.api_id, 12345);
    assert_eq!(config.session_file, "legacy-session.dat");
}

#[test]
fn telegram_config_rejects_non_integer_api_id_string() {
    let error = parse_test_config(
        r#"
        [telegram]
        api_id = "not-a-number"
        api_hash = "hash"
        session_file = "session.dat"
        "#,
    )
    .expect_err("invalid api_id should fail");

    assert!(error.contains("telegram.api_id must be an integer"));
}

#[test]
fn api_id_strings_are_trimmed_and_range_checked() {
    assert_eq!(resolve_api_id(&ApiIdValue::Text(" -7 ".to_string())), Ok(-7));
    assert_eq!(resolve_api_id(&ApiIdValue::Text("+2147483647".to_string())), Ok(2147483647));
    assert!(resolve_api_id(&ApiIdValue::Text("2147483648".to_string())).is_err());
    assert!(resolve_api_id(&ApiIdValue::Text("".to_string())).is_err());
    assert_eq!(resolve_api_id(&ApiIdValue::Number(5)), Ok(5));
}

#[test]
fn session_path_resolves_relative_to_config_directory() {
    let config = TelegramConfig { api_id: 12345, api_hash: "hash".to_string(), session_file: "session.dat".to_string() };
    let home = Some("/home/alice".to_string());

    assert_eq!(
        config.session_path_for_config("/home/alice/.config/dumbgram/config.toml", &home),
        "/home/alice/.config/dumbgram/session.dat"
    );
    assert_eq!(config.session_path_for_config("config.toml", &home), "session.dat");
}

#[test]
fn session_path_keeps_absolute_and_home_relative_files() {
    let home = Some("/home/alice".to_string());
    let absolute = TelegramConfig { session_file: "/var/tg/session.dat".to_string(), ..TelegramConfig::default() };
    assert_eq!(absolute.session_path_for_config("/etc/dumbgram/config.toml", &home), "/var/tg/session.dat");
    let tilde = TelegramConfig { session_file: "~/tg.dat".to_string(), ..TelegramConfig::default() };
    assert_eq!(tilde.session_path_for_config("/etc/dumbgram/config.toml", &home), "/home/alice/tg.dat");
}

#[test]
fn session_path_expands_home_prefix() {
    let home = Some("/home/alice".to_string());

    assert_eq!(
        expand_tilde_with_home("~/.config/dumbgram/session.dat", &home),
        "/home/alice/.config/dumbgram/session.dat"
    );
    assert_eq!(expand_tilde_with_home("~", &home), "/home/alice");
    assert_eq!(expand_tilde_with_home("session.dat", &home), "session.dat");
    assert_eq!(
        expand_tilde_with_home("~/.config/dumbgram/session.dat", &None),
        "~/.config/dumbgram/session.dat"
    );
}

#[test]
fn default_telegram_config_has_no_credentials() {
    let config = TelegramConfig::default();
    assert_eq!(config.api_id, 0);
    assert!(config.api_hash.is_empty());
    assert_eq!(config.session_file, "session.dat");
}

#[test]
fn default_config_path_uses_shared_file_name() {
    let env = ConfigEnv { dumbgram_config_home: None, xdg_config_home: None, home: Some("/home/alice".to_string()) };
    let path = default_config_path(&env);
    assert_eq!(path.rsplit('/').next(), Some(CONFIG_FILE_NAME));
    assert!(path.split('/').any(|component| component == APP_CONFIG_DIR_NAME));
}

#[test]
fn config_directory_prefers_explicit_then_xdg_then_home() {
    let explicit = ConfigEnv {
        dumbgram_config_home: Some("/opt/dg".to_string()),
        xdg_config_home: Some("/xdg".to_string()),
        home: Some("/home/alice".to_string()),
    };
    assert_eq!(app_config_dir(&explicit), "/opt/dg");

    let xdg = ConfigEnv { dumbgram_config_home: Some(String::new()), ..explicit };
    assert_eq!(app_config_dir(&xdg), "/xdg/dumbgram");
    assert_eq!(platform_config_root(&xdg), Some("/xdg".to_string()));

    let home = ConfigEnv { dumbgram_config_home: None, xdg_config_home: None, home: Some("/home/alice".to_string()) };
    assert_eq!(app_config_dir(&home), "/home/alice/.config/dumbgram");

    let nothing = ConfigEnv { dumbgram_config_home: None, xdg_config_home: None, home: None };
    assert_eq!(platform_config_root(&nothing), None);
    assert_eq!(default_config_path(&nothing), "dumbgram/config.toml");
}

#[test]
fn downloads_go_under_home() {
    assert_eq!(default_download_dir(&Some("/home/alice".to_string())), "/home/alice/Downloads");
    assert_eq!(default_download_dir(&None), "Downloads");
}

#[test]
fn state_path_sits_next_to_config_path() {
    assert_eq!(state_path_for_config("config.toml"), "config.state.toml");
    assert_eq!(state_path_for_config("/tmp/dumbgram/config.toml"), "/tmp/dumbgram/config.state.toml");
}

#[test]
fn preferences_round_trip_ui_state() {
    let mut state = AppState::new();
    state.show_help_bar = false;
    state.split_ratio = 75;

    let preferences = AppPreferences::from_state(&state);
    let mut restored = AppState::new();
    preferences.apply_to_state(&mut restored);

    assert!(!restored.show_help_bar);
    assert_eq!(restored.split_ratio, 75);
}

#[test]
fn preferences_clamp_invalid_split_ratio() {
    let preferences = AppPreferences { ui: UiPreferences { show_help_bar: true, split_ratio: 500 } };
    let mut state = AppState::new();
    preferences.apply_to_state(&mut state);
    assert_eq!(state.split_ratio, MAX_SPLIT_RATIO);

    state.split_ratio = 4200;
    let preferences = AppPreferences::from_state(&state);
    assert_eq!(preferences.ui.split_ratio, MAX_SPLIT_RATIO);

    assert_eq!(clamp_split_ratio(0), MIN_SPLIT_RATIO);
    assert_eq!(clamp_split_ratio(55), 55);
}

#[test]
fn default_preferences_show_help_at_default_split() {
    let preferences = AppPreferences::default();
    assert!(preferences.ui.show_help_bar);
    assert_eq!(preferences.ui.split_ratio, DEFAULT_SPLIT_RATIO);
    assert_eq!(preferences.clamped(), preferences);
}

#[test]
fn app_preferences_are_saved_when_help_or_split_changes() {
    let mut state = AppState::new();
    let before = AppPreferences::from_state(&state);
    assert!(!preferences_changed(&before, &state));

    state.toggle_help_bar();
    state.adjust_split_right();
    assert!(preferences_changed(&before, &state));
    let saved = AppPreferences::from_state(&state);
    assert!(!saved.ui.show_help_bar);
    assert_eq!(saved.ui.split_ratio, state.split_ratio);
}

#[test]
fn evergreen_is_transparent_default_with_explicit_selection_contrast() {
    let theme = Theme::default();

    assert_eq!(theme.background, Color::Reset);
    assert_eq!(theme.foreground, Color::Reset);
    assert_eq!(theme.other_message, Color::Reset);
    assert_eq!(theme.selection, Color::Green);
    assert_eq!(theme.selection_foreground, Color::White);
    assert_eq!(theme.border_focused, Color::LightGreen);
}
