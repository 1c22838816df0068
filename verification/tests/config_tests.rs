use big_screen_launcher::config::{
    parse_config, serialize_config, AppConfig, BackgroundHomeWakeMode, HomeGameLimit,
};
use big_screen_launcher::display_mode::DisplayModeSetting;

#[test]
fn parse_config_reads_display_mode_setting() {
    let config = parse_config("[ui]\ndisplay_mode=windowed\n");

    assert_eq!(config.display_mode_setting, DisplayModeSetting::Windowed);
}

#[test]
fn serialize_config_writes_display_mode_setting() {
    let mut config = AppConfig::default();
    config.display_mode_setting = DisplayModeSetting::Windowed;

    let contents = serialize_config(config);

    assert!(contents.contains("display_mode=windowed"));
}

#[test]
fn parse_config_defaults_idle_frame_rate_reduction_to_enabled() {
    let config = parse_config("[ui]\ndisplay_mode=fullscreen\n");

    assert!(config.idle_frame_rate_reduction_enabled);
}

#[test]
fn serialize_config_writes_idle_frame_rate_reduction_setting() {
    let mut config = AppConfig::default();
    config.idle_frame_rate_reduction_enabled = false;

    let contents = serialize_config(config);

    assert!(contents.contains("idle_frame_rate_reduction_enabled=false"));
}

#[test]
fn parse_config_maps_legacy_true_home_wake_value_to_short_press() {
    let config = parse_config("[ui]\nbackground_home_wake_enabled=true\n");

    assert_eq!(
        config.background_home_wake_mode,
        BackgroundHomeWakeMode::ShortPress
    );
}

#[test]
fn serialize_config_writes_home_wake_mode_value() {
    let mut config = AppConfig::default();
    config.background_home_wake_mode = BackgroundHomeWakeMode::LongPress;

    let contents = serialize_config(config);

    assert!(contents.contains("background_home_wake_enabled=long_press"));
}

#[test]
fn serialized_config_reads_back_unchanged() {
    let mut config = AppConfig::default();
    config.display_mode_setting = DisplayModeSetting::Windowed;
    config.home_game_limit = HomeGameLimit::Limited(12);
    config.controller_vibration_enabled = false;
    config.background_home_wake_mode = BackgroundHomeWakeMode::LongPress;
    let contents = serialize_config(config.clone());
    assert_eq!(parse_config(&contents), config);
}

#[test]
fn home_game_limit_out_of_range_falls_back_to_default() {
    let config = parse_config("[ui]\nhome_game_limit=99\n");
    assert_eq!(config.home_game_limit, HomeGameLimit::Limited(9));
    let config = parse_config("[ui]\nhome_game_limit=12\n");
    assert_eq!(config.home_game_limit, HomeGameLimit::Limited(12));
    let config = parse_config("[ui]\nhome_game_limit=unlimited\n");
    assert_eq!(config.home_game_limit, HomeGameLimit::Unlimited);
}
