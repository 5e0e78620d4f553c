use flux_turn_taking::config::{
    apply_env_overrides, config_path_display, parse_bool_env, parse_u32, truthy, AppConfig,
    ExperimentalFlags,
};

#[test]
fn default_flags_are_disabled() {
    let flags = ExperimentalFlags::default();
    assert!(!flags.streaming_playback);
    assert!(!flags.ssml_support);
}

#[test]
fn parse_bool_env_handles_variants() {
    assert!(parse_bool_env("true"));
    assert!(parse_bool_env("True"));
    assert!(parse_bool_env("1"));
    assert!(parse_bool_env("yes"));
    assert!(!parse_bool_env("false"));
    assert!(!parse_bool_env("0"));
    assert!(!parse_bool_env("no"));
    assert!(!parse_bool_env(""));
}

#[test]
fn parse_bool_env_lowercases_before_matching() {
    assert!(parse_bool_env("YES"));
    assert!(parse_bool_env("tRuE"));
    assert!(!truthy("YES"));
    assert!(truthy("yes"));
}

#[test]
fn parse_u32_reads_decimal_numbers() {
    assert_eq!(parse_u32("22050"), Some(22050));
    assert_eq!(parse_u32("+7"), Some(7));
    assert_eq!(parse_u32("0"), Some(0));
    assert_eq!(parse_u32("4294967295"), Some(u32::MAX));
    assert_eq!(parse_u32("4294967296"), None);
    assert_eq!(parse_u32(""), None);
    assert_eq!(parse_u32("+"), None);
    assert_eq!(parse_u32("-1"), None);
    assert_eq!(parse_u32("12a"), None);
    assert_eq!(parse_u32(" 12"), None);
}

#[test]
fn env_overrides_replace_only_what_is_set() {
    let mut config = AppConfig::default();
    config.audio.sample_rate = Some(16000);
    apply_env_overrides(&mut config, Some("linear16".to_string()), Some("abc"), Some("Yes"), None);
    assert_eq!(config.audio.format.as_deref(), Some("linear16"));
    assert_eq!(config.audio.sample_rate, Some(16000));
    assert!(config.experimental.streaming_playback);
    assert!(!config.experimental.ssml_support);

    apply_env_overrides(&mut config, None, Some("24000"), Some("off"), Some("1"));
    assert_eq!(config.audio.format.as_deref(), Some("linear16"));
    assert_eq!(config.audio.sample_rate, Some(24000));
    assert!(!config.experimental.streaming_playback);
    assert!(config.experimental.ssml_support);
}

#[test]
fn config_path_joins_home_directory() {
    assert_eq!(config_path_display(Some("/home/ana")), "/home/ana/.config/tts-tui.toml");
    assert_eq!(config_path_display(Some("/home/ana/")), "/home/ana/.config/tts-tui.toml");
    assert_eq!(config_path_display(Some("")), ".config/tts-tui.toml");
    assert_eq!(config_path_display(None), "~/.config/tts-tui.toml");
}
