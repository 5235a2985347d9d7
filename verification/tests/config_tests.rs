use directshare::app::DirectShare;
use directshare::config::load_config_decision;
use directshare::config::ConfigLoadOutcome;
use directshare::config::DirectShareConfig;

#[test]
fn default_config_values() {
    let config = DirectShareConfig::default();
    assert_eq!(config.port, 1024);
    assert_eq!(config.key_length, 8);
    assert_eq!(config.default_file, None);
}

#[test]
fn loaded_config_is_kept_and_not_rewritten() {
    let loaded = DirectShareConfig { port: 8080, key_length: 21, default_file: Some("index.html".to_string()) };
    let (config, write_default) = load_config_decision(ConfigLoadOutcome::Loaded(loaded));
    assert_eq!(config.port, 8080);
    assert_eq!(config.key_length, 21);
    assert_eq!(config.default_file, Some("index.html".to_string()));
    assert!(!write_default);
}

#[test]
fn missing_config_falls_back_and_writes_the_default() {
    let (config, write_default) =
        load_config_decision(ConfigLoadOutcome::Unreadable { not_found: true });
    assert_eq!(config.port, 1024);
    assert_eq!(config.key_length, 8);
    assert_eq!(config.default_file, None);
    assert!(write_default);
}

#[test]
fn unreadable_config_falls_back_without_writing() {
    let (config, write_default) =
        load_config_decision(ConfigLoadOutcome::Unreadable { not_found: false });
    assert_eq!(config.port, 1024);
    assert!(!write_default);
}

#[test]
fn invalid_config_falls_back_without_writing() {
    let (config, write_default) = load_config_decision(ConfigLoadOutcome::Invalid);
    assert_eq!(config.port, 1024);
    assert_eq!(config.key_length, 8);
    assert!(!write_default);
}

#[test]
fn direct_share_registers_and_resolves() {
    let mut app = DirectShare::new(10);
    let key = app.register("movies/clip.mp4".to_string());
    assert_eq!(key.chars().count(), 10);
    assert_eq!(app.path_map().get(&key), Some(&"movies/clip.mp4".to_string()));
    assert_eq!(app.path_map().get("other"), None);
}
