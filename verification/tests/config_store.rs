use clipboard_formatter::config::{
    join_path, AppConfig, AppSettings, ConfigError, ConfigManager, LoadAttempt, ReloadFailure,
    ReloadNotice, CONFIG_DIR_NAME, CONFIG_FILE_NAME, PATH_SEPARATOR,
};
use clipboard_formatter::text::{format_text, ReplacementRule};

fn settings() -> AppSettings {
    AppSettings { clipboard_poll_interval: 500, config_reload_interval: 2000 }
}

fn config_with(pairs: &[(&str, &str)], exclusions: &[char]) -> AppConfig {
    AppConfig {
        app: settings(),
        replacements: pairs
            .iter()
            .map(|(from, to)| ReplacementRule::new(from.to_string(), to.to_string()))
            .collect(),
        exclusions: exclusions.to_vec(),
    }
}

fn rules_of(config: &AppConfig) -> Vec<(String, String)> {
    config.replacements.iter().map(|r| (r.original.clone(), r.replacement.clone())).collect()
}

fn pairs(list: &[(&str, &str)]) -> Vec<(String, String)> {
    list.iter().map(|(a, b)| (a.to_string(), b.to_string())).collect()
}

fn store(text: &str, config: AppConfig) -> ConfigManager {
    ConfigManager::new("/etc/clipboard-formatter/config.toml".to_string(), text, LoadAttempt::Parsed(config))
        .unwrap()
}

#[test]
fn the_names_of_the_configuration_file() {
    assert_eq!(CONFIG_DIR_NAME, "clipboard-formatter");
    assert_eq!(CONFIG_FILE_NAME, "config.toml");
    assert_eq!(PATH_SEPARATOR, '/');
}

#[test]
fn a_path_is_joined_with_one_separator() {
    assert_eq!(join_path("/home/u/.config", "app"), "/home/u/.config/app");
    assert_eq!(join_path("/home/u/.config/", "app"), "/home/u/.config/app");
    assert_eq!(join_path("", "app"), "app");
    assert_eq!(join_path("/", "app"), "/app");
    assert_eq!(join_path("設定", "app"), "設定/app");
}

#[test]
fn the_environment_names_the_configuration_directory_first() {
    let path = ConfigManager::get_config_path_static(
        Some("/tmp/xdg".to_string()),
        Some("/home/u/.config".to_string()),
    );
    assert_eq!(path, Ok("/tmp/xdg/clipboard-formatter/config.toml".to_string()));
}

#[test]
fn the_platform_names_the_configuration_directory_otherwise() {
    let path = ConfigManager::get_config_path_static(None, Some("/home/u/.config".to_string()));
    assert_eq!(path, Ok("/home/u/.config/clipboard-formatter/config.toml".to_string()));
}

#[test]
fn without_a_configuration_directory_there_is_no_path() {
    assert_eq!(ConfigManager::get_config_path_static(None, None), Err(ConfigError::NoConfigDir));
}

#[test]
fn a_valid_configuration_loads() {
    let loaded =
        ConfigManager::load_config(LoadAttempt::Parsed(config_with(&[("foo", "bar")], &['！'])))
            .unwrap();
    assert_eq!(rules_of(&loaded), pairs(&[("foo", "bar")]));
    assert_eq!(loaded.exclusions, vec!['！']);
    assert_eq!(loaded.exclusion_list(), &['！']);
    assert_eq!(loaded.app, settings());
}

#[test]
fn a_configuration_without_rules_loads() {
    let loaded = ConfigManager::load_config(LoadAttempt::Parsed(config_with(&[], &[]))).unwrap();
    assert!(loaded.replacements.is_empty());
    assert!(loaded.exclusion_list().is_empty());
}

#[test]
fn an_empty_original_is_rejected_with_its_index() {
    let attempt = LoadAttempt::Parsed(config_with(&[("foo", "bar"), ("", "x"), ("", "y")], &[]));
    assert_eq!(ConfigManager::load_config(attempt).err(), Some(ConfigError::EmptyOriginal(1)));
    let attempt = LoadAttempt::Parsed(config_with(&[("", "x")], &[]));
    assert_eq!(ConfigManager::load_config(attempt).err(), Some(ConfigError::EmptyOriginal(0)));
}

#[test]
fn an_empty_replacement_is_accepted() {
    let attempt = LoadAttempt::Parsed(config_with(&[("foo", "")], &[]));
    assert!(ConfigManager::load_config(attempt).is_ok());
}

#[test]
fn what_could_not_be_read_or_parsed_does_not_load() {
    assert_eq!(ConfigManager::load_config(LoadAttempt::Unreadable).err(), Some(ConfigError::Unreadable));
    assert_eq!(ConfigManager::load_config(LoadAttempt::Malformed).err(), Some(ConfigError::Malformed));
}

#[test]
fn the_words_of_each_configuration_failure() {
    assert_eq!(ConfigError::NoConfigDir.message(), "Failed to get config directory");
    assert_eq!(ConfigError::Unreadable.message(), "Failed to read config.toml");
    assert_eq!(ConfigError::Malformed.message(), "Failed to parse config.toml");
    assert_eq!(
        ConfigError::EmptyOriginal(3).message(),
        "Replacement with an empty original in config.toml"
    );
}

#[test]
fn a_new_store_holds_the_first_configuration() {
    let manager = store("text", config_with(&[("foo", "bar")], &['？']));
    assert_eq!(manager.get_config_path(), "/etc/clipboard-formatter/config.toml");
    assert_eq!(rules_of(manager.get_config()), pairs(&[("foo", "bar")]));
    assert_eq!(manager.get_config().exclusion_list(), &['？']);
    assert_eq!(manager.get_config().app.clipboard_poll_interval, 500);
    assert_eq!(manager.get_config().app.config_reload_interval, 2000);
}

#[test]
fn no_store_is_made_without_a_first_configuration() {
    let path = "p".to_string();
    assert_eq!(
        ConfigManager::new(path.clone(), "", LoadAttempt::Unreadable).err(),
        Some(ConfigError::Unreadable)
    );
    assert_eq!(
        ConfigManager::new(path.clone(), "x = ", LoadAttempt::Malformed).err(),
        Some(ConfigError::Malformed)
    );
    let invalid = LoadAttempt::Parsed(config_with(&[("", "x")], &[]));
    assert_eq!(ConfigManager::new(path, "t", invalid).err(), Some(ConfigError::EmptyOriginal(0)));
}

#[test]
fn a_failed_reload_keeps_the_last_good_configuration() {
    let mut manager = store("good", config_with(&[("foo", "bar")], &['！']));

    let outcome = manager.reload_config("bad [", LoadAttempt::Malformed);
    assert_eq!(outcome, Err(ReloadFailure { error: ConfigError::Malformed, first_in_streak: true }));
    assert_eq!(rules_of(manager.get_config()), pairs(&[("foo", "bar")]));
    assert_eq!(manager.get_config().exclusion_list(), &['！']);

    let outcome = manager.reload_config("better", LoadAttempt::Parsed(config_with(&[("baz", "qux")], &[])));
    assert_eq!(outcome, Ok(ReloadNotice::Reloaded));
    assert_eq!(rules_of(manager.get_config()), pairs(&[("baz", "qux")]));
    assert!(manager.get_config().exclusion_list().is_empty());

    let outcome = manager.reload_config("bad [", LoadAttempt::Malformed);
    assert_eq!(outcome, Err(ReloadFailure { error: ConfigError::Malformed, first_in_streak: true }));
}

#[test]
fn a_repeated_failure_of_the_same_text_is_not_reported_again() {
    let mut manager = store("good", config_with(&[("foo", "bar")], &[]));
    let first = manager.reload_config("bad [", LoadAttempt::Malformed).unwrap_err();
    assert!(first.first_in_streak);
    let second = manager.reload_config("bad [", LoadAttempt::Malformed).unwrap_err();
    assert_eq!(second, ReloadFailure { error: ConfigError::Malformed, first_in_streak: false });
    let third = manager.reload_config("bad [", LoadAttempt::Malformed).unwrap_err();
    assert!(!third.first_in_streak);
    assert_eq!(rules_of(manager.get_config()), pairs(&[("foo", "bar")]));
}

#[test]
fn a_failure_of_another_text_is_reported() {
    let mut manager = store("good", config_with(&[("foo", "bar")], &[]));
    assert!(manager.reload_config("bad [", LoadAttempt::Malformed).unwrap_err().first_in_streak);
    let other = manager.reload_config("bad [[", LoadAttempt::Malformed).unwrap_err();
    assert!(other.first_in_streak);
    let invalid = LoadAttempt::Parsed(config_with(&[("", "x")], &[]));
    let third = manager.reload_config("[replacements]\n\"\" = \"x\"", invalid).unwrap_err();
    assert_eq!(third, ReloadFailure { error: ConfigError::EmptyOriginal(0), first_in_streak: true });
    let unreadable = manager.reload_config("", LoadAttempt::Unreadable).unwrap_err();
    assert_eq!(unreadable, ReloadFailure { error: ConfigError::Unreadable, first_in_streak: true });
    assert_eq!(rules_of(manager.get_config()), pairs(&[("foo", "bar")]));
}

#[test]
fn the_text_in_force_is_not_loaded_again() {
    let mut manager = store("good", config_with(&[("foo", "bar")], &[]));
    let outcome = manager.reload_config("good", LoadAttempt::Parsed(config_with(&[("other", "rules")], &[])));
    assert_eq!(outcome, Ok(ReloadNotice::Unchanged));
    assert_eq!(rules_of(manager.get_config()), pairs(&[("foo", "bar")]));
    let outcome = manager.reload_config("good", LoadAttempt::Parsed(config_with(&[], &[])));
    assert_eq!(outcome, Ok(ReloadNotice::Unchanged));
    assert_eq!(rules_of(manager.get_config()), pairs(&[("foo", "bar")]));
}

#[test]
fn a_failure_is_never_taken_for_the_text_in_force() {
    let mut manager = store("good", config_with(&[("foo", "bar")], &[]));
    let outcome = manager.reload_config("good", LoadAttempt::Malformed);
    assert_eq!(outcome, Err(ReloadFailure { error: ConfigError::Malformed, first_in_streak: true }));
    assert_eq!(rules_of(manager.get_config()), pairs(&[("foo", "bar")]));
}

#[test]
fn the_text_in_force_loads_again_after_a_failure() {
    let mut manager = store("good", config_with(&[("foo", "bar")], &[]));
    assert!(manager.reload_config("bad", LoadAttempt::Malformed).is_err());
    let outcome = manager.reload_config("good", LoadAttempt::Parsed(config_with(&[("foo", "bar")], &[])));
    assert_eq!(outcome, Ok(ReloadNotice::Reloaded));
    let again = manager.reload_config("bad", LoadAttempt::Malformed).unwrap_err();
    assert!(again.first_in_streak);
}

#[test]
fn a_reloaded_configuration_governs_the_next_transformation() {
    let mut manager = store("one", config_with(&[("foo", "bar")], &['！']));
    let before = format_text(
        "foo！",
        &manager.get_config().replacements,
        manager.get_config().exclusion_list(),
    );
    assert_eq!(before.unwrap(), "bar！");
    manager.reload_config("two", LoadAttempt::Parsed(config_with(&[("foo", "qux")], &[]))).unwrap();
    let after = format_text(
        "foo！",
        &manager.get_config().replacements,
        manager.get_config().exclusion_list(),
    );
    assert_eq!(after.unwrap(), "qux!");
}
