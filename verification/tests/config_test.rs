use hypo::config::Config;

#[test]
fn test_default_config() {
    let cfg = Config::default();
    assert_eq!(cfg.log_level, "info");
    assert!(cfg.trusted_users.is_empty());
    assert!(cfg.custom_registries.is_empty());
}

#[test]
fn test_config_default_values() {
    let cfg = Config::default();
    assert_eq!(cfg.log_level, "info");
    assert!(cfg.trusted_users.is_empty());
}

#[test]
fn default_config_paths_are_empty() {
    let cfg = Config::default();
    assert_eq!(cfg.keyring_path, "");
    assert_eq!(cfg.cache_dir, "");
    assert_eq!(hypo::config::default_log_level(), "info");
    assert_eq!(hypo::config::default_keyring_path(), "");
    assert_eq!(hypo::config::default_cache_dir(), "");
}
