use std::path::Path;

use hypo::paths::{
    cache_dir, config_path, db_path, hypo_base_dir, keyring_dir, logs_dir, required_dirs, tmp_dir,
};

const HOME: &str = "/home/tester";

#[test]
fn test_base_dir_exists() {
    let base = hypo_base_dir(HOME);
    assert!(Path::new(&base).ends_with(".hypo"));
}

#[test]
fn test_all_paths_are_under_base() {
    let base = hypo_base_dir(HOME);
    assert!(Path::new(&config_path(HOME)).starts_with(&base));
    assert!(Path::new(&cache_dir(HOME)).starts_with(&base));
    assert!(Path::new(&keyring_dir(HOME)).starts_with(&base));
    assert!(Path::new(&tmp_dir(HOME)).starts_with(&base));
    assert!(Path::new(&db_path(HOME)).starts_with(&base));
    assert!(Path::new(&logs_dir(HOME)).starts_with(&base));
}

#[test]
fn test_init_and_list() {
    let base = hypo_base_dir(HOME);
    assert!(!base.is_empty());
    assert!(Path::new(&config_path(HOME)).ends_with("config.toml"));
    assert!(Path::new(&db_path(HOME)).ends_with("hypo.db"));
    assert!(Path::new(&cache_dir(HOME)).ends_with("cache"));
    assert!(Path::new(&keyring_dir(HOME)).ends_with("keyring"));
    assert!(Path::new(&tmp_dir(HOME)).ends_with("tmp"));
    assert!(Path::new(&logs_dir(HOME)).ends_with("logs"));
}

#[test]
fn paths_join_the_home_directory() {
    assert_eq!(hypo_base_dir(HOME), "/home/tester/.hypo");
    assert_eq!(config_path(HOME), "/home/tester/.hypo/config.toml");
    assert_eq!(db_path(HOME), "/home/tester/.hypo/hypo.db");
    let dirs = required_dirs(HOME);
    assert_eq!(
        dirs,
        vec![
            "/home/tester/.hypo".to_string(),
            "/home/tester/.hypo/cache".to_string(),
            "/home/tester/.hypo/keyring".to_string(),
            "/home/tester/.hypo/tmp".to_string(),
            "/home/tester/.hypo/logs".to_string(),
        ]
    );
}
