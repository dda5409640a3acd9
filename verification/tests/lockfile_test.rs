use hypo::deps::lockfile::Lockfile;
use hypo::deps::resolver::ResolvedDep;

fn dep(owner: &str, name: &str, version: &str, available: &[&str]) -> ResolvedDep {
    ResolvedDep {
        owner: owner.into(),
        name: name.into(),
        version: version.into(),
        available_versions: available.iter().map(|s| s.to_string()).collect(),
    }
}

#[test]
fn test_lockfile_find() {
    let deps = vec![dep("alice", "tool", "1.0.0", &[])];
    let lock = Lockfile::from_resolved(&deps);
    assert!(lock.find("alice", "tool").is_some());
    assert!(lock.find("bob", "utils").is_none());
}

#[test]
fn test_lockfile_generate_and_parse() {
    let deps = vec![dep("test", "pkg", "1.2.3", &["1.2.3"])];
    let lock = Lockfile::from_resolved(&deps);
    assert_eq!(lock.version, 1);
    assert_eq!(lock.packages.len(), 1);
    assert!(lock.find("test", "pkg").is_some());
    assert!(lock.find("no", "exist").is_none());
}

#[test]
fn lockfile_entries_follow_the_resolved_list() {
    let deps = vec![
        dep("alice", "my-tool", "1.2.3", &["1.2.3", "1.0.0"]),
        dep("bob", "utils", "2.0.0", &["2.0.0"]),
    ];
    let lock = Lockfile::from_resolved(&deps);
    assert_eq!(lock.version, 1);
    assert_eq!(lock.packages.len(), 2);
    assert_eq!(lock.packages[0].owner, "alice");
    assert_eq!(lock.packages[1].version, "2.0.0");
    assert_eq!(lock.packages[1].url, "");
    assert_eq!(lock.packages[1].sha256, "");
    assert_eq!(lock.packages[1].source_registry, "");
    let found = lock.find("bob", "utils").unwrap();
    assert_eq!(found.version, "2.0.0");
}

#[test]
fn online_verification_compares_with_the_registry() {
    let empty = Lockfile::from_resolved(&[]);
    assert!(empty.verify_online("https://r", &[]).is_ok());
    let mut lock = Lockfile::from_resolved(&[dep("alice", "tool", "1.0.0", &[]), dep("bob", "utils", "2.0.0", &[])]);
    lock.packages[0].url = "https://a/tool.hypo".into();
    lock.packages[0].sha256 = "aa".into();
    lock.packages[1].url = "https://b/utils.hypo".into();
    lock.packages[1].sha256 = "bb".into();
    let same = vec![
        ("https://a/tool.hypo".to_string(), "aa".to_string()),
        ("https://b/utils.hypo".to_string(), "bb".to_string()),
    ];
    assert!(lock.verify_online("https://r", &same).is_ok());
    let changed = vec![same[0].clone(), ("https://b/utils.hypo".to_string(), "cc".to_string())];
    let e = lock.verify_online("https://r", &changed).unwrap_err();
    assert_eq!(e.exit_code(), 11);
    assert_eq!(e.detail(), "lockfile 中 @bob/utils 的 url 或 sha256 与 registry https://r 不一致，请重新解析依赖");
    let e = lock.verify_online("https://r", &same[..1]).unwrap_err();
    assert_eq!(e.detail(), "lockfile 条目数与 registry https://r 的结果不一致，请重新解析依赖");
}
