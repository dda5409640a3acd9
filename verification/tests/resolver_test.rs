use hypo::deps::resolver::{
    parse_dep_string, resolve, select_best_version, topological_sort, version_matches, ResolvedDep,
};

fn dep(owner: &str, name: &str, version: &str) -> ResolvedDep {
    ResolvedDep {
        owner: owner.into(),
        name: name.into(),
        version: version.into(),
        available_versions: vec![],
    }
}

#[test]
fn test_parse_dep_with_constraint() {
    let dep = parse_dep_string("@alice/my-tool >= 1.0.0").unwrap();
    assert_eq!(dep.owner, "alice");
    assert_eq!(dep.name, "my-tool");
    assert_eq!(dep.constraint_str, ">= 1.0.0");
}

#[test]
fn test_parse_dep_no_constraint() {
    let dep = parse_dep_string("@bob/utils").unwrap();
    assert_eq!(dep.owner, "bob");
    assert_eq!(dep.name, "utils");
    assert!(dep.constraint_str.is_empty());
}

#[test]
fn test_parse_dep_caret() {
    let dep = parse_dep_string("@org/pkg ^1.2.3").unwrap();
    assert_eq!(dep.constraint_str, "^1.2.3");
}

#[test]
fn test_parse_dep_invalid() {
    assert!(parse_dep_string("no-at-sign").is_err());
    assert!(parse_dep_string("@no-slash").is_err());
}

#[test]
fn test_parse_dep_string_valid() {
    let dep = parse_dep_string("@alice/tool >= 1.0.0").unwrap();
    assert_eq!(dep.owner, "alice");
    assert_eq!(dep.name, "tool");
    assert_eq!(dep.constraint_str, ">= 1.0.0");
}

#[test]
fn test_parse_dep_string_invalid() {
    assert!(parse_dep_string("no-prefix").is_err());
    assert!(parse_dep_string("@no-slash").is_err());
}

#[test]
fn parse_dep_error_texts() {
    let e = parse_dep_string("  no-prefix ").unwrap_err();
    assert_eq!(e.detail(), "无效的依赖声明（缺少 @ 前缀）: no-prefix");
    let e = parse_dep_string("@no-slash >= 1.0").unwrap_err();
    assert_eq!(e.detail(), "无效的依赖声明（缺少 / 分隔符）: @no-slash >= 1.0");
    assert_eq!(e.exit_code(), 1);
    let d = parse_dep_string("  @a/b   ~1.2  ").unwrap();
    assert_eq!((d.owner.as_str(), d.name.as_str(), d.constraint_str.as_str()), ("a", "b", "~1.2"));
}

#[test]
fn test_version_matches() {
    assert!(version_matches(">= 1.0.0", "1.5.0"));
    assert!(version_matches(">= 1.0.0", "2.0.0"));
    assert!(!version_matches(">= 2.0.0", "1.5.0"));
    assert!(version_matches("", "any-version"));
    assert!(version_matches("^1.2.3", "1.5.0"));
    assert!(!version_matches("^1.2.3", "2.0.0"));
    assert!(version_matches("~1.2.3", "1.2.5"));
    assert!(!version_matches("~1.2.3", "1.3.0"));
}

#[test]
fn version_matches_rejects_unparsable_input() {
    assert!(!version_matches(">= 1.0.0", "not-a-version"));
    assert!(!version_matches("!!", "1.0.0"));
}

#[test]
fn test_select_best_version() {
    let versions: Vec<String> = ["2.0.0", "1.5.0", "1.0.0", "0.9.0"].iter().map(|s| s.to_string()).collect();
    assert_eq!(select_best_version(">= 1.0.0", &versions).unwrap(), "2.0.0");
    assert_eq!(select_best_version(">= 1.0.0, < 2.0.0", &versions).unwrap(), "1.5.0");
    assert_eq!(select_best_version("", &versions).unwrap(), "2.0.0");
    assert!(select_best_version(">= 3.0.0", &versions).is_err());
}

#[test]
fn select_best_version_error_texts() {
    let versions: Vec<String> = vec!["1.0.0".into(), "junk".into()];
    let e = select_best_version(">= 3.0.0", &versions).unwrap_err();
    assert_eq!(e.detail(), "找不到满足约束 '>= 3.0.0' 的版本");
    let none: Vec<String> = vec!["junk".into()];
    let e = select_best_version("", &none).unwrap_err();
    assert_eq!(e.detail(), "无可用的版本");
    let e = select_best_version("=>>", &versions).unwrap_err();
    assert!(e.detail().starts_with("无效的版本约束 '=>>': "));
    assert_eq!(select_best_version("", &versions).unwrap(), "1.0.0");
}

#[test]
fn resolve_picks_the_root_version() {
    let available: Vec<String> = vec!["1.0.0".into(), "1.4.0".into(), "2.1.0".into()];
    let r = resolve("alice", "tool", "^1.0", &available).unwrap();
    assert_eq!(r.len(), 1);
    assert_eq!(r[0].owner, "alice");
    assert_eq!(r[0].name, "tool");
    assert_eq!(r[0].version, "1.4.0");
    assert_eq!(r[0].available_versions, available);
}

#[test]
fn test_topological_sort_no_cycle() {
    let deps = vec![dep("root", "app", "1.0.0"), dep("dep", "lib", "2.0.0")];
    let edges = vec![(0, 1)];
    let order = topological_sort(&deps, &edges).unwrap();
    assert_eq!(order[0], 0);
    assert_eq!(order[1], 1);
}

#[test]
fn test_topological_sort_cycle_detected() {
    let deps = vec![dep("a", "pkg-a", "1.0.0"), dep("b", "pkg-b", "1.0.0")];
    let edges = vec![(0, 1), (1, 0)];
    assert!(topological_sort(&deps, &edges).is_err());
}

#[test]
fn test_cycle_detection() {
    let deps = vec![dep("a", "pkg-a", "1.0.0"), dep("b", "pkg-b", "1.0.0")];
    let edges = vec![(0, 1), (1, 0)];
    assert!(topological_sort(&deps, &edges).is_err());
}

#[test]
fn topological_order_respects_every_edge() {
    let deps = vec![dep("a", "x", "1"), dep("b", "y", "1"), dep("c", "z", "1"), dep("d", "w", "1")];
    let edges = vec![(2, 0), (0, 1), (3, 1), (2, 3), (7, 0)];
    let order = topological_sort(&deps, &edges).unwrap();
    assert_eq!(order.len(), 4);
    let pos = |n: usize| order.iter().position(|&x| x == n).unwrap();
    for &(a, b) in &[(2usize, 0usize), (0, 1), (3, 1), (2, 3)] {
        assert!(pos(a) < pos(b));
    }
    let self_loop = vec![(1usize, 1usize)];
    let e = topological_sort(&deps, &self_loop).unwrap_err();
    assert_eq!(e.detail(), "检测到循环依赖，涉及：@b / y");
}

#[test]
fn declarations_read_back() {
    let d = parse_dep_string("@o/n ^2.1").unwrap();
    assert_eq!((d.owner.as_str(), d.name.as_str(), d.constraint_str.as_str()), ("o", "n", "^2.1"));
    let d = parse_dep_string("@my-org/a/b ~1.0").unwrap();
    assert_eq!((d.owner.as_str(), d.name.as_str(), d.constraint_str.as_str()), ("my-org", "a/b", "~1.0"));
    let d = parse_dep_string("@alice/tool").unwrap();
    assert_eq!((d.owner.as_str(), d.name.as_str(), d.constraint_str.as_str()), ("alice", "tool", ""));
}

#[test]
fn selection_ignores_order() {
    let a = vec!["1.0.0".to_string(), "2.1.0".to_string(), "x".to_string(), "2.0.0".to_string()];
    let b = vec!["2.0.0".to_string(), "x".to_string(), "2.1.0".to_string(), "1.0.0".to_string(), "1.0.0".to_string()];
    assert_eq!(select_best_version("", &a).unwrap(), select_best_version("", &b).unwrap());
    assert_eq!(select_best_version("^2", &a).unwrap(), "2.1.0");
    assert_eq!(select_best_version("^2", &b).unwrap(), "2.1.0");
    assert_eq!(
        select_best_version(">=3", &a).unwrap_err().detail(),
        select_best_version(">=3", &b).unwrap_err().detail()
    );
}
