use hypo::package::reader::{entry_target, name_climbs_out, HypoPackageReader};

#[test]
fn package_reader_keeps_its_file() {
    let reader = HypoPackageReader::new("/tmp/pkg/tool-1.0.0.hypo".to_string());
    assert_eq!(reader.path(), "/tmp/pkg/tool-1.0.0.hypo");
}

#[test]
fn zip_entries_stay_under_the_destination() {
    assert_eq!(entry_target("/tmp/x", "tools/install.ps1").unwrap(), "/tmp/x/tools/install.ps1");
    assert_eq!(entry_target("/tmp/x", "manifest.toml").unwrap(), "/tmp/x/manifest.toml");
    let e = entry_target("/tmp/x", "/etc/passwd").unwrap_err();
    assert_eq!(e.exit_code(), 11);
    assert_eq!(e.detail(), "ZIP 条目路径穿越攻击: /etc/passwd");
}

#[test]
fn zip_entries_cannot_climb_out() {
    let e = entry_target("/tmp/x", "../evil.txt").unwrap_err();
    assert_eq!(e.exit_code(), 11);
    assert_eq!(e.detail(), "ZIP 条目路径穿越攻击: ../evil.txt");
    assert!(entry_target("/tmp/x", "a/../../evil.txt").is_err());
    assert!(entry_target("/tmp/x", "a\\..\\..\\evil.txt").is_err());
    assert_eq!(entry_target("/tmp/x", "a/../b.txt").unwrap(), "/tmp/x/a/../b.txt");
    assert!(name_climbs_out(".."));
    assert!(name_climbs_out("./.."));
    assert!(!name_climbs_out("a/./b/.."));
    assert!(!name_climbs_out("..a/b"));
}
