use sequoia_openpgp::serialize::Serialize;
use hypo::error::HypoError;
use hypo::registry::trust::{
    extract_github_username, first_fingerprint, fingerprint_listed, github_key_owner, is_github_pages_url,
    key_lookup_step, missing_fingerprints, no_pubkey_error, shard_trust_error, tofu_outcome, validate_owner,
    well_known_key_url, KeyAction, KeyEvent, KeyLookup, KeyStage, ShardTrust, TrustAction,
};
use hypo::registry::types::ShardJson;

#[test]
fn test_validate_owner() {
    assert!(validate_owner("alice").is_ok());
    assert!(validate_owner("my-org").is_ok());
    assert!(validate_owner("vercel-user").is_ok());
    assert!(validate_owner("test_user").is_err());
    assert!(validate_owner("../evil").is_err());
    assert!(validate_owner("").is_err());
}

#[test]
fn test_trust_owner_validation() {
    assert!(validate_owner("alice").is_ok());
    assert!(validate_owner("my-org").is_ok());
    assert!(validate_owner("../evil").is_err());
    assert!(validate_owner("test_user").is_err());
}

#[test]
fn owner_error_texts() {
    assert_eq!(validate_owner("").unwrap_err().detail(), "无效的 owner 名称：");
    let long = "a".repeat(40);
    assert_eq!(*validate_owner(&long).unwrap_err().detail(), format!("无效的 owner 名称：{long}"));
    assert!(validate_owner(&"a".repeat(39)).is_ok());
    assert_eq!(validate_owner("a_b").unwrap_err().detail(), "owner 名称包含非法字符：a_b");
    assert_eq!(validate_owner("a_b").unwrap_err().exit_code(), 13);
}

#[test]
fn test_is_github_pages_url() {
    assert!(is_github_pages_url("https://alice.github.io/hypo-pkgs"));
    assert!(is_github_pages_url("http://bob.github.io"));
    assert!(!is_github_pages_url("https://example.com/hypo"));
    assert!(!is_github_pages_url("https://my-tool.vercel.app"));
    assert!(!is_github_pages_url("https://hypo.example.org"));
    assert!(!is_github_pages_url("https://evil.com@alice.github.io/hypo-pkgs"));
}

#[test]
fn test_trust_github_pages_detection() {
    assert!(is_github_pages_url("https://alice.github.io/hypo-pkgs"));
    assert!(is_github_pages_url("https://my-org.github.io"));
    assert!(!is_github_pages_url("https://example.com"));
    assert!(!is_github_pages_url("https://my-app.vercel.app"));
    assert!(!is_github_pages_url("https://evil.com@alice.github.io/path"));
}

#[test]
fn test_extract_github_username() {
    assert_eq!(extract_github_username("https://alice.github.io/hypo-pkgs"), Some("alice".into()));
    assert_eq!(extract_github_username("https://my-org.github.io"), Some("my-org".into()));
    assert_eq!(extract_github_username("https://example.com"), None);
    assert_eq!(extract_github_username("https://my-app.vercel.app"), None);
}

#[test]
fn github_pages_hosts_ignore_case_and_need_a_user() {
    assert!(is_github_pages_url("https://Alice.GitHub.IO/x"));
    assert_eq!(extract_github_username("https://Alice.GitHub.IO/x"), Some("alice".into()));
    assert!(is_github_pages_url("alice.github.io/pkgs"));
    assert!(is_github_pages_url("https://github.io"));
    assert_eq!(extract_github_username("https://github.io"), None);
    assert!(!is_github_pages_url("https://github.io.evil.com"));
    assert!(!is_github_pages_url("https://user:pw@alice.github.io"));
}

fn shard() -> ShardJson {
    ShardJson {
        github_username: "alice".into(),
        gpg_key_fingerprints: vec!["AA11".into(), "BB22".into(), "CC33".into()],
        base_pkg_url: "https://alice.github.io/hypo-pkgs".into(),
        registered_at: "2024-01-01T00:00:00Z".into(),
    }
}

#[test]
fn key_resolution_decisions() {
    let s = shard();
    assert_eq!(first_fingerprint(&s.gpg_key_fingerprints).unwrap(), "AA11");
    assert_eq!(first_fingerprint(&[]).unwrap_err().detail(), "分片中未声明 GPG 指纹");
    assert_eq!(github_key_owner(&s.base_pkg_url), Some("alice".into()));
    assert_eq!(github_key_owner("https://example.com/pkgs"), None);
    assert!(fingerprint_listed("aa11", &s.gpg_key_fingerprints));
    assert!(!fingerprint_listed("DD44", &s.gpg_key_fingerprints));
    assert_eq!(well_known_key_url("https://x.org/p"), "https://x.org/p/gpg-key.asc");
    assert_eq!(
        no_pubkey_error("AA11", "https://x.org/p").detail(),
        "公钥 AA11 未在本地缓存中找到。请将 GPG 公钥导出到 https://x.org/p/gpg-key.asc，或通过 hypo install --from-url 的 TOFU 流程手动信任。"
    );
}

#[test]
fn trust_on_first_use_and_shard_trust() {
    assert!(tofu_outcome(true, "AA").is_ok());
    let e = tofu_outcome(false, "AA").unwrap_err();
    assert_eq!(e.exit_code(), 10);
    assert_eq!(e.detail(), "TOFU 模式：公钥指纹 AA 尚未被信任。\n请确认这是开发者的正确指纹后，通过交互式安装流程缓存该公钥。");
    let s = shard();
    assert_eq!(missing_fingerprints(&s.gpg_key_fingerprints, &[true, false, false]), vec!["BB22", "CC33"]);
    assert!(missing_fingerprints(&s.gpg_key_fingerprints, &[true, true, true]).is_empty());
    let e = shard_trust_error(&s, &HypoError::Network("x".into()));
    assert_eq!(
        e.detail(),
        "开发者 alice 的公钥无法自动获取：网络错误: x。\n请确保开发者已在 https://alice.github.io/hypo-pkgs/gpg-key.asc 发布 GPG 公钥，或通过 TOFU 流程手动信任。"
    );
}

/// A fresh certificate, serialized, and its fingerprint.
fn cert_bytes() -> (Vec<u8>, String) {
    let (cert, _) = sequoia_openpgp::cert::CertBuilder::new().add_userid("dev@example.com").generate().unwrap();
    let mut bytes = Vec::new();
    cert.serialize(&mut bytes).unwrap();
    (bytes, cert.fingerprint().to_hex())
}

#[test]
fn key_sources_are_tried_in_order() {
    let (bytes, fp) = cert_bytes();
    let fps = vec![fp.to_lowercase()];
    // Cached: used at once.
    let (l, a) = KeyLookup::start(&fps, "https://alice.github.io/p").unwrap();
    assert!(matches!(a, KeyAction::LoadCached));
    let (l, a) = key_lookup_step(l, KeyEvent::Cached(Some(bytes.clone())));
    assert_eq!(l.stage, KeyStage::Found);
    assert!(matches!(a, KeyAction::UseCert));
    // GitHub Pages: GitHub's keys, then the keyring again, then the well-known file.
    let (l, _) = KeyLookup::start(&fps, "https://alice.github.io/p").unwrap();
    let (l, a) = key_lookup_step(l, KeyEvent::Cached(None));
    assert!(matches!(a, KeyAction::FetchGitHubKeys(ref u) if u == "alice"));
    let (l, a) = key_lookup_step(l, KeyEvent::GitHubKeys(Ok(vec![fp.clone()])));
    assert_eq!(l.stage, KeyStage::GitHubCache);
    assert!(matches!(a, KeyAction::LoadCached));
    let (l, a) = key_lookup_step(l, KeyEvent::Cached(None));
    assert!(matches!(a, KeyAction::FetchWellKnown(ref u) if u == "https://alice.github.io/p/gpg-key.asc"));
    let (l, a) = key_lookup_step(l, KeyEvent::WellKnownCert(None));
    assert_eq!(l.stage, KeyStage::Failed);
    match a {
        KeyAction::Fail(e) => assert_eq!(e.detail(), no_pubkey_error(&fps[0], "https://alice.github.io/p").detail()),
        _ => panic!("the lookup should fail"),
    }
    // Another host: straight to the well-known file, which may give the key.
    let (l, _) = KeyLookup::start(&fps, "https://example.com/p").unwrap();
    let (l, a) = key_lookup_step(l, KeyEvent::Cached(None));
    assert!(matches!(a, KeyAction::FetchWellKnown(ref u) if u == "https://example.com/p/gpg-key.asc"));
    let (l, a) = key_lookup_step(l, KeyEvent::WellKnownCert(Some(bytes.clone())));
    assert_eq!(l.stage, KeyStage::Found);
    assert!(matches!(a, KeyAction::UseCert));
    // GitHub does not list the key: the well-known file is next.
    let (l, _) = KeyLookup::start(&fps, "https://alice.github.io/p").unwrap();
    let (l, _) = key_lookup_step(l, KeyEvent::Cached(None));
    let (_, a) = key_lookup_step(l, KeyEvent::GitHubKeys(Ok(vec!["BB".to_string()])));
    assert!(matches!(a, KeyAction::FetchWellKnown(_)));
    // GitHub could not be asked: the lookup ends with that error.
    let (l, _) = KeyLookup::start(&fps, "https://alice.github.io/p").unwrap();
    let (l, _) = key_lookup_step(l, KeyEvent::Cached(None));
    let (l, a) = key_lookup_step(l, KeyEvent::GitHubKeys(Err(HypoError::Network("down".into()))));
    assert_eq!(l.stage, KeyStage::Failed);
    assert!(matches!(a, KeyAction::Fail(HypoError::Network(_))));
    // No fingerprint declared.
    assert_eq!(KeyLookup::start(&[], "https://x").unwrap_err().detail(), "分片中未声明 GPG 指纹");
}

#[test]
fn a_foreign_key_is_never_used() {
    let (bytes, fp) = cert_bytes();
    let declared = vec!["ABCDEF".to_string()];
    // A keyring file holding another key counts as not cached.
    let (l, _) = KeyLookup::start(&declared, "https://example.com/p").unwrap();
    let (l, a) = key_lookup_step(l, KeyEvent::Cached(Some(bytes.clone())));
    assert!(matches!(a, KeyAction::FetchWellKnown(_)));
    // The well-known file holding another key fails the lookup.
    let (l, a) = key_lookup_step(l, KeyEvent::WellKnownCert(Some(bytes)));
    assert_eq!(l.stage, KeyStage::Failed);
    match a {
        KeyAction::Fail(e) => {
            assert_eq!(e.exit_code(), 1);
            assert_eq!(
                e.detail().as_str(),
                format!("https://example.com/p/gpg-key.asc 中的公钥指纹 {fp} 与分片声明的指纹 ABCDEF 不符").as_str()
            );
        }
        _ => panic!("the lookup should fail"),
    }
    // Bytes that hold no certificate are as good as none.
    let (l, _) = KeyLookup::start(&declared, "https://example.com/p").unwrap();
    let (l, _) = key_lookup_step(l, KeyEvent::Cached(None));
    let (_, a) = key_lookup_step(l, KeyEvent::WellKnownCert(Some(b"not a key".to_vec())));
    assert!(matches!(a, KeyAction::Fail(HypoError::GpgNoPubkey(_))));
}

#[test]
fn every_missing_key_must_be_resolved() {
    let shard = ShardJson {
        github_username: "alice".into(),
        gpg_key_fingerprints: vec!["A1".into(), "B2".into(), "C3".into()],
        base_pkg_url: "https://alice.github.io/p".into(),
        registered_at: "".into(),
    };
    let (t, a) = ShardTrust::start(shard.clone(), &[false, true, false]);
    assert_eq!(t.missing, vec!["A1".to_string(), "C3".to_string()]);
    assert!(matches!(a, TrustAction::Resolve(ref f) if f == "A1"));
    let (t, a) = t.step(Ok(()));
    assert!(matches!(a, TrustAction::Resolve(ref f) if f == "C3"));
    let (t, a) = t.step(Ok(()));
    assert_eq!(t.resolved, 2);
    assert!(matches!(a, TrustAction::Trusted));
    // A second key that cannot be resolved stops the trust.
    let (t, _) = ShardTrust::start(shard.clone(), &[false, true, false]);
    let (t, _) = t.step(Ok(()));
    let (_, a) = t.step(Err(HypoError::GpgNoPubkey("x".into())));
    match a {
        TrustAction::Fail(e) => assert_eq!(e.detail(), shard_trust_error(&shard, &HypoError::GpgNoPubkey("x".into())).detail()),
        _ => panic!("trust should fail"),
    }
    // Everything cached: trusted at once.
    let (_, a) = ShardTrust::start(shard, &[true, true, true]);
    assert!(matches!(a, TrustAction::Trusted));
}
