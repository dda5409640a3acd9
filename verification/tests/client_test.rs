use hypo::package::hash::sha256_hex;
use hypo::registry::client::{
    hypo_index_url, official_url, shard_path, verify_shard_hash, version_file_url,
};
use hypo::registry::types::{KeyRotation, RegistryJson};
use hypo::str_map::StrMap;

fn registry(hashes: StrMap<String>) -> RegistryJson {
    RegistryJson {
        schema_version: 1,
        snapshot_version: 1,
        shards: vec![],
        shard_hashes: hashes,
        official_key_fingerprints: vec![],
        key_rotation: KeyRotation {
            old_key_fingerprint: "".into(),
            old_key_retired_at: "".into(),
            transition_period_days: 90,
        },
        key_update_url: "".into(),
        mirrors: vec![],
    }
}

#[test]
fn test_verify_shard_hash_missing_key_rejected() {
    let registry = registry(StrMap::new());
    let result = verify_shard_hash(b"dummy", "a/alice.json", &registry);
    assert!(result.is_err());
}

#[test]
fn test_verify_shard_hash_mismatch() {
    let mut hashes = StrMap::new();
    hashes.insert("a/alice.json".into(), "sha256:deadbeef".into());
    let registry = registry(hashes);
    let result = verify_shard_hash(b"test data", "a/alice.json", &registry);
    assert!(result.is_err());
}

#[test]
fn shard_digest_accepts_prefix_and_any_case() {
    let raw = b"{\"github_username\":\"alice\"}";
    let digest = sha256_hex(raw);
    let mut hashes = StrMap::new();
    hashes.insert("a/alice.json".into(), format!("sha256:{}", digest.to_uppercase()));
    hashes.insert("b/bob.json".into(), digest.clone());
    let registry = registry(hashes);
    assert!(verify_shard_hash(raw, "a/alice.json", &registry).is_ok());
    assert!(verify_shard_hash(raw, "b/bob.json", &registry).is_ok());
    let e = verify_shard_hash(b"other", "b/bob.json", &registry).unwrap_err();
    assert_eq!(e.exit_code(), 11);
    assert_eq!(
        *e.detail(),
        format!("分片 b/bob.json SHA256 不匹配：期望 {digest}，实际 {}", sha256_hex(b"other"))
    );
    let e = verify_shard_hash(raw, "c/carol.json", &registry).unwrap_err();
    assert_eq!(e.detail(), "分片 c/carol.json 的 SHA256 哈希未在 registry.json 中登记，拒绝信任");
}

#[test]
fn registry_urls() {
    assert_eq!(official_url("registry.json"), "https://hypo-org.github.io/directory/registry.json");
    assert_eq!(shard_path("Alice").unwrap(), "a/Alice.json");
    assert_eq!(shard_path("bob").unwrap(), "b/bob.json");
    assert!(shard_path("../x").is_err());
    assert_eq!(hypo_index_url("https://a.github.io/p"), "https://a.github.io/p/hypo-index.json");
    assert_eq!(
        version_file_url("https://a.github.io/p", "tool", "1.0.0", "manifest.toml"),
        "https://a.github.io/p/tool/1.0.0/manifest.toml"
    );
}
