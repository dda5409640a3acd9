//! Data types of the official directory and of developer registries.

use vstd::prelude::*;

use crate::str_map::StrMap;

verus! {

/// The official directory index `registry.json`: shards, shard digests, snapshot
/// version and key rotation.
#[derive(Debug, Clone)]
pub struct RegistryJson {
    /// Schema version.
    pub schema_version: u32,
    /// Snapshot version, raised on every merged change.
    pub snapshot_version: u64,
    /// The shards (first letters).
    pub shards: Vec<String>,
    /// SHA256 of every shard file, by shard path.
    pub shard_hashes: StrMap<String>,
    /// Fingerprints of the official signing keys.
    pub official_key_fingerprints: Vec<String>,
    /// Key rotation period.
    pub key_rotation: KeyRotation,
    /// Where updated keys are published.
    pub key_update_url: String,
    /// Mirrors.
    pub mirrors: Vec<String>,
}

/// Key rotation: the old key stays valid until it is retired.
#[derive(Debug, Clone)]
pub struct KeyRotation {
    /// Fingerprint of the old key.
    pub old_key_fingerprint: String,
    /// When the old key is retired (ISO 8601).
    pub old_key_retired_at: String,
    /// Length of the transition period in days.
    pub transition_period_days: u32,
}

/// A developer shard such as `a/alice.json`.
#[derive(Debug, Clone)]
pub struct ShardJson {
    /// GitHub user name.
    pub github_username: String,
    /// Fingerprints of the developer's GPG keys.
    pub gpg_key_fingerprints: Vec<String>,
    /// Root URL of the developer registry.
    pub base_pkg_url: String,
    /// Registration time (ISO 8601).
    pub registered_at: String,
}

/// A developer's `hypo-index.json`.
#[derive(Debug, Clone)]
pub struct HypoIndex {
    /// Schema version.
    pub schema_version: u32,
    /// The developer's GitHub user name.
    pub owner: String,
    /// The packages.
    pub packages: Vec<HypoIndexPackage>,
}

/// One package of `hypo-index.json`.
#[derive(Debug, Clone)]
pub struct HypoIndexPackage {
    /// Package name.
    pub name: String,
    /// Description.
    pub description: String,
    /// GitHub repository `owner/repo`.
    pub repo: String,
    /// Latest version.
    pub latest_version: String,
    /// All versions.
    pub versions: Vec<HypoIndexVersion>,
}

/// One version of a package.
#[derive(Debug, Clone)]
pub struct HypoIndexVersion {
    /// Version (SemVer).
    pub version: String,
    /// Release date (ISO 8601).
    pub released_at: String,
    /// Relative path of `hypo-package.json`.
    pub package_index_path: String,
    /// Relative path of `manifest.toml`.
    pub manifest_path: String,
    /// Relative path of `manifest.toml.sig`.
    pub manifest_sig_path: String,
    /// Whether the version is frozen.
    pub freeze: bool,
    /// Why it is frozen.
    pub freeze_reason: Option<String>,
    /// The version to fall back to while frozen.
    pub rollback_version: Option<String>,
    /// hypo dependencies (such as `@bob/utils >= 2.0.0`).
    pub hypo_deps: Vec<String>,
    /// System dependencies.
    pub system_deps: Vec<String>,
}

/// Download information of one version, `hypo-package.json`.
#[derive(Debug, Clone)]
pub struct HypoPackage {
    /// Schema version.
    pub schema_version: u32,
    /// Package name.
    pub name: String,
    /// Version.
    pub version: String,
    /// One entry per platform.
    pub packages: Vec<HypoPackageEntry>,
}

/// The `.hypo` file for one platform.
#[derive(Debug, Clone)]
pub struct HypoPackageEntry {
    /// Target platform (windows / linux / macos / all).
    pub platform: String,
    /// Target architectures.
    pub arch: Vec<String>,
    /// Download URL of the `.hypo` file.
    pub url: String,
    /// Size in bytes.
    pub size: u64,
    /// SHA256 of the `.hypo` file.
    pub sha256: String,
    /// Download URL of the `.hypo.sig` signature.
    pub sig_url: String,
}

} // verus!
