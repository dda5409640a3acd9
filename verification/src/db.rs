//! Records of the local database: installed packages and configured registries.

use vstd::prelude::*;

verus! {

/// An installed package.
#[derive(Debug, Clone)]
pub struct PackageRecord {
    /// Primary key.
    pub id: i64,
    /// Owner (such as `alice`).
    pub owner: String,
    /// Name (such as `my-tool`).
    pub name: String,
    /// Installed version.
    pub version: String,
    /// Platform (windows / linux / macos).
    pub platform: String,
    /// Architecture (x86_64 / aarch64).
    pub arch: String,
    /// Install directory.
    pub install_path: String,
    /// Directory of the scripts.
    pub script_dir: String,
    /// URL of the registry it came from.
    pub source_registry: String,
    /// Install time (ISO 8601).
    pub installed_at: String,
    /// The latest version seen in the registry at the last install (for downgrade
    /// protection).
    pub latest_seen_version: String,
}

/// A configured registry.
#[derive(Debug, Clone)]
pub struct RegistryRecord {
    /// Primary key.
    pub id: i64,
    /// Name.
    pub name: String,
    /// Base URL.
    pub base_pkg_url: String,
    /// Whether it is the official directory.
    pub is_official: bool,
    /// When it was added (ISO 8601).
    pub added_at: String,
}

/// The latest seen version as stored (an empty text stands for none).
pub fn latest_seen_from_column(stored: Option<String>) -> (r: Option<String>)
    ensures
        match stored {
            Some(s) => if s@.len() == 0 {
                r is None
            } else {
                r == Some(s)
            },
            None => r is None,
        },
{
    match stored {
        Some(s) => {
            if s.as_str().is_empty() {
                None
            } else {
                Some(s)
            }
        },
        None => None,
    }
}

} // verus!
