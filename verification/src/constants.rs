//! Fixed values: the official directory URL, key rotation period and file names.

use vstd::prelude::*;

verus! {

/// Root URL of the official directory.
pub const OFFICIAL_DIR_BASE_URL: &'static str = "https://hypo-org.github.io/directory";

/// Length of the key rotation transition period in days.
pub const KEY_TRANSITION_PERIOD_DAYS: u32 = 90;

/// File name of the configuration.
pub const DEFAULT_CONFIG_FILENAME: &'static str = "config.toml";

/// File name of the database.
pub const DEFAULT_DB_FILENAME: &'static str = "hypo.db";

/// Name of the cache directory.
pub const CACHE_DIR_NAME: &'static str = "cache";

/// Name of the keyring directory.
pub const KEYRING_DIR_NAME: &'static str = "keyring";

/// Name of the temporary directory.
pub const TMP_DIR_NAME: &'static str = "tmp";

/// Name of the log directory.
pub const LOGS_DIR_NAME: &'static str = "logs";

/// The fingerprints of the official signing keys, the hard-coded root of trust
/// of `registry.json` (a placeholder until the real keys are published).
pub open spec fn official_fingerprints() -> Seq<Seq<char>> {
    seq!["PLACEHOLDER_FINGERPRINT_1"@]
}

/// Fingerprints of the official signing keys.
pub fn official_key_fingerprints() -> (r: Vec<String>)
    ensures
        r@.map_values(|s: String| s@) == official_fingerprints(),
{
    let mut v: Vec<String> = Vec::new();
    v.push(String::from_str("PLACEHOLDER_FINGERPRINT_1"));
    assert(v@.map_values(|s: String| s@) =~= official_fingerprints());
    v
}

} // verus!
