//! The global configuration `~/.hypo/config.toml`.

use vstd::prelude::*;

verus! {

/// The global configuration.
#[derive(Debug, Clone)]
pub struct Config {
    /// Trusted GitHub user names.
    pub trusted_users: Vec<String>,
    /// Custom registries.
    pub custom_registries: Vec<String>,
    /// Keyring directory.
    pub keyring_path: String,
    /// Cache directory.
    pub cache_dir: String,
    /// Log level (trace / debug / info / warn / error).
    pub log_level: String,
}

/// The keyring path used when the configuration gives none: empty.
pub fn default_keyring_path() -> (r: String)
    ensures
        r@.len() == 0,
{
    String::new()
}

/// The cache directory used when the configuration gives none: empty.
pub fn default_cache_dir() -> (r: String)
    ensures
        r@.len() == 0,
{
    String::new()
}

/// The log level used when the configuration gives none: `info`.
pub fn default_log_level() -> (r: String)
    ensures
        r@ == "info"@,
{
    String::from_str("info")
}

/// The configuration with every field at its default.
pub open spec fn is_default_config(c: Config) -> bool {
    &&& c.trusted_users@.len() == 0
    &&& c.custom_registries@.len() == 0
    &&& c.keyring_path@.len() == 0
    &&& c.cache_dir@.len() == 0
    &&& c.log_level@ == "info"@
}

impl Default for Config {
    /// No trusted users or custom registries, empty paths, log level `info`.
    fn default() -> (r: Config)
        ensures
            is_default_config(r),
    {
        Config {
            trusted_users: Vec::new(),
            custom_registries: Vec::new(),
            keyring_path: default_keyring_path(),
            cache_dir: default_cache_dir(),
            log_level: default_log_level(),
        }
    }
}

} // verus!
