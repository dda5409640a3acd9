//! The layout of the `~/.hypo/` directory, computed from the user's home directory.

use vstd::prelude::*;

use crate::constants::{
    CACHE_DIR_NAME, DEFAULT_CONFIG_FILENAME, DEFAULT_DB_FILENAME, KEYRING_DIR_NAME,
    LOGS_DIR_NAME, TMP_DIR_NAME,
};

verus! {

/// The text of `Path::new(base).join(part)`.
pub uninterp spec fn path_join(base: Seq<char>, part: Seq<char>) -> Seq<char>;

/// `Path::join` on UTF-8 paths, giving the joined path as text.
#[verifier::external_body]
pub(crate) fn join(base: &str, part: &str) -> (r: String)
    ensures
        r@ == path_join(base@, part@),
{
    std::path::Path::new(base).join(part).to_string_lossy().into_owned()
}

/// The base directory `~/.hypo/`.
pub open spec fn base_dir_of(home: Seq<char>) -> Seq<char> {
    path_join(home, ".hypo"@)
}

/// Returns the base directory `<home>/.hypo`.
pub fn hypo_base_dir(home: &str) -> (r: String)
    ensures
        r@ == base_dir_of(home@),
{
    join(home, ".hypo")
}

/// Returns the configuration file `<home>/.hypo/config.toml`.
pub fn config_path(home: &str) -> (r: String)
    ensures
        r@ == path_join(base_dir_of(home@), "config.toml"@),
{
    join(hypo_base_dir(home).as_str(), DEFAULT_CONFIG_FILENAME)
}

/// Returns the cache directory `<home>/.hypo/cache`.
pub fn cache_dir(home: &str) -> (r: String)
    ensures
        r@ == path_join(base_dir_of(home@), "cache"@),
{
    join(hypo_base_dir(home).as_str(), CACHE_DIR_NAME)
}

/// Returns the keyring directory `<home>/.hypo/keyring`.
pub fn keyring_dir(home: &str) -> (r: String)
    ensures
        r@ == path_join(base_dir_of(home@), "keyring"@),
{
    join(hypo_base_dir(home).as_str(), KEYRING_DIR_NAME)
}

/// Returns the temporary directory `<home>/.hypo/tmp`.
pub fn tmp_dir(home: &str) -> (r: String)
    ensures
        r@ == path_join(base_dir_of(home@), "tmp"@),
{
    join(hypo_base_dir(home).as_str(), TMP_DIR_NAME)
}

/// Returns the database file `<home>/.hypo/hypo.db`.
pub fn db_path(home: &str) -> (r: String)
    ensures
        r@ == path_join(base_dir_of(home@), "hypo.db"@),
{
    join(hypo_base_dir(home).as_str(), DEFAULT_DB_FILENAME)
}

/// Returns the log directory `<home>/.hypo/logs`.
pub fn logs_dir(home: &str) -> (r: String)
    ensures
        r@ == path_join(base_dir_of(home@), "logs"@),
{
    join(hypo_base_dir(home).as_str(), LOGS_DIR_NAME)
}

/// The directories that `hypo init` creates, in order: base, cache, keyring, tmp
/// and logs.
pub fn required_dirs(home: &str) -> (r: Vec<String>)
    ensures
        r@.len() == 5,
        r@[0]@ == base_dir_of(home@),
        r@[1]@ == path_join(base_dir_of(home@), "cache"@),
        r@[2]@ == path_join(base_dir_of(home@), "keyring"@),
        r@[3]@ == path_join(base_dir_of(home@), "tmp"@),
        r@[4]@ == path_join(base_dir_of(home@), "logs"@),
{
    let mut v: Vec<String> = Vec::new();
    v.push(hypo_base_dir(home));
    v.push(cache_dir(home));
    v.push(keyring_dir(home));
    v.push(tmp_dir(home));
    v.push(logs_dir(home));
    v
}

} // verus!
