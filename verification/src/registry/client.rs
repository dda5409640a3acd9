//! What the registry client fetches, and the SHA256 check of a developer shard
//! against the digests that `registry.json` registers.
//!
//! The HTTP requests themselves are made by the caller.

use vstd::prelude::*;

use crate::constants::OFFICIAL_DIR_BASE_URL;
use crate::error::{ErrorKind, HypoError};
use crate::package::hash::{hex_lower, sha256, sha256_hex};
use crate::registry::trust::{owner_error, validate_owner};
use crate::registry::types::RegistryJson;
use crate::str_map::StrMap;
use crate::text::{
    ascii_lower, char_ascii_lower, chars_eq_ignore_ascii_case, chars_starts_with, concat,
    eq_ignore_ascii_case, push_char, slice_chars, starts_with, str_chars, string_of,
};

verus! {

/// The URL of a file of the official directory, such as `registry.json`.
pub fn official_url(file: &str) -> (r: String)
    ensures
        r@ == OFFICIAL_DIR_BASE_URL@ + "/"@ + file@,
{
    let a = concat(OFFICIAL_DIR_BASE_URL, "/");
    concat(a.as_str(), file)
}

/// The path of an owner's shard: `{first letter, lower case}/{owner}.json`.
pub open spec fn shard_path_of(owner: Seq<char>) -> Seq<char> {
    seq![ascii_lower(owner[0])] + "/"@ + owner + ".json"@
}

/// The shard path of `owner`, once the owner name is valid; the name error
/// otherwise.
pub fn shard_path(owner: &str) -> (r: Result<String, HypoError>)
    ensures
        match owner_error(owner@) {
            Some(m) => r matches Err(e) && e@ == (ErrorKind::RegistryNotFound, m),
            None => r matches Ok(p) && p@ == shard_path_of(owner@),
        },
{
    validate_owner(owner)?;
    let v = str_chars(owner);
    let mut first = String::new();
    push_char(&mut first, char_ascii_lower(v[0]));
    let a = concat(first.as_str(), "/");
    let b = concat(a.as_str(), owner);
    let p = concat(b.as_str(), ".json");
    assert(p@ == shard_path_of(owner@));
    Ok(p)
}

/// A registered shard digest, with an optional `sha256:` prefix taken off.
pub open spec fn digest_text(expected: Seq<char>) -> Seq<char> {
    if starts_with(expected, "sha256:"@) {
        expected.skip(7)
    } else {
        expected
    }
}

/// The outcome of checking a shard's bytes against the digest registered for
/// its path: `None` when it matches, else the detail of the hash error.
pub open spec fn shard_hash_error(raw: Seq<u8>, shard_path: Seq<char>, hashes: Map<Seq<char>, Seq<char>>) -> Option<Seq<char>> {
    if !hashes.contains_key(shard_path) {
        Some("分片 "@ + shard_path + " 的 SHA256 哈希未在 registry.json 中登记，拒绝信任"@)
    } else {
        let expected = digest_text(hashes[shard_path]);
        let actual = hex_lower(sha256(raw));
        if eq_ignore_ascii_case(actual, expected) {
            None
        } else {
            Some("分片 "@ + shard_path + " SHA256 不匹配：期望 "@ + expected + "，实际 "@ + actual)
        }
    }
}

/// Checks the SHA256 of a shard file against the digest registered for its path
/// in `hashes` (hexadecimal, any case, with or without `sha256:`). A shard with no
/// registered digest is refused.
pub fn check_shard_digest(raw: &[u8], shard_path: &str, hashes: &StrMap<String>) -> (r: Result<(), HypoError>)
    ensures
        match shard_hash_error(raw@, shard_path@, hashes@) {
            Some(m) => r matches Err(e) && e@ == (ErrorKind::HashMismatch, m),
            None => r is Ok,
        },
{
    let expected = match hashes.get(shard_path) {
        Some(e) => e,
        None => {
            let a = concat("分片 ", shard_path);
            return Err(
                HypoError::HashMismatch(concat(a.as_str(), " 的 SHA256 哈希未在 registry.json 中登记，拒绝信任")),
            );
        },
    };
    let actual = sha256_hex(raw);
    let ev = str_chars(expected.as_str());
    let prefix = str_chars("sha256:");
    proof {
        reveal_strlit("sha256:");
    }
    let digest: Vec<char> = if chars_starts_with(&ev, &prefix) {
        slice_chars(&ev, 7, ev.len())
    } else {
        ev
    };
    assert(digest@ == digest_text(expected@)) by {
        if starts_with(expected@, "sha256:"@) {
            assert(expected@.skip(7) =~= expected@.subrange(7, expected@.len() as int));
        }
    }
    let av = str_chars(actual.as_str());
    if !chars_eq_ignore_ascii_case(&av, &digest) {
        let d = string_of(digest.as_slice());
        let a = concat("分片 ", shard_path);
        let b = concat(a.as_str(), " SHA256 不匹配：期望 ");
        let c = concat(b.as_str(), d.as_str());
        let e = concat(c.as_str(), "，实际 ");
        return Err(HypoError::HashMismatch(concat(e.as_str(), actual.as_str())));
    }
    Ok(())
}

/// Checks the SHA256 of a shard file against the digest that `registry.json`
/// registers for its path.
pub fn verify_shard_hash(raw: &[u8], shard_path: &str, registry: &RegistryJson) -> (r: Result<(), HypoError>)
    ensures
        match shard_hash_error(raw@, shard_path@, registry.shard_hashes@) {
            Some(m) => r matches Err(e) && e@ == (ErrorKind::HashMismatch, m),
            None => r is Ok,
        },
{
    check_shard_digest(raw, shard_path, &registry.shard_hashes)
}

/// The URL of a developer registry's package index.
pub fn hypo_index_url(base_pkg_url: &str) -> (r: String)
    ensures
        r@ == base_pkg_url@ + "/hypo-index.json"@,
{
    concat(base_pkg_url, "/hypo-index.json")
}

/// The URL of a file of one version of a package: `{base}/{pkg}/{ver}/{file}`.
pub fn version_file_url(base_pkg_url: &str, pkg: &str, ver: &str, file: &str) -> (r: String)
    ensures
        r@ == base_pkg_url@ + "/"@ + pkg@ + "/"@ + ver@ + "/"@ + file@,
{
    let a = concat(base_pkg_url, "/");
    let b = concat(a.as_str(), pkg);
    let c = concat(b.as_str(), "/");
    let d = concat(c.as_str(), ver);
    let e = concat(d.as_str(), "/");
    concat(e.as_str(), file)
}

} // verus!
