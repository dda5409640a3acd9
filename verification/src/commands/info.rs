//! Package references `@owner/pkg` as `hypo info` and `hypo uninstall` read them.

use vstd::prelude::*;

use crate::error::{ErrorKind, HypoError};
use crate::text::{chars_index_of, concat, index_of, slice_chars, str_chars, string_of};

verus! {

/// `input` without a leading `@`.
pub open spec fn strip_at(input: Seq<char>) -> Seq<char> {
    if input.len() > 0 && input[0] == '@' {
        input.drop_first()
    } else {
        input
    }
}

/// `(owner, name)` of `@owner/pkg` (the `@` is optional), split at the first `/`.
pub open spec fn package_parts(input: Seq<char>) -> Option<(Seq<char>, Seq<char>)> {
    let s = strip_at(input);
    match index_of(s, '/') {
        Some(k) => Some((s.subrange(0, k), s.subrange(k + 1, s.len() as int))),
        None => None,
    }
}

fn split_package(input: &str) -> (r: Option<(String, String)>)
    ensures
        match package_parts(input@) {
            Some((o, n)) => r matches Some(p) && p.0@ == o && p.1@ == n,
            None => r is None,
        },
{
    let v = str_chars(input);
    let s = if v.len() > 0 && v[0] == '@' {
        slice_chars(&v, 1, v.len())
    } else {
        slice_chars(&v, 0, v.len())
    };
    assert(v@.subrange(0, v@.len() as int) == v@);
    let n = s.len();
    match chars_index_of(&s, '/') {
        Some(k) => Some((string_of(slice_chars(&s, 0, k).as_slice()), string_of(slice_chars(&s, k + 1, n).as_slice()))),
        None => None,
    }
}

/// Parses `@owner/pkg` for `hypo info`; the error names the reference without `@`.
pub fn parse_package(input: &str) -> (r: Result<(String, String), HypoError>)
    ensures
        match package_parts(input@) {
            Some((o, n)) => r matches Ok(p) && p.0@ == o && p.1@ == n,
            None => r matches Err(e) && e@ == (
                ErrorKind::Config,
                "无效的包名格式: "@ + strip_at(input@) + "，应为 @owner/pkg"@,
            ),
        },
{
    match split_package(input) {
        Some(p) => Ok(p),
        None => {
            let v = str_chars(input);
            let s = if v.len() > 0 && v[0] == '@' {
                slice_chars(&v, 1, v.len())
            } else {
                slice_chars(&v, 0, v.len())
            };
            assert(v@.subrange(0, v@.len() as int) == v@);
            let shown = string_of(s.as_slice());
            let a = concat("无效的包名格式: ", shown.as_str());
            Err(HypoError::Config(concat(a.as_str(), "，应为 @owner/pkg")))
        },
    }
}

/// Parses `@owner/pkg` for `hypo uninstall`; the error names the reference as given.
pub fn parse_uninstall_target(package: &str) -> (r: Result<(String, String), HypoError>)
    ensures
        match package_parts(package@) {
            Some((o, n)) => r matches Ok(p) && p.0@ == o && p.1@ == n,
            None => r matches Err(e) && e@ == (
                ErrorKind::Config,
                "无效的包名格式: "@ + package@ + "，应为 @owner/pkg"@,
            ),
        },
{
    match split_package(package) {
        Some(p) => Ok(p),
        None => {
            let a = concat("无效的包名格式: ", package);
            Err(HypoError::Config(concat(a.as_str(), "，应为 @owner/pkg")))
        },
    }
}

} // verus!
