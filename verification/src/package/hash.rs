//! SHA256 digests of package files and their check against the manifest.

use vstd::prelude::*;

use sha2::Digest;

use crate::error::{ErrorKind, HypoError};
use crate::package::manifest::Manifest;
use crate::str_map::{pairs_represent, StrMap};
use crate::text::{
    chars_eq_ignore_ascii_case, concat, contains_chars, contains_seq, eq_ignore_ascii_case,
    str_chars, str_eq, string_of,
};

verus! {

/// The SHA256 digest of `data`, as the `sha2` crate computes it.
pub uninterp spec fn sha256(data: Seq<u8>) -> Seq<u8>;

/// `sha2::Sha256::digest`: the 32-byte SHA256 digest of `data`.
#[verifier::external_body]
fn sha256_digest(data: &[u8]) -> (r: Vec<u8>)
    ensures
        r@ == sha256(data@),
        r@.len() == 32,
{
    sha2::Sha256::digest(data).to_vec()
}

/// The lower-case hexadecimal digit for `n < 16`.
pub open spec fn hex_digit(n: u8) -> char {
    if n < 10 {
        ((48 + n) as u8) as char
    } else {
        ((87 + n) as u8) as char
    }
}

/// Lower-case hexadecimal encoding, two digits per byte, most significant first.
pub open spec fn hex_lower(bytes: Seq<u8>) -> Seq<char>
    decreases bytes.len(),
{
    if bytes.len() == 0 {
        Seq::<char>::empty()
    } else {
        let b = bytes.last();
        hex_lower(bytes.drop_last()) + seq![hex_digit(b / 16), hex_digit(b % 16)]
    }
}

proof fn lemma_hex_lower_len(bytes: Seq<u8>)
    ensures
        hex_lower(bytes).len() == 2 * bytes.len(),
    decreases bytes.len(),
{
    if bytes.len() > 0 {
        lemma_hex_lower_len(bytes.drop_last());
    }
}

fn hex_digit_exec(n: u8) -> (r: char)
    requires
        n < 16,
    ensures
        r == hex_digit(n),
{
    if n < 10 {
        (48 + n) as char
    } else {
        (87 + n) as char
    }
}

/// Lower-case hexadecimal text of `bytes`.
pub fn to_hex_lower(bytes: &[u8]) -> (r: String)
    ensures
        r@ == hex_lower(bytes@),
        r@.len() == 2 * bytes@.len(),
{
    let mut out: Vec<char> = Vec::new();
    let mut i: usize = 0;
    while i < bytes.len()
        invariant
            i <= bytes@.len(),
            out@ == hex_lower(bytes@.take(i as int)),
        decreases bytes@.len() - i,
    {
        let b = bytes[i];
        out.push(hex_digit_exec(b / 16));
        out.push(hex_digit_exec(b % 16));
        assert(bytes@.take(i as int + 1).drop_last() == bytes@.take(i as int));
        i = i + 1;
    }
    assert(bytes@.take(bytes@.len() as int) == bytes@);
    proof {
        lemma_hex_lower_len(bytes@);
    }
    string_of(out.as_slice())
}

/// The SHA256 digest of `data` as 64 lower-case hexadecimal digits.
pub fn sha256_hex(data: &[u8]) -> (r: String)
    ensures
        r@ == hex_lower(sha256(data@)),
        r@.len() == 64,
{
    let d = sha256_digest(data);
    to_hex_lower(d.as_slice())
}

/// A manifest path that could leave the extraction directory: it holds `..` or a
/// backslash.
pub open spec fn is_unsafe_path(p: Seq<char>) -> bool {
    contains_seq(p, ".."@) || p.contains('\\')
}

/// What is wrong with one declared file, if anything, given the digests of the
/// files that were found (by path).
pub open spec fn file_check_error(
    path: Seq<char>,
    expected: Seq<char>,
    actual: Map<Seq<char>, Seq<char>>,
) -> Option<Seq<char>> {
    if is_unsafe_path(path) {
        Some("manifest 中包含非法文件路径: "@ + path)
    } else if !actual.contains_key(path) {
        Some("manifest 声明的文件在包中不存在: "@ + path)
    } else if !eq_ignore_ascii_case(actual[path], expected) {
        Some("文件 "@ + path + " SHA256 不匹配：期望 "@ + expected + "，实际 "@ + actual[path])
    } else {
        None
    }
}

/// Every file the manifest declares passes its check.
pub open spec fn all_files_match(declared: Map<Seq<char>, Seq<char>>, actual: Map<Seq<char>, Seq<char>>) -> bool {
    forall|p: Seq<char>|
        #[trigger] declared.contains_key(p) ==> file_check_error(p, declared[p], actual) is None
}

/// The one file of a package that `[hashes]` does not list: the manifest itself.
pub open spec fn is_manifest_file(p: Seq<char>) -> bool {
    p == "manifest.toml"@
}

/// Every file found in the package is declared in the manifest (the manifest
/// itself aside).
pub open spec fn no_undeclared_files(declared: Map<Seq<char>, Seq<char>>, actual: Map<Seq<char>, Seq<char>>) -> bool {
    forall|p: Seq<char>| #[trigger] actual.contains_key(p) ==> declared.contains_key(p) || is_manifest_file(p)
}

/// The error detail for a file that the package holds and the manifest does not
/// declare.
pub open spec fn undeclared_file_error(path: Seq<char>) -> Seq<char> {
    "包内存在 manifest 未声明的文件: "@ + path
}

/// Whether a manifest path could leave the extraction directory.
pub fn path_is_unsafe(path: &str) -> (r: bool)
    ensures
        r == is_unsafe_path(path@),
{
    let p = str_chars(path);
    let dots = str_chars("..");
    let mut backslash: Vec<char> = Vec::new();
    backslash.push('\\');
    let has_backslash = contains_chars(&p, &backslash);
    proof {
        if has_backslash {
            let i = choose|i: int| crate::text::occurs_at(p@, backslash@, i);
            assert(p@.subrange(i, i + 1)[0] == p@[i]);
        }
        if p@.contains('\\') {
            let i = choose|i: int| 0 <= i < p@.len() && p@[i] == '\\';
            assert(p@.subrange(i, i + 1) =~= backslash@);
            assert(crate::text::occurs_at(p@, backslash@, i));
        }
    }
    contains_chars(&p, &dots) || has_backslash
}

/// A manifest that declares a path able to leave the extraction directory (one
/// holding `..` or a backslash) never passes the file check, whatever the files.
pub proof fn law_unsafe_paths_never_pass(
    declared: Map<Seq<char>, Seq<char>>,
    actual: Map<Seq<char>, Seq<char>>,
    path: Seq<char>,
)
    requires
        declared.contains_key(path),
        is_unsafe_path(path),
    ensures
        !all_files_match(declared, actual),
{
    assert(file_check_error(path, declared[path], actual) is Some);
}

fn check_one(path: &String, expected: &String, actual: &StrMap<String>) -> (r: Result<(), HypoError>)
    ensures
        match file_check_error(path@, expected@, actual@) {
            Some(m) => r matches Err(e) && e@ == (ErrorKind::HashMismatch, m),
            None => r is Ok,
        },
{
    if path_is_unsafe(path.as_str()) {
        return Err(HypoError::HashMismatch(concat("manifest 中包含非法文件路径: ", path.as_str())));
    }
    match actual.get(path.as_str()) {
        None => Err(
            HypoError::HashMismatch(concat("manifest 声明的文件在包中不存在: ", path.as_str())),
        ),
        Some(found) => {
            let a = str_chars(found.as_str());
            let e = str_chars(expected.as_str());
            if !chars_eq_ignore_ascii_case(&a, &e) {
                let m1 = concat("文件 ", path.as_str());
                let m2 = concat(m1.as_str(), " SHA256 不匹配：期望 ");
                let m3 = concat(m2.as_str(), expected.as_str());
                let m4 = concat(m3.as_str(), "，实际 ");
                Err(HypoError::HashMismatch(concat(m4.as_str(), found.as_str())))
            } else {
                Ok(())
            }
        },
    }
}

/// Checks the files of an extracted package against the manifest's `[hashes]`.
///
/// `actual` maps each file path found in the extracted package (relative, with
/// `/` separators) to the lower-case hexadecimal SHA256 of its contents. Every
/// declared path must be safe (no `..`, no backslash), present in `actual`, and
/// its digest must equal the declared one up to ASCII case; and every file found,
/// `manifest.toml` aside, must be declared. Missing and extra files are both
/// errors: a hash mismatch is reported for one offending file, the declared files
/// being checked first.
pub fn verify_files(manifest: &Manifest, actual: &StrMap<String>) -> (r: Result<(), HypoError>)
    ensures
        r is Ok <==> all_files_match(manifest.hashes@, actual@) && no_undeclared_files(manifest.hashes@, actual@),
        r matches Err(e) ==> e@.0 == ErrorKind::HashMismatch && ((exists|p: Seq<char>|
            #[trigger] manifest.hashes@.contains_key(p) && file_check_error(
                p,
                manifest.hashes@[p],
                actual@,
            ) == Some(e@.1)) || (all_files_match(manifest.hashes@, actual@) && exists|p: Seq<char>|
            #[trigger] actual@.contains_key(p) && !manifest.hashes@.contains_key(p) && !is_manifest_file(p)
                && e@.1 == undeclared_file_error(p))),
{
    let pairs = manifest.hashes.as_pairs();
    let ghost declared = manifest.hashes@;
    let mut i: usize = 0;
    while i < pairs.len()
        invariant
            i <= pairs@.len(),
            pairs_represent(pairs@, declared),
            declared == manifest.hashes@,
            forall|j: int|
                0 <= j < i ==> file_check_error(
                    (#[trigger] pairs@[j]).0@,
                    pairs@[j].1@,
                    actual@,
                ) is None,
        decreases pairs@.len() - i,
    {
        let (path, expected) = (&pairs[i].0, &pairs[i].1);
        match check_one(path, expected, actual) {
            Err(e) => {
                assert(declared.contains_key(pairs@[i as int].0@));
                return Err(e);
            },
            Ok(()) => {},
        }
        i = i + 1;
    }
    assert forall|p: Seq<char>| #[trigger] declared.contains_key(p) implies file_check_error(
        p,
        declared[p],
        actual@,
    ) is None by {
        let j = choose|j: int| 0 <= j < pairs@.len() && pairs@[j].0@ == p;
        assert(file_check_error(pairs@[j].0@, pairs@[j].1@, actual@) is None);
    }
    let found = actual.as_pairs();
    let mut k: usize = 0;
    while k < found.len()
        invariant
            k <= found@.len(),
            pairs_represent(found@, actual@),
            declared == manifest.hashes@,
            all_files_match(declared, actual@),
            forall|j: int|
                0 <= j < k ==> declared.contains_key((#[trigger] found@[j]).0@) || is_manifest_file(found@[j].0@),
        decreases found@.len() - k,
    {
        let p = &found[k].0;
        if !manifest.hashes.contains_key(p.as_str()) && !str_eq(p.as_str(), "manifest.toml") {
            assert(actual@.contains_key(found@[k as int].0@));
            return Err(HypoError::HashMismatch(concat("包内存在 manifest 未声明的文件: ", p.as_str())));
        }
        k = k + 1;
    }
    assert forall|p: Seq<char>| #[trigger] actual@.contains_key(p) implies declared.contains_key(p) || is_manifest_file(p) by {
        let j = choose|j: int| 0 <= j < found@.len() && found@[j].0@ == p;
        assert(declared.contains_key(found@[j].0@) || is_manifest_file(found@[j].0@));
    }
    Ok(())
}

} // verus!
