//! The GPG keys that GitHub publishes for a user: where they are listed, and
//! their fingerprints.

use vstd::prelude::*;

use crate::registry::trust::opt_view;
use crate::text::concat;

verus! {

/// The fingerprint (upper-case hexadecimal) of the OpenPGP certificate that
/// `sequoia_openpgp::Cert::from_bytes` reads from `data`, or `None` when it reads
/// none.
pub uninterp spec fn cert_fingerprint_of(data: Seq<u8>) -> Option<Seq<char>>;

/// Calls `sequoia_openpgp::Cert::from_bytes` on `data` and, when it succeeds,
/// `Fingerprint::to_hex` on the certificate's fingerprint.
#[verifier::external_body]
pub(crate) fn parse_cert_fingerprint(data: &[u8]) -> (r: Option<String>)
    ensures
        opt_view(r) == cert_fingerprint_of(data@),
{
    match <sequoia_openpgp::Cert as sequoia_openpgp::parse::Parse<'_, sequoia_openpgp::Cert>>::from_bytes(data) {
        Ok(cert) => Some(cert.fingerprint().to_hex()),
        Err(_) => None,
    }
}

/// The GitHub API endpoint listing a user's GPG keys.
pub fn gpg_keys_url(username: &str) -> (r: String)
    ensures
        r@ == "https://api.github.com/users/"@ + username@ + "/gpg_keys"@,
{
    let a = concat("https://api.github.com/users/", username);
    concat(a.as_str(), "/gpg_keys")
}

/// The fingerprints of the published keys, in order: keys without an armored
/// key block, and blocks that do not parse as a certificate, are skipped.
pub open spec fn published_fingerprints(raw_keys: Seq<Option<Seq<u8>>>) -> Seq<Seq<char>>
    decreases raw_keys.len(),
{
    if raw_keys.len() == 0 {
        Seq::empty()
    } else {
        let rest = published_fingerprints(raw_keys.drop_last());
        match raw_keys.last() {
            Some(data) => match cert_fingerprint_of(data) {
                Some(fp) => rest.push(fp),
                None => rest,
            },
            None => rest,
        }
    }
}

/// The bytes of each published key block, if it has one.
pub open spec fn raw_key_bytes(raw_keys: Seq<Option<String>>) -> Seq<Option<Seq<u8>>> {
    raw_keys.map_values(|k: Option<String>| match k {
        Some(s) => Some(vstd::utf8::encode_utf8(s@)),
        None => None,
    })
}

/// Reads the fingerprints of the keys GitHub lists for a user (`raw_keys` holds
/// each key's armored block, if it has one).
pub fn gpg_key_fingerprints(raw_keys: &[Option<String>]) -> (r: Vec<String>)
    ensures
        r@.map_values(|s: String| s@) == published_fingerprints(raw_key_bytes(raw_keys@)),
{
    let mut out: Vec<String> = Vec::new();
    let mut i: usize = 0;
    while i < raw_keys.len()
        invariant
            i <= raw_keys@.len(),
            out@.map_values(|s: String| s@) == published_fingerprints(raw_key_bytes(raw_keys@).take(i as int)),
        decreases raw_keys@.len() - i,
    {
        let ghost before = out@;
        assert(raw_key_bytes(raw_keys@).take(i as int + 1).drop_last() =~= raw_key_bytes(raw_keys@).take(i as int));
        if let Some(raw) = &raw_keys[i] {
            if let Some(fp) = parse_cert_fingerprint(raw.as_str().as_bytes()) {
                out.push(fp);
            }
        }
        assert(out@.map_values(|s: String| s@) =~= published_fingerprints(raw_key_bytes(raw_keys@).take(i as int + 1)));
        i = i + 1;
    }
    assert(raw_key_bytes(raw_keys@).take(raw_keys@.len() as int) =~= raw_key_bytes(raw_keys@));
    out
}

} // verus!
