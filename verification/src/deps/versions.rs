//! Semantic versions and version requirements, as the `semver` crate parses,
//! orders and matches them.

use vstd::prelude::*;

verus! {

/// Whether `semver::Version::parse` accepts `text`.
pub uninterp spec fn semver_version_valid(text: Seq<char>) -> bool;

/// For two texts that `semver::Version::parse` accepts: whether the first version
/// has lower precedence than the second under `semver::Version`'s `Ord`.
pub uninterp spec fn semver_precedes(a: Seq<char>, b: Seq<char>) -> bool;

/// `None` when `semver::VersionReq::parse` accepts `text`; otherwise the text that
/// the parse error displays.
pub uninterp spec fn semver_req_error(text: Seq<char>) -> Option<Seq<char>>;

/// Whether `semver::VersionReq::parse` accepts `text`.
pub open spec fn semver_req_valid(text: Seq<char>) -> bool {
    semver_req_error(text) is None
}

/// For a requirement and a version that both parse: whether
/// `semver::VersionReq::matches` holds.
pub uninterp spec fn semver_req_matches(req: Seq<char>, version: Seq<char>) -> bool;

/// Calls `semver::Version::parse` and tells whether it succeeded. A version that
/// parses does not have lower precedence than itself.
#[verifier::external_body]
pub(crate) fn version_is_valid(text: &str) -> (r: bool)
    ensures
        r == semver_version_valid(text@),
        r ==> !semver_precedes(text@, text@),
{
    semver::Version::parse(text).is_ok()
}

/// Compares two parsed versions with `<` of `semver::Version`, whose `Ord` is
/// derived over (major, minor, patch, pre-release, build) and is a total order:
/// the result is asymmetric and transitive.
#[verifier::external_body]
pub(crate) fn version_precedes(a: &str, b: &str) -> (r: bool)
    requires
        semver_version_valid(a@),
        semver_version_valid(b@),
    ensures
        r == semver_precedes(a@, b@),
        r ==> !semver_precedes(b@, a@),
        r ==> forall|c: Seq<char>|
            semver_precedes(b@, c) ==> #[trigger] semver_precedes(a@, c),
{
    match (semver::Version::parse(a), semver::Version::parse(b)) {
        (Ok(x), Ok(y)) => x < y,
        _ => false,
    }
}

/// Calls `semver::VersionReq::parse`; on failure returns the text of its error.
#[verifier::external_body]
pub(crate) fn req_parse_error(text: &str) -> (r: Option<String>)
    ensures
        r is None <==> semver_req_error(text@) is None,
        r matches Some(m) ==> semver_req_error(text@) == Some(m@),
{
    match semver::VersionReq::parse(text) {
        Ok(_) => None,
        Err(e) => Some(e.to_string()),
    }
}

/// Calls `semver::VersionReq::matches` on a parsed requirement and version.
#[verifier::external_body]
pub(crate) fn req_matches(req: &str, version: &str) -> (r: bool)
    requires
        semver_req_valid(req@),
        semver_version_valid(version@),
    ensures
        r == semver_req_matches(req@, version@),
{
    match (semver::VersionReq::parse(req), semver::Version::parse(version)) {
        (Ok(q), Ok(v)) => q.matches(&v),
        _ => false,
    }
}

} // verus!
