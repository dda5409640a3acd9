//! The trust model for developer registries reached by URL. Developer identity
//! rests on the GPG fingerprints of the official shard; the hosting platform only
//! decides how a public key is fetched.

use vstd::prelude::*;

use crate::crypto::github::{cert_fingerprint_of, parse_cert_fingerprint};
use crate::crypto::verify::{check_fingerprint_trusted, fingerprint_in};
use crate::error::{display_prefix, ErrorKind, HypoError};
use crate::registry::types::ShardJson;
use crate::text::{
    chars_ends_with, chars_eq, chars_eq_ignore_ascii_case, eq_ignore_ascii_case, concat, contains_chars, contains_seq, ends_with, slice_chars,
    str_chars, string_of,
};

verus! {

/// The parts of a parsed URL that the trust model reads.
pub struct UrlParts {
    /// The user name of the URL's userinfo (empty when there is none).
    pub username: String,
    /// Whether the URL carries a password.
    pub has_password: bool,
    /// The host, as the `url` crate serialises it.
    pub host: Option<String>,
}

/// The view of an optional string.
pub open spec fn opt_view(o: Option<String>) -> Option<Seq<char>> {
    match o {
        Some(s) => Some(s@),
        None => None,
    }
}

/// What `url::Url::from_str` gives for `text`: `None` when it fails, otherwise the
/// user name, whether there is a password, and the host.
pub uninterp spec fn url_parse(text: Seq<char>) -> Option<(Seq<char>, bool, Option<Seq<char>>)>;

/// Parses a URL with `url::Url::from_str` and reads its user name, password and host.
#[verifier::external_body]
fn parse_url(text: &str) -> (r: Option<UrlParts>)
    ensures
        match r {
            None => url_parse(text@) is None,
            Some(p) => url_parse(text@) == Some((p.username@, p.has_password, opt_view(p.host))),
        },
{
    match <url::Url as std::str::FromStr>::from_str(text) {
        Ok(u) => Some(
            UrlParts {
                username: u.username().to_string(),
                has_password: u.password().is_some(),
                host: u.host_str().map(|h| h.to_string()),
            },
        ),
        Err(_) => None,
    }
}

/// `str::to_lowercase`: Unicode lower case.
pub uninterp spec fn unicode_lowercase(text: Seq<char>) -> Seq<char>;

/// Calls `str::to_lowercase`; the result is the text's Unicode lower case, as
/// named by `unicode_lowercase`.
#[verifier::external_body]
fn to_lowercase(text: &str) -> (r: String)
    ensures
        r@ == unicode_lowercase(text@),
{
    text.to_lowercase()
}

/// The lower-cased host of a URL (`https://` is assumed when the text has no
/// scheme), or `None` when it does not parse, has no host, or carries userinfo.
pub open spec fn extract_host_spec(raw: Seq<char>) -> Option<Seq<char>> {
    let u = if contains_seq(raw, "://"@) {
        raw
    } else {
        "https://"@ + raw
    };
    match url_parse(u) {
        None => None,
        Some((user, password, host)) => if user.len() != 0 || password {
            None
        } else {
            match host {
                None => None,
                Some(h) => Some(unicode_lowercase(h)),
            }
        },
    }
}

/// Extracts the lower-cased host of a URL; a URL with userinfo (a phishing trick)
/// gives none.
pub fn extract_host(raw_url: &str) -> (r: Option<String>)
    ensures
        opt_view(r) == extract_host_spec(raw_url@),
{
    let raw = str_chars(raw_url);
    let sep = str_chars("://");
    let url_text = if contains_chars(&raw, &sep) {
        String::from_str(raw_url)
    } else {
        concat("https://", raw_url)
    };
    match parse_url(url_text.as_str()) {
        None => None,
        Some(parts) => {
            if !parts.username.as_str().is_empty() || parts.has_password {
                return None;
            }
            match parts.host {
                None => None,
                Some(h) => Some(to_lowercase(h.as_str())),
            }
        },
    }
}

/// A GitHub Pages host: `github.io` or a subdomain of it.
pub open spec fn is_github_pages_host_spec(host: Seq<char>) -> bool {
    host == "github.io"@ || ends_with(host, ".github.io"@)
}

/// Whether a host is a GitHub Pages host.
pub fn is_github_pages_host(host: &str) -> (r: bool)
    ensures
        r == is_github_pages_host_spec(host@),
{
    let h = str_chars(host);
    let root = str_chars("github.io");
    let suffix = str_chars(".github.io");
    chars_eq(&h, &root) || chars_ends_with(&h, &suffix)
}

/// Whether a URL is hosted on GitHub Pages. This only decides how a public key is
/// fetched, never whether it is trusted.
pub fn is_github_pages_url(url: &str) -> (r: bool)
    ensures
        r == (extract_host_spec(url@) matches Some(h) && is_github_pages_host_spec(h)),
{
    match extract_host(url) {
        Some(h) => is_github_pages_host(h.as_str()),
        None => false,
    }
}

/// The GitHub user name of a GitHub Pages URL: the host without `.github.io`, when
/// that is not empty.
pub open spec fn github_username_spec(url: Seq<char>) -> Option<Seq<char>> {
    match extract_host_spec(url) {
        None => None,
        Some(h) => if is_github_pages_host_spec(h) && ends_with(h, ".github.io"@) && h.len()
            > ".github.io"@.len() {
            Some(h.subrange(0, h.len() - ".github.io"@.len()))
        } else {
            None
        },
    }
}

/// Extracts the GitHub user name from a GitHub Pages URL.
pub fn extract_github_username(url: &str) -> (r: Option<String>)
    ensures
        opt_view(r) == github_username_spec(url@),
{
    let host = match extract_host(url) {
        Some(h) => h,
        None => return None,
    };
    if !is_github_pages_host(host.as_str()) {
        return None;
    }
    let h = str_chars(host.as_str());
    let suffix = str_chars(".github.io");
    if !chars_ends_with(&h, &suffix) {
        return None;
    }
    let n = h.len() - suffix.len();
    if n == 0 {
        return None;
    }
    let user = slice_chars(&h, 0, n);
    Some(string_of(user.as_slice()))
}

/// A character allowed in an owner name: an ASCII letter or digit, or `-`.
pub open spec fn is_owner_char(c: char) -> bool {
    ('a' <= c && c <= 'z') || ('A' <= c && c <= 'Z') || ('0' <= c && c <= '9') || c == '-'
}

/// The length in bytes that `str::len` reports for a string with these characters.
pub open spec fn utf8_len(s: Seq<char>) -> usize {
    vstd::utf8::encode_utf8(s).len() as usize
}

/// The detail text of the error that `validate_owner` reports, if any. The length
/// limit counts UTF-8 bytes.
pub open spec fn owner_error(owner: Seq<char>) -> Option<Seq<char>> {
    if owner.len() == 0 || utf8_len(owner) > 39 {
        Some("无效的 owner 名称："@ + owner)
    } else if !(forall|i: int| 0 <= i < owner.len() ==> #[trigger] is_owner_char(owner[i])) {
        Some("owner 名称包含非法字符："@ + owner)
    } else {
        None
    }
}

/// Every GitHub-style user name is accepted as an owner: one to 39 characters,
/// each an ASCII letter, an ASCII digit or a hyphen.
pub proof fn law_github_names_are_valid_owners(owner: Seq<char>)
    requires
        1 <= owner.len() <= 39,
        forall|i: int|
            0 <= i < owner.len() ==> ('a' <= #[trigger] owner[i] && owner[i] <= 'z') || ('A' <= owner[i] && owner[i]
                <= 'Z') || ('0' <= owner[i] && owner[i] <= '9') || owner[i] == '-',
    ensures
        owner_error(owner) is None,
{
    assert(vstd::utf8::is_ascii_chars(owner));
    vstd::utf8::is_ascii_chars_encode_utf8(owner);
    assert forall|i: int| 0 <= i < owner.len() implies #[trigger] is_owner_char(owner[i]) by {}
}

/// Checks that an owner name follows GitHub's user name rules: 1 to 39 bytes, only
/// ASCII letters, digits and hyphens.
pub fn validate_owner(owner: &str) -> (r: Result<(), HypoError>)
    ensures
        match owner_error(owner@) {
            Some(m) => r matches Err(e) && e@ == (ErrorKind::RegistryNotFound, m),
            None => r is Ok,
        },
{
    if owner.is_empty() || owner.len() > 39 {
        return Err(HypoError::RegistryNotFound(concat("无效的 owner 名称：", owner)));
    }
    let v = str_chars(owner);
    let mut i: usize = 0;
    while i < v.len()
        invariant
            i <= v@.len(),
            v@ == owner@,
            !(owner@.len() == 0 || utf8_len(owner@) > 39),
            forall|j: int| 0 <= j < i ==> #[trigger] is_owner_char(v@[j]),
        decreases v@.len() - i,
    {
        let c = v[i];
        if !(('a' <= c && c <= 'z') || ('A' <= c && c <= 'Z') || ('0' <= c && c <= '9') || c
            == '-') {
            assert(!is_owner_char(owner@[i as int]));
            return Err(HypoError::RegistryNotFound(concat("owner 名称包含非法字符：", owner)));
        }
        i = i + 1;
    }
    Ok(())
}

// ── Resolving a developer's public key ────────────────────────────────

/// The developer key to resolve: the first fingerprint declared (a developer
/// usually signs with one key).
pub fn first_fingerprint(fingerprints: &[String]) -> (r: Result<String, HypoError>)
    ensures
        fingerprints@.len() == 0 ==> (r matches Err(e) && e@ == (ErrorKind::GpgNoPubkey, "分片中未声明 GPG 指纹"@)),
        fingerprints@.len() > 0 ==> (r matches Ok(f) && f@ == fingerprints@[0]@),
{
    if fingerprints.len() == 0 {
        return Err(HypoError::GpgNoPubkey(String::from_str("分片中未声明 GPG 指纹")));
    }
    Ok(fingerprints[0].clone())
}

/// The GitHub user whose published keys are looked up for a developer registry
/// at `base`: the owner of a GitHub Pages URL, and none for another host.
pub open spec fn key_owner_spec(base: Seq<char>) -> Option<Seq<char>> {
    if extract_host_spec(base) matches Some(h) && is_github_pages_host_spec(h) {
        github_username_spec(base)
    } else {
        None
    }
}

/// The GitHub user whose published keys are looked up for a developer registry:
/// the owner of a GitHub Pages URL.
pub fn github_key_owner(base_pkg_url: &str) -> (r: Option<String>)
    ensures
        opt_view(r) == key_owner_spec(base_pkg_url@),
{
    if is_github_pages_url(base_pkg_url) {
        extract_github_username(base_pkg_url)
    } else {
        None
    }
}

/// Whether `fingerprint` is among `listed`, ignoring ASCII case.
pub fn fingerprint_listed(fingerprint: &str, listed: &[String]) -> (r: bool)
    ensures
        r == fingerprint_in(fingerprint@, listed@),
{
    check_fingerprint_trusted(fingerprint, listed).is_ok()
}

/// The well-known location of a developer's public key.
pub fn well_known_key_url(base_pkg_url: &str) -> (r: String)
    ensures
        r@ == base_pkg_url@ + "/gpg-key.asc"@,
{
    concat(base_pkg_url, "/gpg-key.asc")
}

/// The detail of the error when no source gave the developer's public key.
pub open spec fn no_pubkey_message(fingerprint: Seq<char>, base_pkg_url: Seq<char>) -> Seq<char> {
    "公钥 "@ + fingerprint + " 未在本地缓存中找到。请将 GPG 公钥导出到 "@ + base_pkg_url
        + "/gpg-key.asc，或通过 hypo install --from-url 的 TOFU 流程手动信任。"@
}

/// The error when no source gave the developer's public key.
pub fn no_pubkey_error(fingerprint: &str, base_pkg_url: &str) -> (r: HypoError)
    ensures
        r@ == (ErrorKind::GpgNoPubkey, no_pubkey_message(fingerprint@, base_pkg_url@)),
{
    let a = concat("公钥 ", fingerprint);
    let b = concat(a.as_str(), " 未在本地缓存中找到。请将 GPG 公钥导出到 ");
    let c = concat(b.as_str(), base_pkg_url);
    HypoError::GpgNoPubkey(concat(c.as_str(), "/gpg-key.asc，或通过 hypo install --from-url 的 TOFU 流程手动信任。"))
}

/// Trust on first use: a key is trusted once it is cached locally; until then the
/// user has to confirm its fingerprint.
pub fn tofu_outcome(cached: bool, fingerprint: &str) -> (r: Result<(), HypoError>)
    ensures
        cached ==> r is Ok,
        !cached ==> (r matches Err(e) && e@ == (
            ErrorKind::SignatureVerification,
            "TOFU 模式：公钥指纹 "@ + fingerprint@ + " 尚未被信任。\n请确认这是开发者的正确指纹后，通过交互式安装流程缓存该公钥。"@,
        )),
{
    if cached {
        return Ok(());
    }
    let a = concat("TOFU 模式：公钥指纹 ", fingerprint);
    Err(
        HypoError::SignatureVerification(
            concat(a.as_str(), " 尚未被信任。\n请确认这是开发者的正确指纹后，通过交互式安装流程缓存该公钥。"),
        ),
    )
}

/// The fingerprints of a shard whose certificates are not cached, in order;
/// `cached[i]` tells whether the `i`-th one is.
pub fn missing_fingerprints(fingerprints: &[String], cached: &[bool]) -> (r: Vec<String>)
    requires
        cached@.len() == fingerprints@.len(),
    ensures
        r@.map_values(|s: String| s@) == missing_of(fingerprints@, cached@),
{
    let mut out: Vec<String> = Vec::new();
    let mut i: usize = 0;
    while i < fingerprints.len()
        invariant
            i <= fingerprints@.len(),
            cached@.len() == fingerprints@.len(),
            out@.map_values(|s: String| s@) == missing_of(fingerprints@.take(i as int), cached@.take(i as int)),
        decreases fingerprints@.len() - i,
    {
        assert(fingerprints@.take(i as int + 1).drop_last() =~= fingerprints@.take(i as int));
        assert(cached@.take(i as int + 1).drop_last() =~= cached@.take(i as int));
        if !cached[i] {
            out.push(fingerprints[i].clone());
        }
        assert(out@.map_values(|s: String| s@) =~= missing_of(fingerprints@.take(i as int + 1), cached@.take(i as int + 1)));
        i = i + 1;
    }
    assert(fingerprints@.take(fingerprints@.len() as int) =~= fingerprints@);
    assert(cached@.take(cached@.len() as int) =~= cached@);
    out
}

/// The fingerprints not marked cached, in order.
pub open spec fn missing_of(fingerprints: Seq<String>, cached: Seq<bool>) -> Seq<Seq<char>>
    decreases fingerprints.len(),
{
    if fingerprints.len() == 0 || cached.len() == 0 {
        Seq::empty()
    } else {
        let rest = missing_of(fingerprints.drop_last(), cached.drop_last());
        if cached.last() {
            rest
        } else {
            rest.push(fingerprints.last()@)
        }
    }
}

/// The detail of the error when a shard's keys could not be resolved
/// automatically, wrapping the cause's displayed message.
pub open spec fn shard_trust_message(shard: ShardJson, cause: (ErrorKind, Seq<char>)) -> Seq<char> {
    "开发者 "@ + shard.github_username@ + " 的公钥无法自动获取："@ + display_prefix(cause.0) + cause.1
        + "。\n请确保开发者已在 "@ + shard.base_pkg_url@ + "/gpg-key.asc 发布 GPG 公钥，或通过 TOFU 流程手动信任。"@
}

/// The error when a shard's keys could not be resolved automatically, wrapping
/// the cause's displayed message.
pub fn shard_trust_error(shard: &ShardJson, cause: &HypoError) -> (r: HypoError)
    ensures
        r@ == (ErrorKind::GpgNoPubkey, shard_trust_message(*shard, cause@)),
{
    let m = cause.message();
    let a = concat("开发者 ", shard.github_username.as_str());
    let b = concat(a.as_str(), " 的公钥无法自动获取：");
    let c = concat(b.as_str(), m.as_str());
    let d = concat(c.as_str(), "。\n请确保开发者已在 ");
    let e = concat(d.as_str(), shard.base_pkg_url.as_str());
    HypoError::GpgNoPubkey(concat(e.as_str(), "/gpg-key.asc 发布 GPG 公钥，或通过 TOFU 流程手动信任。"))
}

// ── The order of the key sources ──────────────────────────────────────

/// Where the lookup of a developer's public key stands. The sources are tried in
/// order: the local keyring, then (for a GitHub Pages registry) the keys GitHub
/// publishes for the user, then the registry's well-known `gpg-key.asc`.
#[derive(Debug, Clone, Copy, PartialEq, Eq, Structural)]
pub enum KeyStage {
    /// Waiting to hear whether the keyring holds the certificate.
    Cache,
    /// Waiting for the fingerprints GitHub publishes for the user.
    GitHubKeys,
    /// GitHub lists the key; waiting to hear whether the keyring now holds it.
    GitHubCache,
    /// Waiting for the well-known `gpg-key.asc`.
    WellKnown,
    /// The certificate was found.
    Found,
    /// No source gave the certificate.
    Failed,
}

/// A lookup of the public key of one fingerprint for a developer registry.
#[derive(Debug)]
pub struct KeyLookup {
    /// Where the lookup stands.
    pub stage: KeyStage,
    /// The fingerprint looked up.
    pub fingerprint: String,
    /// Root URL of the developer registry.
    pub base_pkg_url: String,
}

/// The outcome of the action the lookup asked for.
#[derive(Debug)]
pub enum KeyEvent {
    /// The keyring file of the fingerprint, if there is one.
    Cached(Option<Vec<u8>>),
    /// The fingerprints GitHub publishes for the user, or why they could not be had.
    GitHubKeys(Result<Vec<String>, HypoError>),
    /// The body of the well-known `gpg-key.asc`, if it could be fetched.
    WellKnownCert(Option<Vec<u8>>),
}

/// What the caller does next.
#[derive(Debug)]
pub enum KeyAction {
    /// Load the certificate of the fingerprint from the keyring.
    LoadCached,
    /// Fetch the fingerprints that GitHub publishes for this user.
    FetchGitHubKeys(String),
    /// Fetch (and cache) the certificate at this URL.
    FetchWellKnown(String),
    /// The certificate just obtained is the developer's: its fingerprint is the
    /// one looked up. Use it (and cache one fetched from the well-known file).
    UseCert,
    /// The lookup failed with this error.
    Fail(HypoError),
}

/// The event answers the action that the stage waits for.
pub open spec fn event_fits(stage: KeyStage, event: KeyEvent) -> bool {
    match event {
        KeyEvent::Cached(_) => stage == KeyStage::Cache || stage == KeyStage::GitHubCache,
        KeyEvent::GitHubKeys(_) => stage == KeyStage::GitHubKeys,
        KeyEvent::WellKnownCert(_) => stage == KeyStage::WellKnown,
    }
}

/// The data is a certificate whose fingerprint is `fingerprint`, ignoring ASCII
/// case.
pub open spec fn holds_cert_of(data: Option<Vec<u8>>, fingerprint: Seq<char>) -> bool {
    data matches Some(d) && cert_fingerprint_of(d@) matches Some(f) && eq_ignore_ascii_case(f, fingerprint)
}

/// The detail of the error when the well-known file holds another key than the
/// one the shard declares.
pub open spec fn foreign_key_message(base_pkg_url: Seq<char>, found: Seq<char>, expected: Seq<char>) -> Seq<char> {
    base_pkg_url + "/gpg-key.asc 中的公钥指纹 "@ + found + " 与分片声明的指纹 "@ + expected + " 不符"@
}

/// Whether `data` is a certificate of `fingerprint`; gives the fingerprint of the
/// certificate it holds, if any.
fn cert_matches(data: &Option<Vec<u8>>, fingerprint: &str) -> (r: (bool, Option<String>))
    ensures
        r.0 == holds_cert_of(*data, fingerprint@),
        opt_view(r.1) == match data {
            Some(d) => cert_fingerprint_of(d@),
            None => None,
        },
{
    match data {
        None => (false, None),
        Some(d) => {
            let found = parse_cert_fingerprint(d.as_slice());
            match &found {
                None => (false, found),
                Some(f) => {
                    let a = str_chars(f.as_str());
                    let b = str_chars(fingerprint);
                    (chars_eq_ignore_ascii_case(&a, &b), found)
                },
            }
        },
    }
}

/// The lookup moved to the well-known location of the key.
pub open spec fn goes_well_known(next: KeyLookup, action: KeyAction, base: Seq<char>) -> bool {
    &&& next.stage == KeyStage::WellKnown
    &&& action matches KeyAction::FetchWellKnown(url) && url@ == base + "/gpg-key.asc"@
}

impl KeyLookup {
    /// Starts looking up the developer's key, the first fingerprint declared,
    /// with the keyring; fails when no fingerprint is declared.
    pub fn start(fingerprints: &[String], base_pkg_url: &str) -> (r: Result<(KeyLookup, KeyAction), HypoError>)
        ensures
            fingerprints@.len() == 0 ==> (r matches Err(e) && e@ == (ErrorKind::GpgNoPubkey, "分片中未声明 GPG 指纹"@)),
            fingerprints@.len() > 0 ==> (r matches Ok((l, a)) && l.stage == KeyStage::Cache
                && l.fingerprint@ == fingerprints@[0]@ && l.base_pkg_url@ == base_pkg_url@ && a is LoadCached),
    {
        let fingerprint = first_fingerprint(fingerprints)?;
        Ok((KeyLookup { stage: KeyStage::Cache, fingerprint, base_pkg_url: String::from_str(base_pkg_url) }, KeyAction::LoadCached))
    }
}

fn well_known_step(fingerprint: String, base_pkg_url: String) -> (r: (KeyLookup, KeyAction))
    ensures
        r.0.fingerprint == fingerprint,
        r.0.base_pkg_url == base_pkg_url,
        goes_well_known(r.0, r.1, base_pkg_url@),
{
    let url = well_known_key_url(base_pkg_url.as_str());
    (KeyLookup { stage: KeyStage::WellKnown, fingerprint, base_pkg_url }, KeyAction::FetchWellKnown(url))
}

/// One step of the lookup of a developer's public key: given the outcome of the
/// last action, the next stage and action. A certificate is used only when its
/// fingerprint is the one looked up: one in the keyring is used at once;
/// otherwise a GitHub Pages registry's key is looked for among the keys GitHub
/// publishes for the user (an error fetching them ends the lookup), and when it
/// is listed the keyring is read again; the well-known `gpg-key.asc` comes last.
/// The lookup fails when that file holds another key, or none.
pub fn key_lookup_step(state: KeyLookup, event: KeyEvent) -> (r: (KeyLookup, KeyAction))
    requires
        event_fits(state.stage, event),
    ensures
        r.0.fingerprint == state.fingerprint,
        r.0.base_pkg_url == state.base_pkg_url,
        r.1 is UseCert <==> r.0.stage == KeyStage::Found,
        r.1 is UseCert ==> match event {
            KeyEvent::Cached(d) => holds_cert_of(d, state.fingerprint@),
            KeyEvent::WellKnownCert(d) => holds_cert_of(d, state.fingerprint@),
            KeyEvent::GitHubKeys(_) => false,
        },
        event matches KeyEvent::Cached(d) ==> (holds_cert_of(d, state.fingerprint@) ==> r.1 is UseCert),
        event matches KeyEvent::Cached(d) ==> (!holds_cert_of(d, state.fingerprint@) && state.stage == KeyStage::Cache
            ==> match key_owner_spec(state.base_pkg_url@) {
            Some(u) => r.0.stage == KeyStage::GitHubKeys && (r.1 matches KeyAction::FetchGitHubKeys(u2) && u2@ == u),
            None => goes_well_known(r.0, r.1, state.base_pkg_url@),
        }),
        event matches KeyEvent::Cached(d) ==> (!holds_cert_of(d, state.fingerprint@) && state.stage
            == KeyStage::GitHubCache ==> goes_well_known(r.0, r.1, state.base_pkg_url@)),
        event matches KeyEvent::GitHubKeys(Err(e)) ==> r.0.stage == KeyStage::Failed && (r.1 matches KeyAction::Fail(e2)
            && e2@ == e@),
        event matches KeyEvent::GitHubKeys(Ok(fps)) ==> if fingerprint_in(state.fingerprint@, fps@) {
            r.0.stage == KeyStage::GitHubCache && r.1 is LoadCached
        } else {
            goes_well_known(r.0, r.1, state.base_pkg_url@)
        },
        event matches KeyEvent::WellKnownCert(d) ==> (holds_cert_of(d, state.fingerprint@) ==> r.1 is UseCert),
        event matches KeyEvent::WellKnownCert(d) ==> (!holds_cert_of(d, state.fingerprint@) ==> r.0.stage
            == KeyStage::Failed && (r.1 matches KeyAction::Fail(e) && e@.0 == ErrorKind::GpgNoPubkey && e@.1 == match d {
            Some(b) => match cert_fingerprint_of(b@) {
                Some(f) => foreign_key_message(state.base_pkg_url@, f, state.fingerprint@),
                None => no_pubkey_message(state.fingerprint@, state.base_pkg_url@),
            },
            None => no_pubkey_message(state.fingerprint@, state.base_pkg_url@),
        })),
{
    let KeyLookup { stage, fingerprint, base_pkg_url } = state;
    match event {
        KeyEvent::Cached(d) => {
            let (ok, _) = cert_matches(&d, fingerprint.as_str());
            if ok {
                (KeyLookup { stage: KeyStage::Found, fingerprint, base_pkg_url }, KeyAction::UseCert)
            } else if stage == KeyStage::Cache {
                match github_key_owner(base_pkg_url.as_str()) {
                    Some(u) => (
                        KeyLookup { stage: KeyStage::GitHubKeys, fingerprint, base_pkg_url },
                        KeyAction::FetchGitHubKeys(u),
                    ),
                    None => well_known_step(fingerprint, base_pkg_url),
                }
            } else {
                well_known_step(fingerprint, base_pkg_url)
            }
        },
        KeyEvent::GitHubKeys(Err(e)) => (KeyLookup { stage: KeyStage::Failed, fingerprint, base_pkg_url }, KeyAction::Fail(e)),
        KeyEvent::GitHubKeys(Ok(fps)) => {
            if fingerprint_listed(fingerprint.as_str(), fps.as_slice()) {
                (KeyLookup { stage: KeyStage::GitHubCache, fingerprint, base_pkg_url }, KeyAction::LoadCached)
            } else {
                well_known_step(fingerprint, base_pkg_url)
            }
        },
        KeyEvent::WellKnownCert(d) => {
            let (ok, found) = cert_matches(&d, fingerprint.as_str());
            if ok {
                (KeyLookup { stage: KeyStage::Found, fingerprint, base_pkg_url }, KeyAction::UseCert)
            } else {
                let e = match found {
                    Some(f) => {
                        let a = concat(base_pkg_url.as_str(), "/gpg-key.asc 中的公钥指纹 ");
                        let b = concat(a.as_str(), f.as_str());
                        let c = concat(b.as_str(), " 与分片声明的指纹 ");
                        let g = concat(c.as_str(), fingerprint.as_str());
                        HypoError::GpgNoPubkey(concat(g.as_str(), " 不符"))
                    },
                    None => no_pubkey_error(fingerprint.as_str(), base_pkg_url.as_str()),
                };
                (KeyLookup { stage: KeyStage::Failed, fingerprint, base_pkg_url }, KeyAction::Fail(e))
            }
        },
    }
}

// ── Trust in a shard's keys ───────────────────────────────────────────

/// Trust being established in the keys a shard declares: the fingerprints whose
/// certificates were not cached, in order, and how many of them were resolved.
#[derive(Debug)]
pub struct ShardTrust {
    /// The shard.
    pub shard: ShardJson,
    /// The declared fingerprints whose certificates were not cached, in order.
    pub missing: Vec<String>,
    /// How many of them have been resolved.
    pub resolved: usize,
}

/// What the caller does next while trust in a shard's keys is established.
#[derive(Debug)]
pub enum TrustAction {
    /// Resolve the public key of this fingerprint (see [`key_lookup_step`]).
    Resolve(String),
    /// Every declared key is cached or was resolved: the developer is trusted.
    Trusted,
    /// A key could not be resolved.
    Fail(HypoError),
}

/// The action that follows once `resolved` of the missing keys were resolved:
/// the next one, or trust when none is left.
pub open spec fn next_trust_action(missing: Seq<String>, resolved: int, action: TrustAction) -> bool {
    if resolved >= missing.len() {
        action is Trusted
    } else {
        action matches TrustAction::Resolve(f) && f@ == missing[resolved]@
    }
}

impl ShardTrust {
    /// Starts establishing trust in `shard`'s keys, given whether each declared
    /// fingerprint's certificate is cached: every one that is not must be resolved.
    pub fn start(shard: ShardJson, cached: &[bool]) -> (r: (ShardTrust, TrustAction))
        requires
            cached@.len() == shard.gpg_key_fingerprints@.len(),
        ensures
            r.0.shard == shard,
            r.0.missing@.map_values(|s: String| s@) == missing_of(shard.gpg_key_fingerprints@, cached@),
            r.0.resolved == 0,
            next_trust_action(r.0.missing@, 0, r.1),
    {
        let missing = missing_fingerprints(shard.gpg_key_fingerprints.as_slice(), cached);
        let action = if missing.len() == 0 {
            TrustAction::Trusted
        } else {
            TrustAction::Resolve(missing[0].clone())
        };
        (ShardTrust { shard, missing, resolved: 0 }, action)
    }

    /// The key the last action asked for was resolved (`Ok`) or not. A failure
    /// ends the trust with the shard's trust error; otherwise the next missing
    /// key is to be resolved, and once every one is, the developer is trusted.
    pub fn step(self, outcome: Result<(), HypoError>) -> (r: (ShardTrust, TrustAction))
        requires
            self.resolved < self.missing@.len(),
        ensures
            r.0.shard == self.shard,
            r.0.missing == self.missing,
            outcome matches Err(e) ==> r.0.resolved == self.resolved && (r.1 matches TrustAction::Fail(e2) && e2@ == (
                ErrorKind::GpgNoPubkey,
                shard_trust_message(self.shard, e@),
            )),
            outcome is Ok ==> r.0.resolved == self.resolved + 1 && next_trust_action(
                self.missing@,
                self.resolved + 1,
                r.1,
            ),
    {
        match outcome {
            Err(e) => {
                let err = shard_trust_error(&self.shard, &e);
                (self, TrustAction::Fail(err))
            },
            Ok(()) => {
                let n = self.missing.len();
                let resolved = self.resolved + 1;
                let action = if resolved >= n {
                    TrustAction::Trusted
                } else {
                    TrustAction::Resolve(self.missing[resolved].clone())
                };
                (ShardTrust { resolved, ..self }, action)
            },
        }
    }
}

/// The developer is trusted only once every declared key is cached or resolved:
/// a step that gives `Trusted` has resolved all the missing keys.
pub proof fn law_trusted_only_when_all_resolved(missing: Seq<String>, resolved: int, action: TrustAction)
    requires
        0 <= resolved <= missing.len(),
        next_trust_action(missing, resolved, action),
        action is Trusted,
    ensures
        resolved == missing.len(),
{
}

} // verus!
