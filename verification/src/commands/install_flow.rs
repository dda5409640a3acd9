//! The decisions of `hypo install` from the official directory, as a flow that
//! the caller drives.
//!
//! The caller performs each piece of outside work (an HTTP request, a database
//! read, a download, an OpenPGP signature check, running the script) and hands its
//! outcome to the method of the stage the flow is in; the method decides and says
//! what to do next. The flow keeps the evidence of every check of the trust chain,
//! and a flow that has reached the script stage has passed all of them.

use vstd::prelude::*;

use crate::commands::install::{
    apply_freeze, check_downgrade, determine_install_dir, entry_fits, find_index_package, freeze_allows,
    freeze_plan, is_downgrade, law_freeze_plan_installs_allowed_versions, select_platform_entry,
    target_version, version_texts,
};
use crate::constants::{official_fingerprints, official_key_fingerprints, OFFICIAL_DIR_BASE_URL};
use crate::crypto::verify::{check_signature, signature_error, signer_allowed};
use crate::deps::lockfile::{Lockfile, LockfileEntry};
use crate::db::PackageRecord;
use crate::deps::resolver::{is_best_version, parse_dep_spec, parse_dep_string, select_error};
use crate::error::{ErrorKind, HypoError};
use crate::executor::powershell::PowerShellExecutor;
use crate::package::hash::{
    all_files_match, file_check_error, is_manifest_file, no_undeclared_files, undeclared_file_error, verify_files,
};
use crate::package::manifest::{consistency_error, consistent, Manifest};
use crate::paths::{base_dir_of, join, path_join, tmp_dir};
use crate::registry::client::{
    check_shard_digest, hypo_index_url, official_url, shard_hash_error, shard_path,
    shard_path_of, version_file_url,
};
use crate::registry::trust::{opt_view, owner_error};
use crate::registry::types::{HypoIndex, HypoIndexPackage, HypoPackage, HypoPackageEntry, ShardJson};
use crate::str_map::StrMap;
use crate::text::{chars_index_of, concat, index_of, slice_chars, str_chars, string_of};

verus! {

/// The stages of an install, in order; each waits for the outcome of one piece
/// of outside work.
#[derive(Debug, Clone, Copy, PartialEq, Eq, Structural)]
pub enum InstallStage {
    /// Waiting for `registry.json`.
    Registry,
    /// Waiting for the developer's shard.
    Shard,
    /// Waiting for trust in the developer's keys.
    Trust,
    /// Waiting for the developer's package index.
    Index,
    /// Waiting for the latest version seen locally.
    LatestSeen,
    /// Waiting for `hypo-package.json`.
    Package,
    /// Waiting for the package file and its signature.
    Download,
    /// Waiting for the package to be unpacked.
    Extract,
    /// Waiting for the two manifests.
    Manifests,
    /// Waiting for the digests of the unpacked files.
    Hashes,
    /// Waiting for the install script to run.
    Script,
    /// Waiting for the database record.
    Record,
    /// Waiting for the lockfile.
    Lockfile,
    /// Installed.
    Done,
}

/// The position of a stage in the order of an install.
pub open spec fn stage_index(s: InstallStage) -> int {
    match s {
        InstallStage::Registry => 0,
        InstallStage::Shard => 1,
        InstallStage::Trust => 2,
        InstallStage::Index => 3,
        InstallStage::LatestSeen => 4,
        InstallStage::Package => 5,
        InstallStage::Download => 6,
        InstallStage::Extract => 7,
        InstallStage::Manifests => 8,
        InstallStage::Hashes => 9,
        InstallStage::Script => 10,
        InstallStage::Record => 11,
        InstallStage::Lockfile => 12,
        InstallStage::Done => 13,
    }
}

/// The text that `{:?}` gives for a list of strings (`["a", "b"]`, each string
/// escaped as `str`'s `Debug` escapes it).
pub uninterp spec fn strings_debug_text(v: Seq<Seq<char>>) -> Seq<char>;

/// `format!("{:?}", v)` for a list of strings.
#[verifier::external_body]
fn debug_strings(v: &Vec<String>) -> (r: String)
    ensures
        r@ == strings_debug_text(v@.map_values(|s: String| s@)),
{
    format!("{:?}", v)
}

/// The downgrade protection lets `version` through, given the latest version
/// seen locally.
pub open spec fn passes_downgrade(seen: Option<Seq<char>>, version: Seq<char>, force: bool) -> bool {
    match seen {
        Some(s) => !(is_downgrade(s, version) && !force),
        None => true,
    }
}

/// The directory that holds the files of one install attempt:
/// `~/.hypo/tmp/{owner}-{name}-{version}`.
pub open spec fn work_dir_of(home: Seq<char>, owner: Seq<char>, name: Seq<char>, version: Seq<char>) -> Seq<char> {
    path_join(path_join(base_dir_of(home), "tmp"@), owner + "-"@ + name + "-"@ + version)
}

/// An install of one package from the official directory, in progress.
pub struct InstallFlow {
    /// The stage the install is in.
    pub stage: InstallStage,
    /// Package owner.
    pub owner: String,
    /// Package name.
    pub name: String,
    /// Version constraint, empty for the latest version.
    pub constraint: String,
    /// Whether downgrade and freeze protection are overridden.
    pub force: bool,
    /// Whether the confirmation before running the script is skipped.
    pub yes: bool,
    /// The user's home directory.
    pub home: String,
    /// The platform whose build is installed (`windows`, `linux`, `macos` or `all`).
    pub platform: String,
    /// The operating system recorded in the database.
    pub os: String,
    /// The architecture recorded in the database.
    pub arch: String,
    /// The digests of the shards, from `registry.json`.
    pub shard_hashes: StrMap<String>,
    /// The path of the developer's shard.
    pub shard_path: String,
    /// Root URL of the developer registry.
    pub base_pkg_url: String,
    /// The version being installed.
    pub version: String,
    /// The package's latest version in the developer registry.
    pub latest_version: String,
    /// What freeze protection decided: the version to install and the warning to
    /// print, or the refusal.
    pub freeze_outcome: Result<(String, Option<String>), HypoError>,
    /// The directory of this install attempt.
    pub work_dir: String,
    /// The downloaded package file.
    pub package_file: String,
    /// Where the package is unpacked.
    pub extract_dir: String,
    /// The manifest inside the package, once read.
    pub manifest: Option<Manifest>,
    /// The installation directory.
    pub install_dir: String,
    /// The fingerprints of the developer's keys, from the shard.
    pub developer_fingerprints: Vec<String>,
    /// Download URL of the chosen build's `.hypo` file.
    pub package_url: String,
    /// SHA256 of the chosen build's `.hypo` file, as published.
    pub package_sha256: String,
    /// The official key that verified `registry.sig`.
    pub registry_signer: Ghost<Seq<char>>,
    /// Whether trust in the developer's keys was established.
    pub keys_trusted: Ghost<bool>,
    /// The developer key that verified `.hypo.sig`.
    pub package_signer: Ghost<Seq<char>>,
    /// The developer key that verified `manifest.toml.sig`.
    pub manifest_signer: Ghost<Seq<char>>,
    /// The shard bytes that were checked.
    pub shard_raw: Ghost<Seq<u8>>,
    /// The index entry of the package.
    pub index_pkg: Ghost<HypoIndexPackage>,
    /// The latest version seen locally.
    pub seen: Ghost<Option<Seq<char>>>,
    /// The build entry chosen.
    pub entry: Ghost<HypoPackageEntry>,
    /// The manifest published beside the package.
    pub remote_manifest: Ghost<Manifest>,
    /// The digests of the unpacked files.
    pub file_digests: Ghost<Map<Seq<char>, Seq<char>>>,
}

impl InstallFlow {
    /// The checks that the stages passed so far have made.
    pub open spec fn inv(&self) -> bool {
        let k = stage_index(self.stage);
        &&& k > 0 ==> signer_allowed(self.registry_signer@, official_fingerprints())
        &&& k > 2 ==> self.keys_trusted@
        &&& k > 6 ==> signer_allowed(self.package_signer@, self.developer_keys())
        &&& k > 8 ==> signer_allowed(self.manifest_signer@, self.developer_keys())
        &&& k > 1 ==> shard_hash_error(self.shard_raw@, self.shard_path@, self.shard_hashes@) is None
        &&& k >= 4 ==> (self.freeze_outcome matches Ok((v, _)) ==> freeze_allows(self.index_pkg@, v@, self.force))
        &&& k > 4 ==> passes_downgrade(self.seen@, self.latest_version@, self.force)
        &&& k > 4 ==> freeze_allows(self.index_pkg@, self.version@, self.force)
        &&& k > 5 ==> entry_fits(self.entry@, self.platform@)
        &&& k > 5 ==> self.package_url@ == self.entry@.url@ && self.package_sha256@ == self.entry@.sha256@
        &&& k > 8 ==> (self.manifest matches Some(m) && consistent(m, self.remote_manifest@))
        &&& k > 9 ==> (self.manifest matches Some(m) && all_files_match(m.hashes@, self.file_digests@)
            && no_undeclared_files(m.hashes@, self.file_digests@))
    }

    /// The fingerprints of the developer's keys, as text.
    pub open spec fn developer_keys(&self) -> Seq<Seq<char>> {
        self.developer_fingerprints@.map_values(|s: String| s@)
    }

    /// Every layer of the trust chain held: `registry.json` was signed by an
    /// official key; the shard's digest is the registered one; the developer's
    /// keys are trusted; the registry's latest version is no downgrade from the
    /// latest one seen locally and the version installed is not frozen (unless
    /// `force` is given); the build fits the platform; the package file and the
    /// published manifest were each signed by one of the developer's keys; the two
    /// manifests agree; every declared file has its declared digest and the
    /// package holds no undeclared file.
    pub open spec fn trust_chain_holds(&self) -> bool {
        &&& signer_allowed(self.registry_signer@, official_fingerprints())
        &&& self.keys_trusted@
        &&& signer_allowed(self.package_signer@, self.developer_keys())
        &&& signer_allowed(self.manifest_signer@, self.developer_keys())
        &&& shard_hash_error(self.shard_raw@, self.shard_path@, self.shard_hashes@) is None
        &&& passes_downgrade(self.seen@, self.latest_version@, self.force)
        &&& freeze_allows(self.index_pkg@, self.version@, self.force)
        &&& entry_fits(self.entry@, self.platform@)
        &&& self.manifest matches Some(m) && consistent(m, self.remote_manifest@) && all_files_match(
            m.hashes@,
            self.file_digests@,
        ) && no_undeclared_files(m.hashes@, self.file_digests@)
    }
}

/// The `index`-th package of the developer index is the first one named `name`.
pub open spec fn is_first_named(index: HypoIndex, i: int, name: Seq<char>) -> bool {
    &&& 0 <= i < index.packages@.len()
    &&& index.packages@[i].name@ == name
    &&& forall|j: int| 0 <= j < i ==> (#[trigger] index.packages@[j]).name@ != name
}

/// The `j`-th build entry is the first one usable on `platform`.
pub open spec fn is_first_fitting(pkg: HypoPackage, j: int, platform: Seq<char>) -> bool {
    &&& 0 <= j < pkg.packages@.len()
    &&& entry_fits(pkg.packages@[j], platform)
    &&& forall|i: int| 0 <= i < j ==> !entry_fits(#[trigger] pkg.packages@[i], platform)
}

/// The files to download for an install, and where they go.
#[derive(Debug)]
pub struct DownloadPlan {
    /// The directory of this install attempt, created before downloading.
    pub dir: String,
    /// URL of the package file.
    pub package_url: String,
    /// Where the package file is saved.
    pub package_file: String,
    /// URL of the package's signature.
    pub sig_url: String,
    /// Where the signature is saved.
    pub sig_file: String,
}

fn copy_error(e: &HypoError) -> (r: HypoError)
    ensures
        r@ == e@,
{
    match e {
        HypoError::Io(m) => HypoError::Io(m.clone()),
        HypoError::Sqlite(m) => HypoError::Sqlite(m.clone()),
        HypoError::Sequoia(m) => HypoError::Sequoia(m.clone()),
        HypoError::PowerShell(m) => HypoError::PowerShell(m.clone()),
        HypoError::Network(m) => HypoError::Network(m.clone()),
        HypoError::SignatureVerification(m) => HypoError::SignatureVerification(m.clone()),
        HypoError::HashMismatch(m) => HypoError::HashMismatch(m.clone()),
        HypoError::RegistryNotFound(m) => HypoError::RegistryNotFound(m.clone()),
        HypoError::PackageNotFound(m) => HypoError::PackageNotFound(m.clone()),
        HypoError::GpgNoPubkey(m) => HypoError::GpgNoPubkey(m.clone()),
        HypoError::FreezeViolation(m) => HypoError::FreezeViolation(m.clone()),
        HypoError::DowngradeDetected(m) => HypoError::DowngradeDetected(m.clone()),
        HypoError::Database(m) => HypoError::Database(m.clone()),
        HypoError::Config(m) => HypoError::Config(m.clone()),
    }
}

fn copy_note(n: &Option<String>) -> (r: Option<String>)
    ensures
        opt_view(r) == opt_view(*n),
{
    match n {
        Some(s) => Some(s.clone()),
        None => None,
    }
}

/// The view of an optional string slice.
pub open spec fn opt_str_view(o: Option<&str>) -> Option<Seq<char>> {
    match o {
        Some(s) => Some(s@),
        None => None,
    }
}

/// The constraint of an install asked as `@owner/name@version`: exactly that
/// version, together with the constraint written after it, if any.
pub open spec fn exact_constraint(version: Seq<char>, constraint: Seq<char>) -> Seq<char> {
    if constraint.len() == 0 {
        "="@ + version
    } else {
        "="@ + version + ", "@ + constraint
    }
}

/// What `hypo install` reads from its package argument: `(owner, name,
/// constraint)` as a dependency declaration `@owner/name [constraint]` gives them,
/// except that a name `name@version` asks for exactly that version; or the detail
/// of the configuration error.
pub open spec fn install_target(input: Seq<char>) -> Result<(Seq<char>, Seq<char>, Seq<char>), Seq<char>> {
    match parse_dep_spec(input) {
        Err(m) => Err(m),
        Ok((o, n, c)) => match index_of(n, '@') {
            None => Ok((o, n, c)),
            Some(k) => Ok((o, n.subrange(0, k), exact_constraint(n.subrange(k + 1, n.len() as int), c))),
        },
    }
}

/// Splits a trailing `@version` off a package name.
fn split_version(name: String, constraint: String) -> (r: (String, String))
    ensures
        match index_of(name@, '@') {
            None => r.0@ == name@ && r.1@ == constraint@,
            Some(k) => r.0@ == name@.subrange(0, k) && r.1@ == exact_constraint(
                name@.subrange(k + 1, name@.len() as int),
                constraint@,
            ),
        },
{
    let v = str_chars(name.as_str());
    match chars_index_of(&v, '@') {
        None => (name, constraint),
        Some(k) => {
            let len = v.len();
            assert(k < len);
            let n = string_of(slice_chars(&v, 0, k).as_slice());
            let ver = string_of(slice_chars(&v, k + 1, len).as_slice());
            let exact = concat("=", ver.as_str());
            if constraint.as_str().is_empty() {
                (n, exact)
            } else {
                let a = concat(exact.as_str(), ", ");
                (n, concat(a.as_str(), constraint.as_str()))
            }
        },
    }
}

impl InstallFlow {
    /// Starts installing `package` (`@owner/name [constraint]`, or
    /// `@owner/name@version` for exactly that version). Gives the flow, waiting
    /// for `registry.json`, and the line announcing the install.
    pub fn start(
        package: &str,
        force: bool,
        yes: bool,
        home: String,
        platform: String,
        os: String,
        arch: String,
    ) -> (r: Result<(InstallFlow, String), HypoError>)
        ensures
            match install_target(package@) {
                Err(m) => r matches Err(e) && e@ == (ErrorKind::Config, m),
                Ok((o, n, c)) => r matches Ok((f, line)) && f.stage == InstallStage::Registry
                    && f.owner@ == o && f.name@ == n && f.constraint@ == c && f.force == force
                    && f.yes == yes && f.home == home && f.platform == platform && f.os == os
                    && f.arch == arch && f.inv() && line@ == "正在安装 @"@ + o + "/"@ + n + " ..."@,
            },
    {
        let dep = parse_dep_string(package)?;
        let (name, constraint) = split_version(dep.name, dep.constraint_str);
        let a = concat("正在安装 @", dep.owner.as_str());
        let b = concat(a.as_str(), "/");
        let c = concat(b.as_str(), name.as_str());
        let line = concat(c.as_str(), " ...");
        let flow = InstallFlow {
            stage: InstallStage::Registry,
            owner: dep.owner,
            name,
            constraint,
            force,
            yes,
            home,
            platform,
            os,
            arch,
            shard_hashes: StrMap::new(),
            shard_path: String::new(),
            base_pkg_url: String::new(),
            version: String::new(),
            latest_version: String::new(),
            freeze_outcome: Ok((String::new(), None)),
            work_dir: String::new(),
            package_file: String::new(),
            extract_dir: String::new(),
            manifest: None,
            install_dir: String::new(),
            developer_fingerprints: Vec::new(),
            package_url: String::new(),
            package_sha256: String::new(),
            registry_signer: Ghost(Seq::empty()),
            keys_trusted: Ghost(false),
            package_signer: Ghost(Seq::empty()),
            manifest_signer: Ghost(Seq::empty()),
            shard_raw: Ghost(Seq::empty()),
            index_pkg: Ghost(arbitrary()),
            seen: Ghost(None),
            entry: Ghost(arbitrary()),
            remote_manifest: Ghost(arbitrary()),
            file_digests: Ghost(Map::empty()),
        };
        Ok((flow, line))
    }

    /// `registry.json` was fetched and `registry.sig` checked against it:
    /// `registry_sig` is the fingerprint of the key that verified the signature,
    /// or why it did not verify. The signer must be an official key. Gives the URL
    /// of the owner's shard, or the error for an invalid owner name.
    pub fn on_registry(
        &mut self,
        registry: &crate::registry::types::RegistryJson,
        registry_sig: &Result<String, HypoError>,
    ) -> (r: Result<String, HypoError>)
        requires
            old(self).stage == InstallStage::Registry,
            old(self).inv(),
        ensures
            signature_error(*registry_sig, official_fingerprints()) matches Some(m) ==> (r matches Err(e) && e@ == (
                ErrorKind::SignatureVerification,
                m,
            ) && *final(self) == *old(self)),
            signature_error(*registry_sig, official_fingerprints()) is None ==> match owner_error(old(self).owner@) {
                Some(m) => r matches Err(e) && e@ == (ErrorKind::RegistryNotFound, m) && *final(self) == *old(self),
                None => r matches Ok(url) && url@ == OFFICIAL_DIR_BASE_URL@ + "/"@ + shard_path_of(old(self).owner@)
                    && final(self).shard_path@ == shard_path_of(old(self).owner@)
                    && final(self).shard_hashes@ == registry.shard_hashes@
                    && *final(self) == (InstallFlow {
                        stage: InstallStage::Shard,
                        shard_path: final(self).shard_path,
                        shard_hashes: final(self).shard_hashes,
                        registry_signer: Ghost(registry_sig->Ok_0@),
                        ..*old(self)
                    }) && final(self).inv(),
            },
    {
        let official = official_key_fingerprints();
        check_signature(registry_sig, official.as_slice())?;
        let path = shard_path(self.owner.as_str())?;
        let url = official_url(path.as_str());
        self.shard_hashes = registry.shard_hashes.clone();
        self.shard_path = path;
        proof {
            self.registry_signer = Ghost(registry_sig->Ok_0@);
        }
        self.stage = InstallStage::Shard;
        Ok(url)
    }

    /// The shard's bytes were fetched, and parsed as `parsed`. The bytes are
    /// checked against the registered digest first; gives the shard whose keys are
    /// to be trusted.
    pub fn on_shard(&mut self, raw: &[u8], parsed: Result<ShardJson, HypoError>) -> (r: Result<ShardJson, HypoError>)
        requires
            old(self).stage == InstallStage::Shard,
            old(self).inv(),
        ensures
            match shard_hash_error(raw@, old(self).shard_path@, old(self).shard_hashes@) {
                Some(m) => r matches Err(e) && e@ == (ErrorKind::HashMismatch, m) && *final(self) == *old(self),
                None => match parsed {
                    Err(e0) => r matches Err(e) && e@ == e0@ && *final(self) == *old(self),
                    Ok(sh) => r == Ok::<ShardJson, HypoError>(sh) && final(self).base_pkg_url@ == sh.base_pkg_url@
                        && final(self).developer_keys() == sh.gpg_key_fingerprints@.map_values(|s: String| s@)
                        && *final(self) == (InstallFlow {
                        stage: InstallStage::Trust,
                        base_pkg_url: final(self).base_pkg_url,
                        developer_fingerprints: final(self).developer_fingerprints,
                        shard_raw: Ghost(raw@),
                        ..*old(self)
                    }) && final(self).inv(),
                },
            },
    {
        check_shard_digest(raw, self.shard_path.as_str(), &self.shard_hashes)?;
        let shard = parsed?;
        self.base_pkg_url = shard.base_pkg_url.clone();
        self.developer_fingerprints = crate::text::clone_strings(shard.gpg_key_fingerprints.as_slice());
        self.shard_raw = Ghost(raw@);
        self.stage = InstallStage::Trust;
        Ok(shard)
    }

    /// Trust in the developer's keys was sought: `trust` is its outcome. Once
    /// they are trusted, gives the URL of the developer's package index; otherwise
    /// the install stops with the trust error.
    pub fn on_trusted(&mut self, trust: Result<(), HypoError>) -> (r: Result<String, HypoError>)
        requires
            old(self).stage == InstallStage::Trust,
            old(self).inv(),
        ensures
            trust matches Err(e0) ==> (r matches Err(e) && e@ == e0@ && *final(self) == *old(self)),
            trust is Ok ==> (r matches Ok(url) && url@ == old(self).base_pkg_url@ + "/hypo-index.json"@
                && *final(self) == (InstallFlow { stage: InstallStage::Index, keys_trusted: Ghost(true), ..*old(self) })
                && final(self).inv()),
    {
        trust?;
        proof {
            self.keys_trusted = Ghost(true);
        }
        self.stage = InstallStage::Index;
        Ok(hypo_index_url(self.base_pkg_url.as_str()))
    }


    /// The developer's package index was fetched. Chooses the package and the
    /// version asked for, and settles what freeze protection makes of it.
    pub fn on_index(&mut self, index: &HypoIndex) -> (r: Result<(), HypoError>)
        requires
            old(self).stage == InstallStage::Index,
            old(self).inv(),
        ensures
            (forall|i: int| 0 <= i < index.packages@.len() ==> (#[trigger] index.packages@[i]).name@ != old(self).name@)
                ==> (r matches Err(e) && e@ == (
                ErrorKind::PackageNotFound,
                old(self).name@ + " 不在 "@ + old(self).owner@ + " 的包列表中"@,
            ) && *final(self) == *old(self)),
            forall|i: int| #[trigger] is_first_named(*index, i, old(self).name@) ==> {
                let p = index.packages@[i];
                let c = old(self).constraint@;
                &&& c.len() == 0 ==> (r is Ok && final(self).version@ == p.latest_version@)
                &&& c.len() != 0 ==> match select_error(c, version_texts(p)) {
                    Some(m) => r matches Err(e) && e@ == m && *final(self) == *old(self),
                    None => r is Ok && is_best_version(c, version_texts(p), final(self).version@),
                }
                &&& r is Ok ==> {
                    &&& *final(self) == (InstallFlow {
                        stage: InstallStage::LatestSeen,
                        version: final(self).version,
                        latest_version: final(self).latest_version,
                        freeze_outcome: final(self).freeze_outcome,
                        index_pkg: Ghost(p),
                        ..*old(self)
                    })
                    &&& final(self).latest_version@ == p.latest_version@
                    &&& final(self).inv()
                    &&& match freeze_plan(p, final(self).version@, c.len() != 0, old(self).force) {
                        Ok((v, w)) => final(self).freeze_outcome matches Ok((v2, w2)) && v2@ == v && opt_view(w2) == w,
                        Err(m) => final(self).freeze_outcome matches Err(e) && e@ == (ErrorKind::FreezeViolation, m),
                    }
                }
            },
    {
        let pkg = find_index_package(index, self.owner.as_str(), self.name.as_str())?;
        let version = target_version(pkg, self.constraint.as_str())?;
        let specified = !self.constraint.as_str().is_empty();
        let outcome = apply_freeze(pkg, version.as_str(), specified, self.force);
        proof {
            assert forall|i: int| #[trigger] is_first_named(*index, i, self.name@) implies index.packages@[i] == *pkg by {
                let i0 = choose|i0: int|
                    0 <= i0 < index.packages@.len() && index.packages@[i0] == *pkg && pkg.name@ == self.name@
                        && forall|j: int| 0 <= j < i0 ==> (#[trigger] index.packages@[j]).name@ != self.name@;
                if i < i0 {
                    assert(index.packages@[i].name@ != self.name@);
                } else if i0 < i {
                    assert(index.packages@[i0].name@ != self.name@);
                }
            }
            law_freeze_plan_installs_allowed_versions(*pkg, version@, specified, self.force);
        }
        self.version = version;
        self.latest_version = pkg.latest_version.clone();
        self.freeze_outcome = outcome;
        self.index_pkg = Ghost(*pkg);
        self.stage = InstallStage::LatestSeen;
        Ok(())
    }

    /// The latest version seen locally for the package was read (`None` when
    /// there is none, or the database could not tell). Applies the downgrade
    /// protection to the registry's latest version, then the freeze protection's
    /// decision; gives the URL of `hypo-package.json` of the version to install and
    /// the warning to print, if any.
    pub fn on_latest_seen(&mut self, seen: Option<&str>) -> (r: Result<(String, Option<String>), HypoError>)
        requires
            old(self).stage == InstallStage::LatestSeen,
            old(self).inv(),
        ensures
            match seen {
                Some(s) => is_downgrade(s@, old(self).latest_version@) && !old(self).force,
                None => false,
            } ==> (r matches Err(e) && e@ == (
                ErrorKind::DowngradeDetected,
                "检测到降级: latest_seen="@ + seen->0@ + ", target="@ + old(self).latest_version@
                    + "。使用 --force 强制执行。"@,
            ) && *final(self) == *old(self)),
            passes_downgrade(opt_str_view(seen), old(self).latest_version@, old(self).force) ==> match old(self).freeze_outcome {
                Err(e0) => r matches Err(e) && e@ == e0@ && *final(self) == *old(self),
                Ok((v, w)) => r matches Ok((url, note)) && url@ == old(self).base_pkg_url@ + "/"@ + old(self).name@ + "/"@
                    + v@ + "/"@ + "hypo-package.json"@ && opt_view(note) == opt_view(w)
                    && final(self).version@ == v@
                    && *final(self) == (InstallFlow {
                    stage: InstallStage::Package,
                    version: final(self).version,
                    seen: Ghost(opt_str_view(seen)),
                    ..*old(self)
                }) && final(self).inv(),
            },
    {
        check_downgrade(seen, self.latest_version.as_str(), self.force)?;
        let (version, note) = match &self.freeze_outcome {
            Err(e) => return Err(copy_error(e)),
            Ok((v, w)) => (v.clone(), copy_note(w)),
        };
        let url = version_file_url(self.base_pkg_url.as_str(), self.name.as_str(), version.as_str(), "hypo-package.json");
        self.version = version;
        self.seen = Ghost(opt_str_view(seen));
        self.stage = InstallStage::Package;
        Ok((url, note))
    }

    /// `hypo-package.json` was fetched. Chooses the build for the platform and
    /// plans the downloads into this attempt's directory.
    pub fn on_package(&mut self, pkg: &HypoPackage) -> (r: Result<DownloadPlan, HypoError>)
        requires
            old(self).stage == InstallStage::Package,
            old(self).inv(),
        ensures
            (forall|j: int| 0 <= j < pkg.packages@.len() ==> !entry_fits(#[trigger] pkg.packages@[j], old(self).platform@))
                ==> (r matches Err(e) && e@ == (
                ErrorKind::PackageNotFound,
                "当前平台 "@ + old(self).platform@ + " 无可用包"@,
            ) && *final(self) == *old(self)),
            forall|j: int| #[trigger] is_first_fitting(*pkg, j, old(self).platform@) ==> {
                let e = pkg.packages@[j];
                let dir = work_dir_of(old(self).home@, old(self).owner@, old(self).name@, old(self).version@);
                &&& r matches Ok(plan)
                &&& plan.dir@ == dir
                &&& plan.package_url@ == e.url@
                &&& plan.package_file@ == path_join(dir, old(self).name@ + "-"@ + old(self).version@ + ".hypo"@)
                &&& plan.sig_url@ == e.sig_url@
                &&& plan.sig_file@ == path_join(dir, old(self).name@ + "-"@ + old(self).version@ + ".hypo.sig"@)
                &&& final(self).work_dir@ == dir
                &&& final(self).package_file@ == plan.package_file@
                &&& final(self).package_url@ == e.url@
                &&& final(self).package_sha256@ == e.sha256@
                &&& *final(self) == (InstallFlow {
                    stage: InstallStage::Download,
                    work_dir: final(self).work_dir,
                    package_file: final(self).package_file,
                    package_url: final(self).package_url,
                    package_sha256: final(self).package_sha256,
                    entry: Ghost(e),
                    ..*old(self)
                })
                &&& final(self).inv()
            },
    {
        let e = select_platform_entry(pkg, self.platform.as_str())?;
        proof {
            assert forall|j: int| #[trigger] is_first_fitting(*pkg, j, self.platform@) implies pkg.packages@[j] == *e by {
                let j0 = choose|j0: int|
                    0 <= j0 < pkg.packages@.len() && pkg.packages@[j0] == *e && entry_fits(*e, self.platform@)
                        && forall|i: int| 0 <= i < j0 ==> !entry_fits(#[trigger] pkg.packages@[i], self.platform@);
                if j < j0 {
                    assert(!entry_fits(pkg.packages@[j], self.platform@));
                } else if j0 < j {
                    assert(!entry_fits(pkg.packages@[j0], self.platform@));
                }
            }
        }
        let t = tmp_dir(self.home.as_str());
        let a = concat(self.owner.as_str(), "-");
        let b = concat(a.as_str(), self.name.as_str());
        let c = concat(b.as_str(), "-");
        let attempt = concat(c.as_str(), self.version.as_str());
        let dir = join(t.as_str(), attempt.as_str());
        let f = concat(self.name.as_str(), "-");
        let stem = concat(f.as_str(), self.version.as_str());
        let hypo_name = concat(stem.as_str(), ".hypo");
        let sig_name = concat(stem.as_str(), ".hypo.sig");
        let package_file = join(dir.as_str(), hypo_name.as_str());
        let sig_file = join(dir.as_str(), sig_name.as_str());
        let plan = DownloadPlan {
            dir: dir.clone(),
            package_url: e.url.clone(),
            package_file: package_file.clone(),
            sig_url: e.sig_url.clone(),
            sig_file,
        };
        self.work_dir = dir;
        self.package_file = package_file;
        self.package_url = e.url.clone();
        self.package_sha256 = e.sha256.clone();
        self.entry = Ghost(*e);
        self.stage = InstallStage::Download;
        Ok(plan)
    }

    /// The package file and its signature were downloaded and `.hypo.sig` checked
    /// against the package file: `package_sig` is the fingerprint of the key that
    /// verified it, or why it did not verify. The signer must be one of the
    /// developer's keys. Gives the package file and the directory to unpack it
    /// into.
    pub fn on_downloaded(&mut self, package_sig: &Result<String, HypoError>) -> (r: Result<(String, String), HypoError>)
        requires
            old(self).stage == InstallStage::Download,
            old(self).inv(),
        ensures
            signature_error(*package_sig, old(self).developer_keys()) matches Some(m) ==> (r matches Err(e) && e@ == (
                ErrorKind::SignatureVerification,
                m,
            ) && *final(self) == *old(self)),
            signature_error(*package_sig, old(self).developer_keys()) is None ==> (r matches Ok((file, dir))
                && file@ == old(self).package_file@ && dir@ == path_join(old(self).work_dir@, "extracted"@)
                && final(self).extract_dir@ == dir@ && *final(self) == (InstallFlow {
                stage: InstallStage::Extract,
                extract_dir: final(self).extract_dir,
                package_signer: Ghost(package_sig->Ok_0@),
                ..*old(self)
            }) && final(self).inv()),
    {
        check_signature(package_sig, self.developer_fingerprints.as_slice())?;
        let dir = join(self.work_dir.as_str(), "extracted");
        self.extract_dir = dir.clone();
        proof {
            self.package_signer = Ghost(package_sig->Ok_0@);
        }
        self.stage = InstallStage::Extract;
        Ok((self.package_file.clone(), dir))
    }

    /// The package was unpacked. Gives the URLs of the published manifest and of
    /// its signature.
    pub fn on_extracted(&mut self) -> (r: (String, String))
        requires
            old(self).stage == InstallStage::Extract,
            old(self).inv(),
        ensures
            r.0@ == old(self).base_pkg_url@ + "/"@ + old(self).name@ + "/"@ + old(self).version@ + "/"@
                + "manifest.toml"@,
            r.1@ == old(self).base_pkg_url@ + "/"@ + old(self).name@ + "/"@ + old(self).version@ + "/"@
                + "manifest.toml.sig"@,
            *final(self) == (InstallFlow { stage: InstallStage::Manifests, ..*old(self) }),
            final(self).inv(),
    {
        self.stage = InstallStage::Manifests;
        let base = self.base_pkg_url.as_str();
        let m = version_file_url(base, self.name.as_str(), self.version.as_str(), "manifest.toml");
        let s = version_file_url(base, self.name.as_str(), self.version.as_str(), "manifest.toml.sig");
        (m, s)
    }


    /// The manifest inside the package (`local`) and the published one (`remote`)
    /// were read, and `manifest.toml.sig` checked against the published one:
    /// `manifest_sig` is the fingerprint of the key that verified it, or why it did
    /// not verify. The signer must be one of the developer's keys, and the two
    /// manifests must agree; the digests of the unpacked files are then to be
    /// computed.
    pub fn on_manifests(&mut self, local: Manifest, remote: &Manifest, manifest_sig: &Result<String, HypoError>) -> (r: Result<
        (),
        HypoError,
    >)
        requires
            old(self).stage == InstallStage::Manifests,
            old(self).inv(),
        ensures
            signature_error(*manifest_sig, old(self).developer_keys()) matches Some(m) ==> (r matches Err(e) && e@ == (
                ErrorKind::SignatureVerification,
                m,
            ) && *final(self) == *old(self)),
            signature_error(*manifest_sig, old(self).developer_keys()) is None ==> {
                &&& consistency_error(local, *remote) matches Some(m) ==> (r matches Err(e) && e@ == (ErrorKind::Config, m)
                    && *final(self) == *old(self))
                &&& consistency_error(local, *remote) is None ==> (r is Ok && *final(self) == (InstallFlow {
                    stage: InstallStage::Hashes,
                    manifest: Some(local),
                    remote_manifest: Ghost(*remote),
                    manifest_signer: Ghost(manifest_sig->Ok_0@),
                    ..*old(self)
                }) && final(self).inv())
            },
    {
        check_signature(manifest_sig, self.developer_fingerprints.as_slice())?;
        local.compare_consistency(remote)?;
        self.manifest = Some(local);
        self.remote_manifest = Ghost(*remote);
        proof {
            self.manifest_signer = Ghost(manifest_sig->Ok_0@);
        }
        self.stage = InstallStage::Hashes;
        Ok(())
    }

    /// The digests of the unpacked files were computed (`actual`: every file under
    /// the extraction directory, by its relative path with `/` separators). Every
    /// declared file must match and no undeclared file may be present; gives the
    /// executor for the install script and the script's path.
    pub fn on_files_hashed(&mut self, actual: &StrMap<String>) -> (r: Result<(PowerShellExecutor, String), HypoError>)
        requires
            old(self).stage == InstallStage::Hashes,
            old(self).inv(),
        ensures
            old(self).manifest matches Some(m) && {
                &&& r is Ok <==> all_files_match(m.hashes@, actual@) && no_undeclared_files(m.hashes@, actual@)
                &&& r matches Err(e) ==> e@.0 == ErrorKind::HashMismatch && *final(self) == *old(self) && ((exists|p: Seq<char>|
                    #[trigger] m.hashes@.contains_key(p) && file_check_error(p, m.hashes@[p], actual@) == Some(e@.1))
                    || (all_files_match(m.hashes@, actual@) && exists|p: Seq<char>| #[trigger] actual@.contains_key(p)
                    && !m.hashes@.contains_key(p) && !is_manifest_file(p) && e@.1 == undeclared_file_error(p)))
                &&& r matches Ok((x, script)) ==> {
                    &&& x.package_name@ == "@"@ + old(self).owner@ + "/"@ + old(self).name@
                    &&& x.package_version@ == old(self).version@
                    &&& x.install_dir@ == path_join(path_join(path_join(base_dir_of(old(self).home@), "apps"@), old(self).owner@), old(self).name@)
                    &&& x.content_dir@ == path_join(old(self).extract_dir@, "content"@)
                    &&& x.sandbox_info@ == "写入: "@ + strings_debug_text(m.sandbox.allowed_write_paths@.map_values(|s: String| s@))
                    &&& x.skip_confirm == old(self).yes
                    &&& script@ == path_join(old(self).extract_dir@, m.scripts.install@)
                    &&& final(self).install_dir@ == x.install_dir@
                    &&& *final(self) == (InstallFlow {
                        stage: InstallStage::Script,
                        install_dir: final(self).install_dir,
                        file_digests: Ghost(actual@),
                        ..*old(self)
                    })
                    &&& final(self).inv()
                    &&& final(self).trust_chain_holds()
                }
            },
    {
        let m = match &self.manifest {
            Some(m) => m,
            None => {
                assert(false);
                return Err(HypoError::HashMismatch(String::new()));
            },
        };
        verify_files(m, actual)?;
        let install_dir = determine_install_dir(self.home.as_str(), self.owner.as_str(), self.name.as_str());
        let script = join(self.extract_dir.as_str(), m.scripts.install.as_str());
        let content = join(self.extract_dir.as_str(), "content");
        let a = concat("@", self.owner.as_str());
        let b = concat(a.as_str(), "/");
        let label = concat(b.as_str(), self.name.as_str());
        let writes = debug_strings(&m.sandbox.allowed_write_paths);
        let info = concat("写入: ", writes.as_str());
        let mut x = PowerShellExecutor::new(label.as_str(), self.version.as_str(), install_dir.clone(), content).with_sandbox(
            info.as_str(),
        );
        x.skip_confirm = self.yes;
        self.install_dir = install_dir;
        self.file_digests = Ghost(actual@);
        self.stage = InstallStage::Script;
        Ok((x, script))
    }

    /// The install script ran successfully. Gives the record of the install for
    /// the database.
    pub fn on_script_done(&mut self) -> (r: PackageRecord)
        requires
            old(self).stage == InstallStage::Script,
            old(self).inv(),
        ensures
            r.id == 0,
            r.owner@ == old(self).owner@,
            r.name@ == old(self).name@,
            r.version@ == old(self).version@,
            r.platform@ == old(self).os@,
            r.arch@ == old(self).arch@,
            r.install_path@ == old(self).install_dir@,
            r.script_dir@ == path_join(old(self).work_dir@, "extracted/tools"@),
            r.source_registry@ == old(self).base_pkg_url@,
            r.installed_at@ == Seq::<char>::empty(),
            r.latest_seen_version@ == old(self).latest_version@,
            *final(self) == (InstallFlow { stage: InstallStage::Record, ..*old(self) }),
            final(self).inv(),
    {
        self.stage = InstallStage::Record;
        PackageRecord {
            id: 0,
            owner: self.owner.clone(),
            name: self.name.clone(),
            version: self.version.clone(),
            platform: self.os.clone(),
            arch: self.arch.clone(),
            install_path: self.install_dir.clone(),
            script_dir: join(self.work_dir.as_str(), "extracted/tools"),
            source_registry: self.base_pkg_url.clone(),
            installed_at: String::new(),
            latest_seen_version: self.latest_version.clone(),
        }
    }

    /// The install was recorded. Gives the lockfile to write: the installed
    /// package alone, at its version, with the download URL and SHA256 of the
    /// build installed and the developer registry it came from.
    pub fn on_recorded(&mut self) -> (r: Lockfile)
        requires
            old(self).stage == InstallStage::Record,
            old(self).inv(),
        ensures
            r.version == 1,
            r.packages@.len() == 1,
            r.packages@[0].owner@ == old(self).owner@,
            r.packages@[0].name@ == old(self).name@,
            r.packages@[0].version@ == old(self).version@,
            r.packages@[0].url@ == old(self).entry@.url@,
            r.packages@[0].sha256@ == old(self).entry@.sha256@,
            r.packages@[0].source_registry@ == old(self).base_pkg_url@,
            *final(self) == (InstallFlow { stage: InstallStage::Lockfile, ..*old(self) }),
            final(self).inv(),
    {
        self.stage = InstallStage::Lockfile;
        let mut packages: Vec<LockfileEntry> = Vec::new();
        packages.push(
            LockfileEntry {
                owner: self.owner.clone(),
                name: self.name.clone(),
                version: self.version.clone(),
                url: self.package_url.clone(),
                sha256: self.package_sha256.clone(),
                source_registry: self.base_pkg_url.clone(),
            },
        );
        Lockfile { version: 1, packages }
    }

    /// The lockfile was written. Gives the closing line of the install.
    pub fn on_lockfile_written(&mut self) -> (r: String)
        requires
            old(self).stage == InstallStage::Lockfile,
            old(self).inv(),
        ensures
            r@ == "安装完成: @"@ + old(self).owner@ + "/"@ + old(self).name@ + " v"@ + old(self).version@,
            *final(self) == (InstallFlow { stage: InstallStage::Done, ..*old(self) }),
            final(self).inv(),
    {
        self.stage = InstallStage::Done;
        let a = concat("安装完成: @", self.owner.as_str());
        let b = concat(a.as_str(), "/");
        let c = concat(b.as_str(), self.name.as_str());
        let d = concat(c.as_str(), " v");
        concat(d.as_str(), self.version.as_str())
    }

} // impl InstallFlow

/// Once an install has reached the script stage, every layer of the trust chain
/// held.
pub proof fn lemma_script_only_after_trust_chain(flow: InstallFlow)
    requires
        flow.inv(),
        stage_index(flow.stage) >= stage_index(InstallStage::Script),
    ensures
        flow.trust_chain_holds(),
{
}

} // verus!
