//! The manifest (`manifest.toml`): package metadata, lifecycle scripts, sandbox
//! declaration, dependencies and the SHA256 of every file in the package.

use vstd::prelude::*;

use crate::error::{ErrorKind, HypoError};
use crate::str_map::StrMap;
use crate::text::concat;

verus! {

/// The contents of `manifest.toml`.
#[derive(Debug, Clone)]
pub struct Manifest {
    /// Package metadata.
    pub package: PackageMeta,
    /// Lifecycle scripts.
    pub scripts: Scripts,
    /// Script interpreter.
    pub interpreter: Interpreter,
    /// Sandbox declaration.
    pub sandbox: SandboxDecl,
    /// Dependencies.
    pub dependencies: Dependencies,
    /// SHA256 of every file in the package, by path.
    pub hashes: StrMap<String>,
}

/// `[package]`.
#[derive(Debug, Clone)]
pub struct PackageMeta {
    /// Package name.
    pub name: String,
    /// Version (SemVer).
    pub version: String,
    /// Description.
    pub description: String,
    /// Author (GitHub user name).
    pub author: String,
    /// GitHub repository `owner/repo`.
    pub repo: String,
    /// Target platform (windows / linux / macos / all).
    pub platform: String,
    /// Target architectures.
    pub arch: Vec<String>,
}

/// `[scripts]`.
#[derive(Debug, Clone)]
pub struct Scripts {
    /// Install script (required).
    pub install: String,
    /// Uninstall script.
    pub uninstall: Option<String>,
    /// Update script.
    pub update: Option<String>,
    /// Hook run before install.
    pub pre_install: Option<String>,
    /// Hook run after install.
    pub post_install: Option<String>,
    /// Hook run before uninstall.
    pub pre_uninstall: Option<String>,
    /// Hook run after uninstall.
    pub post_uninstall: Option<String>,
    /// Hook run before update.
    pub pre_update: Option<String>,
    /// Hook run after update.
    pub post_update: Option<String>,
}

/// `[interpreter]`.
#[derive(Debug, Clone)]
pub struct Interpreter {
    /// Interpreter type (powershell / bash / zsh / python).
    pub interpreter_type: String,
}

impl Default for Interpreter {
    /// PowerShell.
    fn default() -> (r: Interpreter)
        ensures
            r.interpreter_type@ == "powershell"@,
    {
        Interpreter { interpreter_type: String::from_str("powershell") }
    }
}

/// `[sandbox]`.
#[derive(Debug, Clone)]
pub struct SandboxDecl {
    /// Paths the scripts promise to write to.
    pub allowed_write_paths: Vec<String>,
    /// Hosts the scripts promise to reach.
    pub allowed_network_egress: Vec<String>,
}

/// `[dependencies]`.
#[derive(Debug, Clone)]
pub struct Dependencies {
    /// hypo packages (such as `@bob/utils >= 2.0.0`).
    pub hypo: Vec<String>,
    /// System packages.
    pub system: Vec<String>,
}

impl Default for Dependencies {
    /// No dependencies.
    fn default() -> (r: Dependencies)
        ensures
            r.hypo@.len() == 0,
            r.system@.len() == 0,
    {
        Dependencies { hypo: Vec::new(), system: Vec::new() }
    }
}

/// The detail text of the error that `validate` reports, if any.
pub open spec fn validate_error(m: Manifest) -> Option<Seq<char>> {
    if m.scripts.install@.len() == 0 {
        Some("install 脚本路径为必填项"@)
    } else if m.hashes@ == Map::<Seq<char>, Seq<char>>::empty() {
        Some("[hashes] 段为空，必须包含包内所有文件的 SHA256"@)
    } else {
        None
    }
}

/// The detail text for a `[package]` field that differs between two manifests.
pub open spec fn mismatch_message(label: Seq<char>, local: Seq<char>, remote: Seq<char>) -> Seq<
    char,
> {
    "manifest 不一致："@ + label + " 不匹配（包内: "@ + local + ", gh-pages: "@ + remote + "）"@
}

/// The detail text of the error that `compare_consistency` reports, if any: the
/// first of name, version, author and repository that differs, then the hashes.
pub open spec fn consistency_error(local: Manifest, remote: Manifest) -> Option<Seq<char>> {
    let (a, b) = (local.package, remote.package);
    if a.name@ != b.name@ {
        Some(mismatch_message("包名"@, a.name@, b.name@))
    } else if a.version@ != b.version@ {
        Some(mismatch_message("版本号"@, a.version@, b.version@))
    } else if a.author@ != b.author@ {
        Some(mismatch_message("作者"@, a.author@, b.author@))
    } else if a.repo@ != b.repo@ {
        Some(mismatch_message("仓库"@, a.repo@, b.repo@))
    } else if local.hashes@ != remote.hashes@ {
        Some("manifest 不一致：[hashes] 表不匹配"@)
    } else {
        None
    }
}

/// The two manifests agree on name, version, author, repository and hashes.
pub open spec fn consistent(local: Manifest, remote: Manifest) -> bool {
    &&& local.package.name@ == remote.package.name@
    &&& local.package.version@ == remote.package.version@
    &&& local.package.author@ == remote.package.author@
    &&& local.package.repo@ == remote.package.repo@
    &&& local.hashes@ == remote.hashes@
}

fn mismatch(label: &str, local: &String, remote: &String) -> (r: HypoError)
    ensures
        r@ == (ErrorKind::Config, mismatch_message(label@, local@, remote@)),
{
    let a = concat("manifest 不一致：", label);
    let b = concat(a.as_str(), " 不匹配（包内: ");
    let c = concat(b.as_str(), local.as_str());
    let d = concat(c.as_str(), ", gh-pages: ");
    let e = concat(d.as_str(), remote.as_str());
    HypoError::Config(concat(e.as_str(), "）"))
}

impl Manifest {
    /// Checks that the manifest is complete: the install script is given and the
    /// `[hashes]` table is not empty.
    pub fn validate(&self) -> (r: Result<(), HypoError>)
        ensures
            match validate_error(*self) {
                Some(m) => r matches Err(e) && e@ == (ErrorKind::Config, m),
                None => r is Ok,
            },
    {
        if self.scripts.install.as_str().is_empty() {
            return Err(HypoError::Config(String::from_str("install 脚本路径为必填项")));
        }
        if self.hashes.is_empty() {
            return Err(
                HypoError::Config(
                    String::from_str("[hashes] 段为空，必须包含包内所有文件的 SHA256"),
                ),
            );
        }
        Ok(())
    }

    /// Compares the manifest inside the package with the one published next to it:
    /// name, version, author and repository of `[package]`, then `[hashes]`. The
    /// first difference is reported.
    pub fn compare_consistency(&self, remote: &Self) -> (r: Result<(), HypoError>)
        ensures
            match consistency_error(*self, *remote) {
                Some(m) => r matches Err(e) && e@ == (ErrorKind::Config, m),
                None => r is Ok,
            },
    {
        let (a, b) = (&self.package, &remote.package);
        if !(a.name == b.name) {
            return Err(mismatch("包名", &a.name, &b.name));
        }
        if !(a.version == b.version) {
            return Err(mismatch("版本号", &a.version, &b.version));
        }
        if !(a.author == b.author) {
            return Err(mismatch("作者", &a.author, &b.author));
        }
        if !(a.repo == b.repo) {
            return Err(mismatch("仓库", &a.repo, &b.repo));
        }
        if !self.hashes.same_as(&remote.hashes) {
            return Err(HypoError::Config(String::from_str("manifest 不一致：[hashes] 表不匹配")));
        }
        Ok(())
    }
}

/// `compare_consistency` accepts a pair of manifests exactly when they agree on
/// name, version, author, repository and hashes.
pub proof fn law_consistency_is_agreement(local: Manifest, remote: Manifest)
    ensures
        consistency_error(local, remote) is None <==> consistent(local, remote),
{
}

/// Every manifest is consistent with itself.
pub proof fn law_consistency_reflexive(m: Manifest)
    ensures
        consistency_error(m, m) is None,
{
}

/// Consistency does not depend on which manifest is the local one.
pub proof fn law_consistency_symmetric(a: Manifest, b: Manifest)
    ensures
        consistency_error(a, b) is None <==> consistency_error(b, a) is None,
{
}

} // verus!
