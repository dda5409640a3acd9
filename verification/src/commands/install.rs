//! Decisions of `hypo install`: which package and version, downgrade and freeze
//! protection, which platform build, and where it is installed.

use vstd::prelude::*;

use crate::deps::resolver::{is_best_version, select_best_version, select_error};
use crate::deps::versions::{semver_precedes, semver_version_valid, version_is_valid, version_precedes};
use crate::error::{ErrorKind, HypoError};
use crate::paths::{base_dir_of, hypo_base_dir, join, path_join};
use crate::registry::types::{
    HypoIndex, HypoIndexPackage, HypoIndexVersion, HypoPackage, HypoPackageEntry,
};
use crate::registry::trust::{extract_host_spec, is_github_pages_host_spec, is_github_pages_url, opt_view};
use crate::text::{concat, slice_chars, str_chars, str_eq, string_of, string_views};

verus! {

/// The text that `{:?}` gives for an optional string (`None`, or `Some("...")` with
/// the string escaped as `str`'s `Debug` escapes it).
pub uninterp spec fn option_debug_text(o: Option<Seq<char>>) -> Seq<char>;

/// `format!("{:?}", o)` for an optional string.
#[verifier::external_body]
fn debug_option(o: &Option<String>) -> (r: String)
    ensures
        r@ == option_debug_text(opt_view(*o)),
{
    format!("{:?}", o)
}

/// The first package named `name` in the developer index.
pub fn find_index_package<'a>(index: &'a HypoIndex, owner: &str, name: &str) -> (r: Result<
    &'a HypoIndexPackage,
    HypoError,
>)
    ensures
        match r {
            Ok(p) => exists|i: int|
                0 <= i < index.packages@.len() && index.packages@[i] == *p && p.name@ == name@
                    && forall|j: int|
                    0 <= j < i ==> (#[trigger] index.packages@[j]).name@ != name@,
            Err(e) => e@ == (ErrorKind::PackageNotFound, name@ + " 不在 "@ + owner@ + " 的包列表中"@)
                && forall|j: int|
                0 <= j < index.packages@.len() ==> (#[trigger] index.packages@[j]).name@ != name@,
        },
{
    let mut i: usize = 0;
    while i < index.packages.len()
        invariant
            i <= index.packages@.len(),
            forall|j: int| 0 <= j < i ==> (#[trigger] index.packages@[j]).name@ != name@,
        decreases index.packages@.len() - i,
    {
        if str_eq(index.packages[i].name.as_str(), name) {
            return Ok(&index.packages[i]);
        }
        i = i + 1;
    }
    let a = concat(name, " 不在 ");
    let b = concat(a.as_str(), owner);
    Err(HypoError::PackageNotFound(concat(b.as_str(), " 的包列表中")))
}

/// The version strings of a package's versions, in order.
pub open spec fn version_texts(pkg: HypoIndexPackage) -> Seq<Seq<char>> {
    pkg.versions@.map_values(|v: HypoIndexVersion| v.version@)
}

/// Chooses the version to install: the best version satisfying the constraint,
/// or the package's latest version when no constraint is given.
pub fn target_version(pkg: &HypoIndexPackage, version_constraint: &str) -> (r: Result<
    String,
    HypoError,
>)
    ensures
        version_constraint@.len() == 0 ==> (r matches Ok(v) && v@ == pkg.latest_version@),
        version_constraint@.len() != 0 ==> match select_error(version_constraint@, version_texts(*pkg)) {
            Some(err) => r matches Err(e) && e@ == err,
            None => r matches Ok(v) && is_best_version(version_constraint@, version_texts(*pkg), v@),
        },
{
    if version_constraint.is_empty() {
        return Ok(pkg.latest_version.clone());
    }
    let mut versions: Vec<String> = Vec::new();
    let mut i: usize = 0;
    while i < pkg.versions.len()
        invariant
            i <= pkg.versions@.len(),
            versions@.len() == i,
            forall|j: int| 0 <= j < i ==> (#[trigger] versions@[j])@ == pkg.versions@[j].version@,
        decreases pkg.versions@.len() - i,
    {
        versions.push(pkg.versions[i].version.clone());
        i = i + 1;
    }
    assert(string_views(versions@) =~= version_texts(*pkg));
    let best = select_best_version(version_constraint, versions.as_slice())?;
    Ok(String::from_str(best))
}

/// The `k`-th version entry of the package is the first one for `version`.
pub open spec fn is_first_version(pkg: HypoIndexPackage, k: int, version: Seq<char>) -> bool {
    &&& 0 <= k < pkg.versions@.len()
    &&& pkg.versions@[k].version@ == version
    &&& forall|j: int| 0 <= j < k ==> (#[trigger] pkg.versions@[j]).version@ != version
}

/// The first version entry of the package for `version`, if there is one.
pub open spec fn version_entry(pkg: HypoIndexPackage, version: Seq<char>) -> Option<HypoIndexVersion> {
    if exists|k: int| is_first_version(pkg, k, version) {
        Some(pkg.versions@[choose|k: int| is_first_version(pkg, k, version)])
    } else {
        None
    }
}

/// The first version entry of a package whose version is `version`.
pub fn find_version_info<'a>(pkg: &'a HypoIndexPackage, version: &str) -> (r: Option<
    &'a HypoIndexVersion,
>)
    ensures
        match r {
            Some(v) => version_entry(*pkg, version@) == Some(*v),
            None => version_entry(*pkg, version@) is None,
        },
{
    let mut i: usize = 0;
    while i < pkg.versions.len()
        invariant
            i <= pkg.versions@.len(),
            forall|j: int| 0 <= j < i ==> (#[trigger] pkg.versions@[j]).version@ != version@,
        decreases pkg.versions@.len() - i,
    {
        if str_eq(pkg.versions[i].version.as_str(), version) {
            proof {
                assert(is_first_version(*pkg, i as int, version@));
                let k = choose|k: int| is_first_version(*pkg, k, version@);
                if k < i {
                    assert(pkg.versions@[k].version@ != version@);
                } else if i < k {
                    assert(pkg.versions@[i as int].version@ != version@);
                }
            }
            return Some(&pkg.versions[i]);
        }
        i = i + 1;
    }
    assert(!exists|k: int| is_first_version(*pkg, k, version@));
    None
}

/// Installing `target` is a downgrade: both versions parse and `target` has lower
/// precedence than the latest version seen before.
pub open spec fn is_downgrade(seen: Seq<char>, target: Seq<char>) -> bool {
    semver_version_valid(seen) && semver_version_valid(target) && semver_precedes(target, seen)
}

/// Downgrade protection: refuses a version older than the latest one seen for the
/// package, unless `force` is given. Versions that do not parse are not compared.
pub fn check_downgrade(latest_seen: Option<&str>, target: &str, force: bool) -> (r: Result<
    (),
    HypoError,
>)
    ensures
        match latest_seen {
            Some(seen) => if is_downgrade(seen@, target@) && !force {
                r matches Err(e) && e@ == (
                    ErrorKind::DowngradeDetected,
                    "检测到降级: latest_seen="@ + seen@ + ", target="@ + target@
                        + "。使用 --force 强制执行。"@,
                )
            } else {
                r is Ok
            },
            None => r is Ok,
        },
{
    match latest_seen {
        None => Ok(()),
        Some(seen) => {
            if version_is_valid(seen) && version_is_valid(target) {
                if version_precedes(target, seen) && !force {
                    let a = concat("检测到降级: latest_seen=", seen);
                    let b = concat(a.as_str(), ", target=");
                    let c = concat(b.as_str(), target);
                    return Err(HypoError::DowngradeDetected(concat(c.as_str(), "。使用 --force 强制执行。")));
                }
            }
            Ok(())
        },
    }
}

/// The version a frozen version falls back to: its rollback version, or the
/// package's latest version.
pub open spec fn fallback_version(ver: HypoIndexVersion, pkg: HypoIndexPackage) -> Seq<char> {
    match ver.rollback_version {
        Some(r) => r@,
        None => pkg.latest_version@,
    }
}

/// The detail of the freeze violation for a frozen `ver`: the reason, and the
/// version to fall back to.
pub open spec fn freeze_message(ver: HypoIndexVersion, pkg: HypoIndexPackage) -> Seq<char> {
    "版本 "@ + ver.version@ + " 已被冻结: "@ + option_debug_text(opt_view(ver.freeze_reason))
        + "。使用 --force 强制执行，或安装回退版本 "@ + fallback_version(ver, pkg) + "。"@
}

/// The detail of the freeze violation for installing `ver`, if it is refused.
pub open spec fn freeze_error(ver: HypoIndexVersion, force: bool, pkg: HypoIndexPackage) -> Option<Seq<char>> {
    if ver.freeze && !force {
        Some(freeze_message(ver, pkg))
    } else {
        None
    }
}

/// The warning for installing a frozen `ver` with `force`, if there is one.
pub open spec fn freeze_warning_text(ver: HypoIndexVersion, force: bool) -> Option<Seq<char>> {
    if ver.freeze && force {
        Some(
            "警告: 版本 "@ + ver.version@ + " 已被冻结，原因: "@ + option_debug_text(opt_view(ver.freeze_reason))
                + "。强制安装。"@,
        )
    } else {
        None
    }
}

/// Freeze protection: a frozen version is refused unless `force` is given.
pub fn check_freeze(ver: &HypoIndexVersion, force: bool, pkg: &HypoIndexPackage) -> (r: Result<
    (),
    HypoError,
>)
    ensures
        match freeze_error(*ver, force, *pkg) {
            Some(m) => r matches Err(e) && e@ == (ErrorKind::FreezeViolation, m),
            None => r is Ok,
        },
{
    if !ver.freeze || force {
        return Ok(());
    }
    let reason = debug_option(&ver.freeze_reason);
    let fallback: &str = match &ver.rollback_version {
        Some(rb) => rb.as_str(),
        None => pkg.latest_version.as_str(),
    };
    let a = concat("版本 ", ver.version.as_str());
    let b = concat(a.as_str(), " 已被冻结: ");
    let c = concat(b.as_str(), reason.as_str());
    let d = concat(c.as_str(), "。使用 --force 强制执行，或安装回退版本 ");
    let e = concat(d.as_str(), fallback);
    Err(HypoError::FreezeViolation(concat(e.as_str(), "。")))
}

/// The warning printed when a frozen version is installed with `force`.
pub fn freeze_warning(ver: &HypoIndexVersion, force: bool) -> (r: Option<String>)
    ensures
        opt_view(r) == freeze_warning_text(*ver, force),
{
    if !(ver.freeze && force) {
        return None;
    }
    let reason = debug_option(&ver.freeze_reason);
    let a = concat("警告: 版本 ", ver.version.as_str());
    let b = concat(a.as_str(), " 已被冻结，原因: ");
    let c = concat(b.as_str(), reason.as_str());
    Some(concat(c.as_str(), "。强制安装。"))
}

/// The warning when a frozen latest version is replaced by its rollback version.
pub open spec fn rollback_warning_text(ver: HypoIndexVersion, rollback: Seq<char>) -> Seq<char> {
    "警告: 版本 "@ + ver.version@ + " 已被冻结，原因: "@ + option_debug_text(opt_view(ver.freeze_reason))
        + "。自动安装回退版本 "@ + rollback + "。"@
}

/// The three behaviours of freeze protection for installing `version` of `pkg`
/// (`specified`: the user named a version): the version actually installed and
/// the warning to print, or the detail of the freeze violation.
///
/// - not frozen: installed as is;
/// - frozen, with `force`: installed with a warning;
/// - frozen latest version, not named by the user: its rollback version is
///   installed with a warning (refused if that one is frozen too);
/// - otherwise: refused, naming the version to fall back to.
pub open spec fn freeze_plan(pkg: HypoIndexPackage, version: Seq<char>, specified: bool, force: bool) -> Result<
    (Seq<char>, Option<Seq<char>>),
    Seq<char>,
> {
    match version_entry(pkg, version) {
        None => Ok((version, None)),
        Some(v) => if !v.freeze {
            Ok((version, None))
        } else if force {
            Ok((version, freeze_warning_text(v, true)))
        } else if !specified && v.rollback_version is Some {
            let rb = v.rollback_version->0@;
            match version_entry(pkg, rb) {
                Some(w) => if w.freeze {
                    Err(freeze_message(w, pkg))
                } else {
                    Ok((rb, Some(rollback_warning_text(v, rb))))
                },
                None => Ok((rb, Some(rollback_warning_text(v, rb)))),
            }
        } else {
            Err(freeze_message(v, pkg))
        },
    }
}

/// `--force` skips freeze protection: whatever the package, the version and
/// whether it was named, the version chosen is the one installed (with at most a
/// warning).
pub proof fn law_force_installs_the_chosen_version(pkg: HypoIndexPackage, version: Seq<char>, specified: bool)
    ensures
        freeze_plan(pkg, version, specified, true) matches Ok((v, _)) && v == version,
{
}

/// The version may be installed as far as freezing goes: it is not frozen, or
/// `force` is given.
pub open spec fn freeze_allows(pkg: HypoIndexPackage, version: Seq<char>, force: bool) -> bool {
    version_entry(pkg, version) matches Some(v) ==> (!v.freeze || force)
}

/// Whatever freeze protection lets through is allowed.
pub proof fn law_freeze_plan_installs_allowed_versions(pkg: HypoIndexPackage, version: Seq<char>, specified: bool, force: bool)
    ensures
        freeze_plan(pkg, version, specified, force) matches Ok((v, _)) ==> freeze_allows(pkg, v, force),
{
}

/// Applies freeze protection to installing `version` of `pkg`; `specified` tells
/// whether the user named a version. Gives the version to install and the warning
/// to print, if any.
pub fn apply_freeze(pkg: &HypoIndexPackage, version: &str, specified: bool, force: bool) -> (r: Result<
    (String, Option<String>),
    HypoError,
>)
    ensures
        match freeze_plan(*pkg, version@, specified, force) {
            Ok((v, w)) => r matches Ok((v2, w2)) && v2@ == v && opt_view(w2) == w,
            Err(m) => r matches Err(e) && e@ == (ErrorKind::FreezeViolation, m),
        },
{
    let v = match find_version_info(pkg, version) {
        None => return Ok((String::from_str(version), None)),
        Some(v) => v,
    };
    if !v.freeze {
        return Ok((String::from_str(version), None));
    }
    if force {
        return Ok((String::from_str(version), freeze_warning(v, true)));
    }
    if !specified {
        if let Some(rb) = &v.rollback_version {
            let reason = debug_option(&v.freeze_reason);
            let a = concat("警告: 版本 ", v.version.as_str());
            let b = concat(a.as_str(), " 已被冻结，原因: ");
            let c = concat(b.as_str(), reason.as_str());
            let d = concat(c.as_str(), "。自动安装回退版本 ");
            let e = concat(d.as_str(), rb.as_str());
            let warning = concat(e.as_str(), "。");
            match find_version_info(pkg, rb.as_str()) {
                Some(w) => {
                    if w.freeze {
                        return match check_freeze(w, false, pkg) {
                            Err(err) => Err(err),
                            Ok(()) => Err(HypoError::FreezeViolation(String::new())),
                        };
                    }
                },
                None => {},
            }
            return Ok((rb.clone(), Some(warning)));
        }
    }
    match check_freeze(v, false, pkg) {
        Err(err) => Err(err),
        Ok(()) => Err(HypoError::FreezeViolation(String::new())),
    }
}

/// A build entry usable on `platform`: built for it or for all platforms.
pub open spec fn entry_fits(e: HypoPackageEntry, platform: Seq<char>) -> bool {
    e.platform@ == platform || e.platform@ == "all"@
}

/// The first build entry of the package usable on `platform`.
pub fn select_platform_entry<'a>(pkg: &'a HypoPackage, platform: &str) -> (r: Result<
    &'a HypoPackageEntry,
    HypoError,
>)
    ensures
        match r {
            Ok(e) => exists|i: int|
                0 <= i < pkg.packages@.len() && pkg.packages@[i] == *e && entry_fits(*e, platform@)
                    && forall|j: int|
                    0 <= j < i ==> !entry_fits(#[trigger] pkg.packages@[j], platform@),
            Err(e) => e@ == (ErrorKind::PackageNotFound, "当前平台 "@ + platform@ + " 无可用包"@)
                && forall|j: int|
                0 <= j < pkg.packages@.len() ==> !entry_fits(#[trigger] pkg.packages@[j], platform@),
        },
{
    let mut i: usize = 0;
    while i < pkg.packages.len()
        invariant
            i <= pkg.packages@.len(),
            forall|j: int| 0 <= j < i ==> !entry_fits(#[trigger] pkg.packages@[j], platform@),
        decreases pkg.packages@.len() - i,
    {
        let e = &pkg.packages[i];
        if str_eq(e.platform.as_str(), platform) || str_eq(e.platform.as_str(), "all") {
            return Ok(e);
        }
        i = i + 1;
    }
    let a = concat("当前平台 ", platform);
    Err(HypoError::PackageNotFound(concat(a.as_str(), " 无可用包")))
}

/// Where a package is installed: `<home>/.hypo/apps/<owner>/<name>`.
pub fn determine_install_dir(home: &str, owner: &str, name: &str) -> (r: String)
    ensures
        r@ == path_join(path_join(path_join(base_dir_of(home@), "apps"@), owner@), name@),
{
    let base = hypo_base_dir(home);
    let apps = join(base.as_str(), "apps");
    let o = join(apps.as_str(), owner);
    join(o.as_str(), name)
}

/// `s` without its trailing `/` characters.
pub open spec fn trim_trailing_slashes(s: Seq<char>) -> Seq<char>
    decreases s.len(),
{
    if s.len() > 0 && s.last() == '/' {
        trim_trailing_slashes(s.drop_last())
    } else {
        s
    }
}

/// The start of an install from a custom URL: the base URL (without trailing
/// `/`), the line announcing it, and the line naming the trust model that
/// applies (GitHub Pages, or trust on first use).
pub fn from_url_start(url: &str) -> (r: (String, String, String))
    ensures
        r.0@ == trim_trailing_slashes(url@),
        r.1@ == "从自定义 URL 安装: "@ + trim_trailing_slashes(url@),
        r.2@ == if extract_host_spec(trim_trailing_slashes(url@)) matches Some(h) && is_github_pages_host_spec(h) {
            "检测到 GitHub Pages，自动建立信任"@
        } else {
            "非 GitHub Pages URL，使用 TOFU 信任模型"@
        },
{
    let v = str_chars(url);
    let mut n: usize = v.len();
    assert(v@.take(n as int) =~= url@);
    while n > 0 && v[n - 1] == '/'
        invariant
            n <= v@.len(),
            v@ == url@,
            trim_trailing_slashes(v@.take(n as int)) == trim_trailing_slashes(url@),
        decreases n,
    {
        assert(v@.take(n as int).drop_last() =~= v@.take(n as int - 1));
        n = n - 1;
    }
    let base_chars = slice_chars(&v, 0, n);
    assert(base_chars@ =~= v@.take(n as int));
    let base = string_of(base_chars.as_slice());
    let line = concat("从自定义 URL 安装: ", base.as_str());
    let trust = if is_github_pages_url(base.as_str()) {
        String::from_str("检测到 GitHub Pages，自动建立信任")
    } else {
        String::from_str("非 GitHub Pages URL，使用 TOFU 信任模型")
    };
    (base, line, trust)
}

/// What an install from a custom URL ends with once the developer index is
/// fetched: the full flow is not available for custom URLs.
pub fn from_url_unsupported() -> (r: HypoError)
    ensures
        r@ == (ErrorKind::Config, "--from-url 完整安装流程将在集成测试阶段实现。请先使用官方目录安装。"@),
{
    HypoError::Config(String::from_str("--from-url 完整安装流程将在集成测试阶段实现。请先使用官方目录安装。"))
}

} // verus!
