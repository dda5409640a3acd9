//! The `hypo.lock` file: the exact versions, download URLs and SHA256 digests of
//! a resolved dependency tree.

use vstd::prelude::*;

use crate::deps::resolver::ResolvedDep;
use crate::error::{ErrorKind, HypoError};
use crate::text::{chars_eq, concat, str_chars};

verus! {

/// Contents of `hypo.lock`.
#[derive(Debug, Clone)]
pub struct Lockfile {
    /// Schema version.
    pub version: u32,
    /// The locked entries.
    pub packages: Vec<LockfileEntry>,
}

/// One locked package.
#[derive(Debug, Clone)]
pub struct LockfileEntry {
    /// Owner of the package.
    pub owner: String,
    /// Name of the package.
    pub name: String,
    /// The exact locked version.
    pub version: String,
    /// Download URL of the `.hypo` file.
    pub url: String,
    /// SHA256 of the `.hypo` file.
    pub sha256: String,
    /// URL of the registry it came from.
    pub source_registry: String,
}

/// The entry that a freshly generated lockfile holds for `d`: its owner, name and
/// version, with the URL, digest and source still empty.
pub open spec fn entry_for(d: ResolvedDep, e: LockfileEntry) -> bool {
    &&& e.owner@ == d.owner@
    &&& e.name@ == d.name@
    &&& e.version@ == d.version@
    &&& e.url@.len() == 0
    &&& e.sha256@.len() == 0
    &&& e.source_registry@.len() == 0
}

/// The lockfile generated for `deps`: schema version 1 and one entry per dependency,
/// in order.
pub open spec fn lockfile_for(deps: Seq<ResolvedDep>, l: Lockfile) -> bool {
    &&& l.version == 1
    &&& l.packages@.len() == deps.len()
    &&& forall|i: int| 0 <= i < deps.len() ==> entry_for(deps[i], #[trigger] l.packages@[i])
}

/// A locked entry agrees with the registry's current `(url, sha256)` for it.
pub open spec fn entry_current(e: LockfileEntry, c: (String, String)) -> bool {
    e.url@ == c.0@ && e.sha256@ == c.1@
}

/// Every locked entry agrees with the registry's current values, entry by entry.
pub open spec fn locks_current(entries: Seq<LockfileEntry>, current: Seq<(String, String)>) -> bool {
    &&& current.len() == entries.len()
    &&& forall|i: int| 0 <= i < entries.len() ==> entry_current(#[trigger] entries[i], current[i])
}

/// The `i`-th entry is the first one that the registry's values contradict.
pub open spec fn first_stale(entries: Seq<LockfileEntry>, current: Seq<(String, String)>, i: int) -> bool {
    &&& 0 <= i < entries.len()
    &&& i < current.len()
    &&& !entry_current(entries[i], current[i])
    &&& forall|j: int| 0 <= j < i ==> entry_current(#[trigger] entries[j], current[j])
}

/// The error detail for a locked entry that the registry contradicts.
pub open spec fn stale_message(e: LockfileEntry, registry_url: Seq<char>) -> Seq<char> {
    "lockfile 中 @"@ + e.owner@ + "/"@ + e.name@ + " 的 url 或 sha256 与 registry "@ + registry_url
        + " 不一致，请重新解析依赖"@
}

/// The entry is for the package `owner`/`name`.
pub open spec fn entry_is(e: LockfileEntry, owner: Seq<char>, name: Seq<char>) -> bool {
    e.owner@ == owner && e.name@ == name
}

impl Lockfile {
    /// The lockfile for a resolved dependency tree, before it is written out as TOML.
    /// Download URL, digest and source are filled in when the packages are installed.
    pub fn from_resolved(resolved_deps: &[ResolvedDep]) -> (r: Lockfile)
        ensures
            lockfile_for(resolved_deps@, r),
    {
        let mut packages: Vec<LockfileEntry> = Vec::new();
        let mut i: usize = 0;
        while i < resolved_deps.len()
            invariant
                i <= resolved_deps@.len(),
                packages@.len() == i,
                forall|j: int|
                    0 <= j < i ==> entry_for(resolved_deps@[j], #[trigger] packages@[j]),
            decreases resolved_deps@.len() - i,
        {
            let d = &resolved_deps[i];
            packages.push(
                LockfileEntry {
                    owner: d.owner.clone(),
                    name: d.name.clone(),
                    version: d.version.clone(),
                    url: String::new(),
                    sha256: String::new(),
                    source_registry: String::new(),
                },
            );
            i = i + 1;
        }
        Lockfile { version: 1, packages }
    }

    /// Online integrity check: compares each locked entry with what the registry
    /// at `registry_url` gives for it now. `current[i]` is the registry's current
    /// `(url, sha256)` for the `i`-th locked package. When a URL or digest differs
    /// (or the lists do not line up) the user is told to resolve the dependencies
    /// again.
    pub fn verify_online(&self, registry_url: &str, current: &[(String, String)]) -> (r: Result<(), HypoError>)
        ensures
            r is Ok <==> locks_current(self.packages@, current@),
            current@.len() != self.packages@.len() ==> (r matches Err(e) && e@ == (
                ErrorKind::HashMismatch,
                "lockfile 条目数与 registry "@ + registry_url@ + " 的结果不一致，请重新解析依赖"@,
            )),
            current@.len() == self.packages@.len() ==> forall|i: int| #[trigger] first_stale(self.packages@, current@, i)
                ==> (r matches Err(e) && e@ == (ErrorKind::HashMismatch, stale_message(self.packages@[i], registry_url@))),
    {
        if current.len() != self.packages.len() {
            let a = concat("lockfile 条目数与 registry ", registry_url);
            return Err(HypoError::HashMismatch(concat(a.as_str(), " 的结果不一致，请重新解析依赖")));
        }
        let mut i: usize = 0;
        while i < self.packages.len()
            invariant
                i <= self.packages@.len(),
                current@.len() == self.packages@.len(),
                forall|j: int| 0 <= j < i ==> entry_current(#[trigger] self.packages@[j], current@[j]),
            decreases self.packages@.len() - i,
        {
            let e = &self.packages[i];
            let c = &current[i];
            let u1 = str_chars(e.url.as_str());
            let u2 = str_chars(c.0.as_str());
            let h1 = str_chars(e.sha256.as_str());
            let h2 = str_chars(c.1.as_str());
            if !(chars_eq(&u1, &u2) && chars_eq(&h1, &h2)) {
                let a = concat("lockfile 中 @", e.owner.as_str());
                let b = concat(a.as_str(), "/");
                let d = concat(b.as_str(), e.name.as_str());
                let f = concat(d.as_str(), " 的 url 或 sha256 与 registry ");
                let g = concat(f.as_str(), registry_url);
                let m = concat(g.as_str(), " 不一致，请重新解析依赖");
                proof {
                    assert forall|k: int| #[trigger] first_stale(self.packages@, current@, k) implies k == i by {
                        if k < i {
                            assert(entry_current(self.packages@[k], current@[k]));
                        }
                    }
                    assert(first_stale(self.packages@, current@, i as int));
                }
                return Err(HypoError::HashMismatch(m));
            }
            i = i + 1;
        }
        proof {
            assert forall|k: int| #[trigger] first_stale(self.packages@, current@, k) implies false by {
                assert(entry_current(self.packages@[k], current@[k]));
            }
        }
        Ok(())
    }

    /// The first locked entry for the package `owner`/`name`.
    pub fn find(&self, owner: &str, name: &str) -> (r: Option<&LockfileEntry>)
        ensures
            r matches Some(e) ==> exists|i: int|
                0 <= i < self.packages@.len() && self.packages@[i] == *e && entry_is(
                    *e,
                    owner@,
                    name@,
                ) && forall|j: int|
                    0 <= j < i ==> !entry_is(#[trigger] self.packages@[j], owner@, name@),
            r is None ==> forall|i: int|
                0 <= i < self.packages@.len() ==> !entry_is(
                    #[trigger] self.packages@[i],
                    owner@,
                    name@,
                ),
    {
        let o = str_chars(owner);
        let n = str_chars(name);
        let mut i: usize = 0;
        while i < self.packages.len()
            invariant
                i <= self.packages@.len(),
                o@ == owner@,
                n@ == name@,
                forall|j: int| 0 <= j < i ==> !entry_is(#[trigger] self.packages@[j], owner@, name@),
            decreases self.packages@.len() - i,
        {
            let e = &self.packages[i];
            let eo = str_chars(e.owner.as_str());
            let en = str_chars(e.name.as_str());
            if chars_eq(&eo, &o) && chars_eq(&en, &n) {
                return Some(e);
            }
            i = i + 1;
        }
        None
    }
}

/// A lockfile generated from a resolved dependency tree locks exactly the resolved
/// packages: `find` succeeds for an owner and name if and only if some resolved
/// dependency has them.
pub proof fn law_lockfile_locks_resolved(
    deps: Seq<ResolvedDep>,
    l: Lockfile,
    owner: Seq<char>,
    name: Seq<char>,
)
    requires
        lockfile_for(deps, l),
    ensures
        (exists|i: int| 0 <= i < l.packages@.len() && entry_is(#[trigger] l.packages@[i], owner, name))
            <==> (exists|j: int|
            0 <= j < deps.len() && (#[trigger] deps[j]).owner@ == owner && deps[j].name@ == name),
{
    if exists|i: int| 0 <= i < l.packages@.len() && entry_is(#[trigger] l.packages@[i], owner, name) {
        let i = choose|i: int|
            0 <= i < l.packages@.len() && entry_is(#[trigger] l.packages@[i], owner, name);
        assert(entry_for(deps[i], l.packages@[i]));
    }
    if exists|j: int|
        0 <= j < deps.len() && (#[trigger] deps[j]).owner@ == owner && deps[j].name@ == name {
        let j = choose|j: int|
            0 <= j < deps.len() && (#[trigger] deps[j]).owner@ == owner && deps[j].name@ == name;
        assert(entry_for(deps[j], l.packages@[j]));
        assert(entry_is(l.packages@[j], owner, name));
    }
}

} // verus!
