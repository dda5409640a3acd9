//! Dependency declarations (`@owner/pkg [constraint]`), version matching and
//! selection, and topological ordering of a dependency graph.

use vstd::prelude::*;

use crate::deps::graph::{
    edges_within, graph_add_edge, graph_add_node, graph_edges, graph_new, graph_node_weights,
    graph_toposort, has_cycle, is_topological_order, lemma_order_excludes_cycle,
    petgraph_toposort,
};
use crate::deps::versions::{
    req_matches, req_parse_error, semver_precedes, semver_req_error, semver_req_matches,
    semver_req_valid, semver_version_valid, version_is_valid, version_precedes,
};
use crate::error::{ErrorKind, HypoError};
use crate::text::{
    chars_index_of, clone_strings, concat, index_of, is_whitespace, lemma_index_of_from, slice_chars,
    str_chars, string_of, string_views, trim, trim_chars, trim_start,
};

verus! {

/// A parsed dependency declaration.
#[derive(Debug, Clone, PartialEq, Eq)]
pub struct ParsedDep {
    /// Owner of the package.
    pub owner: String,
    /// Name of the package.
    pub name: String,
    /// The version constraint as written (such as `>= 2.0.0`); empty for any version.
    pub constraint_str: String,
}

/// A node of the resolved dependency tree.
#[derive(Debug, Clone)]
pub struct ResolvedDep {
    /// Owner of the package.
    pub owner: String,
    /// Name of the package.
    pub name: String,
    /// The exact version chosen.
    pub version: String,
    /// The versions that were available.
    pub available_versions: Vec<String>,
}

/// The characters that may start a version constraint.
pub open spec fn is_constraint_op(c: char) -> bool {
    c == '>' || c == '<' || c == '=' || c == '^' || c == '~'
}

/// The first position `i >= from` where a space is followed by a constraint operator.
pub open spec fn constraint_split_from(w: Seq<char>, from: int) -> Option<int>
    decreases w.len() - from,
{
    if from < 0 || from >= w.len() {
        None
    } else if w[from] == ' ' && from + 1 < w.len() && is_constraint_op(w[from + 1]) {
        Some(from)
    } else {
        constraint_split_from(w, from + 1)
    }
}

/// What `parse_dep_string` gives for `input`: `(owner, name, constraint)`, or the
/// detail text of the configuration error.
pub open spec fn parse_dep_spec(input: Seq<char>) -> Result<
    (Seq<char>, Seq<char>, Seq<char>),
    Seq<char>,
> {
    let t = trim(input);
    if !(t.len() > 0 && t[0] == '@') {
        Err("无效的依赖声明（缺少 @ 前缀）: "@ + t)
    } else {
        let w = t.drop_first();
        let (pkg, cons) = match constraint_split_from(w, 0) {
            Some(p) => (trim(w.subrange(0, p)), trim(w.subrange(p, w.len() as int))),
            None => (trim(w), Seq::<char>::empty()),
        };
        match index_of(pkg, '/') {
            Some(k) => Ok((pkg.subrange(0, k), pkg.subrange(k + 1, pkg.len() as int), cons)),
            None => Err("无效的依赖声明（缺少 / 分隔符）: "@ + t),
        }
    }
}

fn find_constraint_split(w: &Vec<char>) -> (r: Option<usize>)
    ensures
        r matches Some(p) ==> constraint_split_from(w@, 0) == Some(p as int) && p < w@.len(),
        r is None ==> constraint_split_from(w@, 0) is None,
{
    let n = w.len();
    let mut i: usize = 0;
    while i < n
        invariant
            i <= n,
            n == w@.len(),
            constraint_split_from(w@, 0) == constraint_split_from(w@, i as int),
        decreases n - i,
    {
        if w[i] == ' ' && i + 1 < n {
            let next = w[i + 1];
            if next == '>' || next == '<' || next == '=' || next == '^' || next == '~' {
                return Some(i);
            }
        }
        i = i + 1;
    }
    None
}

/// Parses a dependency declaration `@owner/pkg [constraint]`.
///
/// `@alice/my-tool >= 1.0.0` gives owner `alice`, name `my-tool` and constraint
/// `>= 1.0.0`; `@bob/utils` gives an empty constraint (any version).
pub fn parse_dep_string(input: &str) -> (r: Result<ParsedDep, HypoError>)
    ensures
        match parse_dep_spec(input@) {
            Ok((o, n, c)) => r matches Ok(d) && d.owner@ == o && d.name@ == n
                && d.constraint_str@ == c,
            Err(m) => r matches Err(e) && e@ == (ErrorKind::Config, m),
        },
{
    let raw = str_chars(input);
    let t = trim_chars(&raw);
    if !(t.len() > 0 && t[0] == '@') {
        let ts = string_of(t.as_slice());
        return Err(HypoError::Config(concat("无效的依赖声明（缺少 @ 前缀）: ", ts.as_str())));
    }
    let w = slice_chars(&t, 1, t.len());
    assert(w@ == t@.drop_first());
    let (pkg, cons) = match find_constraint_split(&w) {
        Some(p) => {
            let a = slice_chars(&w, 0, p);
            let b = slice_chars(&w, p, w.len());
            (trim_chars(&a), trim_chars(&b))
        },
        None => (trim_chars(&w), Vec::new()),
    };
    let plen = pkg.len();
    match chars_index_of(&pkg, '/') {
        Some(k) => {
            let owner = slice_chars(&pkg, 0, k);
            let name = slice_chars(&pkg, k + 1, plen);
            Ok(
                ParsedDep {
                    owner: string_of(owner.as_slice()),
                    name: string_of(name.as_slice()),
                    constraint_str: string_of(cons.as_slice()),
                },
            )
        },
        None => {
            let ts = string_of(t.as_slice());
            Err(HypoError::Config(concat("无效的依赖声明（缺少 / 分隔符）: ", ts.as_str())))
        },
    }
}

/// No character of `s` is white space.
pub open spec fn no_whitespace(s: Seq<char>) -> bool {
    forall|i: int| 0 <= i < s.len() ==> !is_whitespace(#[trigger] s[i])
}

proof fn lemma_trim_keeps(x: Seq<char>)
    requires
        x.len() > 0 ==> !is_whitespace(x[0]) && !is_whitespace(x.last()),
    ensures
        trim(x) == x,
{
}

proof fn lemma_split_at(w: Seq<char>, i: int, p: int)
    requires
        0 <= i <= p,
        p + 1 < w.len(),
        forall|j: int| i <= j < p ==> #[trigger] w[j] != ' ',
        w[p] == ' ',
        is_constraint_op(w[p + 1]),
    ensures
        constraint_split_from(w, i) == Some(p),
    decreases p - i,
{
    if i < p {
        lemma_split_at(w, i + 1, p);
    }
}

proof fn lemma_split_none(w: Seq<char>, i: int)
    requires
        0 <= i,
        forall|j: int| i <= j < w.len() ==> #[trigger] w[j] != ' ',
    ensures
        constraint_split_from(w, i) is None,
    decreases w.len() - i,
{
    if i < w.len() {
        lemma_split_none(w, i + 1);
    }
}

proof fn lemma_first_slash(o: Seq<char>, n: Seq<char>)
    requires
        !o.contains('/'),
    ensures
        index_of(o + seq!['/'] + n, '/') == Some(o.len() as int),
{
    let pkg = o + seq!['/'] + n;
    lemma_index_of_from(pkg, '/', 0);
    assert(pkg[o.len() as int] == '/');
    match index_of(pkg, '/') {
        Some(k) => {
            if k < o.len() {
                assert(pkg[k] == o[k]);
                assert(o.contains('/'));
            }
        },
        None => {},
    }
}

/// A declaration written as `@owner/name constraint` reads back as that owner,
/// name and constraint: for an owner without `/` and a name, neither holding
/// white space, and a constraint that starts with one of `>`, `<`, `=`, `^`, `~`
/// and does not end in white space.
pub proof fn law_declaration_reads_back(o: Seq<char>, n: Seq<char>, c: Seq<char>)
    requires
        no_whitespace(o),
        !o.contains('/'),
        no_whitespace(n),
        c.len() > 0,
        c[0] == '>' || c[0] == '<' || c[0] == '=' || c[0] == '^' || c[0] == '~',
        !is_whitespace(c.last()),
    ensures
        parse_dep_spec(seq!['@'] + o + seq!['/'] + n + seq![' '] + c) == Ok::<_, Seq<char>>((o, n, c)),
{
    let input = seq!['@'] + o + seq!['/'] + n + seq![' '] + c;
    assert(input[0] == '@');
    assert(input.last() == c.last());
    lemma_trim_keeps(input);
    let w = input.drop_first();
    let pkg = o + seq!['/'] + n;
    assert(w =~= pkg + seq![' '] + c);
    let p = pkg.len() as int;
    assert forall|j: int| 0 <= j < p implies #[trigger] w[j] != ' ' by {
        assert(w[j] == pkg[j]);
        if j < o.len() {
            assert(!is_whitespace(o[j]));
        } else if j > o.len() {
            assert(pkg[j] == n[j - o.len() - 1]);
            assert(!is_whitespace(n[j - o.len() - 1]));
        }
    }
    assert(w[p + 1] == c[0]);
    lemma_split_at(w, 0, p);
    assert(w.subrange(0, p) =~= pkg);
    assert(w.subrange(p, w.len() as int) =~= seq![' '] + c);
    if o.len() > 0 {
        assert(!is_whitespace(o[0]));
    }
    if n.len() > 0 {
        assert(!is_whitespace(n.last()));
        assert(pkg.last() == n.last());
    }
    lemma_trim_keeps(pkg);
    let sc = seq![' '] + c;
    assert(sc.drop_first() =~= c);
    assert(trim_start(sc) == trim_start(c));
    lemma_trim_keeps(c);
    lemma_first_slash(o, n);
    assert(pkg.subrange(0, o.len() as int) =~= o);
    assert(pkg.subrange(o.len() as int + 1, pkg.len() as int) =~= n);
}

/// A declaration written as `@owner/name`, with no white space and an owner
/// without `/`, reads back as that owner and name with no constraint.
pub proof fn law_bare_declaration_reads_back(o: Seq<char>, n: Seq<char>)
    requires
        no_whitespace(o),
        !o.contains('/'),
        no_whitespace(n),
    ensures
        parse_dep_spec(seq!['@'] + o + seq!['/'] + n) == Ok::<_, Seq<char>>((o, n, Seq::<char>::empty())),
{
    let input = seq!['@'] + o + seq!['/'] + n;
    let pkg = o + seq!['/'] + n;
    assert(input[0] == '@');
    if n.len() > 0 {
        assert(input.last() == n.last());
        assert(!is_whitespace(n.last()));
    }
    lemma_trim_keeps(input);
    let w = input.drop_first();
    assert(w =~= pkg);
    assert forall|j: int| 0 <= j < w.len() implies #[trigger] w[j] != ' ' by {
        if j < o.len() {
            assert(!is_whitespace(o[j]));
        } else if j > o.len() {
            assert(pkg[j] == n[j - o.len() - 1]);
            assert(!is_whitespace(n[j - o.len() - 1]));
        }
    }
    lemma_split_none(w, 0);
    if o.len() > 0 {
        assert(!is_whitespace(o[0]));
    }
    if n.len() > 0 {
        assert(pkg.last() == n.last());
    }
    lemma_trim_keeps(pkg);
    lemma_first_slash(o, n);
    assert(pkg.subrange(0, o.len() as int) =~= o);
    assert(pkg.subrange(o.len() as int + 1, pkg.len() as int) =~= n);
}

/// Whether `version` satisfies `constraint_str`, as `version_matches` decides it:
/// an empty constraint matches anything; otherwise both must parse and match.
pub open spec fn version_matches_spec(constraint: Seq<char>, version: Seq<char>) -> bool {
    constraint.len() == 0 || (semver_version_valid(version) && semver_req_valid(constraint)
        && semver_req_matches(constraint, version))
}

/// Checks whether a version satisfies a constraint; an empty constraint matches
/// any version.
pub fn version_matches(constraint_str: &str, version: &str) -> (r: bool)
    ensures
        r == version_matches_spec(constraint_str@, version@),
{
    if constraint_str.is_empty() {
        return true;
    }
    if !version_is_valid(version) {
        return false;
    }
    match req_parse_error(constraint_str) {
        Some(_) => false,
        None => req_matches(constraint_str, version),
    }
}

/// A version that `select_best_version` may pick: it parses and, for a non-empty
/// constraint, satisfies it.
pub open spec fn eligible(constraint: Seq<char>, version: Seq<char>) -> bool {
    semver_version_valid(version) && (constraint.len() == 0 || semver_req_matches(
        constraint,
        version,
    ))
}

pub open spec fn any_eligible(constraint: Seq<char>, versions: Seq<Seq<char>>) -> bool {
    exists|i: int| 0 <= i < versions.len() && #[trigger] eligible(constraint, versions[i])
}

/// `v` is one of `versions`, eligible, and no eligible version has higher precedence.
pub open spec fn is_best_version(
    constraint: Seq<char>,
    versions: Seq<Seq<char>>,
    v: Seq<char>,
) -> bool {
    &&& exists|i: int| 0 <= i < versions.len() && versions[i] == v
    &&& eligible(constraint, v)
    &&& forall|j: int|
        0 <= j < versions.len() && #[trigger] eligible(constraint, versions[j])
            ==> !semver_precedes(v, versions[j])
}

/// The error that `select_best_version` returns, if it returns one.
pub open spec fn select_error(constraint: Seq<char>, versions: Seq<Seq<char>>) -> Option<
    (ErrorKind, Seq<char>),
> {
    if constraint.len() == 0 {
        if any_eligible(constraint, versions) {
            None
        } else {
            Some((ErrorKind::Config, "无可用的版本"@))
        }
    } else if !semver_req_valid(constraint) {
        Some(
            (
                ErrorKind::Config,
                "无效的版本约束 '"@ + constraint + "': "@ + semver_req_error(constraint).unwrap(),
            ),
        )
    } else if any_eligible(constraint, versions) {
        None
    } else {
        Some((ErrorKind::Config, "找不到满足约束 '"@ + constraint + "' 的版本"@))
    }
}

/// `a` and `b` hold the same versions, whatever their order or repetitions.
pub open spec fn same_versions(a: Seq<Seq<char>>, b: Seq<Seq<char>>) -> bool {
    &&& forall|i: int| 0 <= i < a.len() ==> exists|j: int| 0 <= j < b.len() && #[trigger] b[j] == #[trigger] a[i]
    &&& forall|j: int| 0 <= j < b.len() ==> exists|i: int| 0 <= i < a.len() && #[trigger] a[i] == #[trigger] b[j]
}

/// Version selection does not depend on the order of the list: for two lists of
/// the same versions, `select_best_version` fails on both or on neither, with the
/// same error; and the versions picked from them are of equal precedence (neither
/// is lower than the other; `semver`'s order being total, they are the same
/// version).
pub proof fn law_selection_ignores_order(c: Seq<char>, a: Seq<Seq<char>>, b: Seq<Seq<char>>, va: Seq<char>, vb: Seq<char>)
    requires
        same_versions(a, b),
    ensures
        select_error(c, a) == select_error(c, b),
        is_best_version(c, a, va) && is_best_version(c, b, vb) ==> !semver_precedes(va, vb) && !semver_precedes(vb, va),
{
    assert(any_eligible(c, a) == any_eligible(c, b)) by {
        if any_eligible(c, a) {
            let i = choose|i: int| 0 <= i < a.len() && #[trigger] eligible(c, a[i]);
            let j = choose|j: int| 0 <= j < b.len() && #[trigger] b[j] == #[trigger] a[i];
            assert(eligible(c, b[j]));
        }
        if any_eligible(c, b) {
            let j = choose|j: int| 0 <= j < b.len() && #[trigger] eligible(c, b[j]);
            let i = choose|i: int| 0 <= i < a.len() && #[trigger] a[i] == #[trigger] b[j];
            assert(eligible(c, a[i]));
        }
    }
    if is_best_version(c, a, va) && is_best_version(c, b, vb) {
        let i = choose|i: int| 0 <= i < a.len() && a[i] == va;
        let j = choose|j: int| 0 <= j < b.len() && #[trigger] b[j] == #[trigger] a[i];
        assert(eligible(c, b[j]));
        let j2 = choose|j: int| 0 <= j < b.len() && b[j] == vb;
        let i2 = choose|i: int| 0 <= i < a.len() && #[trigger] a[i] == #[trigger] b[j2];
        assert(eligible(c, a[i2]));
    }
}

/// Index of the version of highest precedence among the eligible ones.
fn best_index(constraint_str: &str, versions: &[String]) -> (r: Option<usize>)
    requires
        constraint_str@.len() == 0 || semver_req_valid(constraint_str@),
    ensures
        r is None <==> !any_eligible(constraint_str@, string_views(versions@)),
        r matches Some(b) ==> b < versions@.len() && is_best_version(
            constraint_str@,
            string_views(versions@),
            versions@[b as int]@,
        ),
{
    let ghost c = constraint_str@;
    let ghost vs = string_views(versions@);
    let empty = constraint_str.is_empty();
    let mut best: Option<usize> = None;
    let mut i: usize = 0;
    while i < versions.len()
        invariant
            i <= versions@.len(),
            c == constraint_str@,
            vs == string_views(versions@),
            empty == (c.len() == 0),
            c.len() == 0 || semver_req_valid(c),
            best is None <==> forall|j: int| 0 <= j < i ==> !#[trigger] eligible(c, vs[j]),
            best matches Some(b) ==> {
                &&& b < i
                &&& eligible(c, vs[b as int])
                &&& !semver_precedes(vs[b as int], vs[b as int])
                &&& forall|j: int|
                    0 <= j < i && #[trigger] eligible(c, vs[j]) ==> !semver_precedes(
                        vs[b as int],
                        vs[j],
                    )
            },
        decreases versions@.len() - i,
    {
        let v = versions[i].as_str();
        let ok = if version_is_valid(v) {
            empty || req_matches(constraint_str, v)
        } else {
            false
        };
        assert(ok == eligible(c, vs[i as int]));
        if ok {
            match best {
                None => {
                    best = Some(i);
                },
                Some(b) => {
                    if version_precedes(versions[b].as_str(), v) {
                        best = Some(i);
                    }
                },
            }
        }
        i = i + 1;
    }
    proof {
        if best is None {
            assert forall|j: int|
                0 <= j < vs.len() && #[trigger] eligible(c, vs[j]) implies false by {}
        }
    }
    best
}

/// Selects, among `versions`, the version of highest precedence that satisfies
/// `constraint_str`; an empty constraint accepts every version that parses.
/// Versions that do not parse are ignored.
pub fn select_best_version<'a>(constraint_str: &str, versions: &'a [String]) -> (r: Result<
    &'a str,
    HypoError,
>)
    ensures
        match select_error(constraint_str@, string_views(versions@)) {
            Some(err) => r matches Err(e) && e@ == err,
            None => r matches Ok(v) && is_best_version(
                constraint_str@,
                string_views(versions@),
                v@,
            ),
        },
{
    if !constraint_str.is_empty() {
        if let Some(msg) = req_parse_error(constraint_str) {
            let a = concat("无效的版本约束 '", constraint_str);
            let b = concat(a.as_str(), "': ");
            return Err(HypoError::Config(concat(b.as_str(), msg.as_str())));
        }
    }
    match best_index(constraint_str, versions) {
        Some(b) => Ok(versions[b].as_str()),
        None => {
            if constraint_str.is_empty() {
                Err(HypoError::Config(String::from_str("无可用的版本")))
            } else {
                let a = concat("找不到满足约束 '", constraint_str);
                Err(HypoError::Config(concat(a.as_str(), "' 的版本")))
            }
        },
    }
}

/// Resolves a package to the one version it will be installed at.
///
/// Only the root package is resolved; its dependencies are not fetched.
pub fn resolve(
    root_owner: &str,
    root_name: &str,
    version_constraint: &str,
    available_versions: &[String],
) -> (r: Result<Vec<ResolvedDep>, HypoError>)
    ensures
        match select_error(version_constraint@, string_views(available_versions@)) {
            Some(err) => r matches Err(e) && e@ == err,
            None => r matches Ok(v) && v@.len() == 1 && v@[0].owner@ == root_owner@
                && v@[0].name@ == root_name@ && v@[0].available_versions@
                == available_versions@ && is_best_version(
                version_constraint@,
                string_views(available_versions@),
                v@[0].version@,
            ),
        },
{
    let best = select_best_version(version_constraint, available_versions)?;
    let root = ResolvedDep {
        owner: String::from_str(root_owner),
        name: String::from_str(root_name),
        version: String::from_str(best),
        available_versions: clone_strings(available_versions),
    };
    let mut out: Vec<ResolvedDep> = Vec::new();
    out.push(root);
    Ok(out)
}


/// The edges whose two ends are among the nodes `0..n`, in their order.
pub open spec fn edges_among(edges: Seq<(usize, usize)>, n: nat) -> Seq<(usize, usize)>
    decreases edges.len(),
{
    if edges.len() == 0 {
        Seq::<(usize, usize)>::empty()
    } else {
        let rest = edges_among(edges.drop_last(), n);
        let e = edges.last();
        if e.0 < n && e.1 < n {
            rest.push(e)
        } else {
            rest
        }
    }
}

/// The node weights `0, 1, ..., n - 1`.
pub open spec fn node_ids(n: nat) -> Seq<usize> {
    Seq::new(n, |i: int| i as usize)
}

/// The detail text of the error that reports a dependency cycle through `d`.
pub open spec fn cycle_message(d: ResolvedDep) -> Seq<char> {
    "检测到循环依赖，涉及：@"@ + d.owner@ + " / "@ + d.name@
}

proof fn lemma_edges_among(edges: Seq<(usize, usize)>, n: nat)
    ensures
        edges_among(edges, n).len() <= edges.len(),
        edges_within(n, edges_among(edges, n)),
    decreases edges.len(),
{
    if edges.len() > 0 {
        lemma_edges_among(edges.drop_last(), n);
    }
}

/// Orders the dependencies so that each comes before the ones it points to.
///
/// `edges` holds `(from, to)` index pairs into `deps`; pairs with an index out of
/// range are ignored. A cycle is reported as a configuration error that names one
/// dependency on it.
pub fn topological_sort(deps: &[ResolvedDep], edges: &[(usize, usize)]) -> (r: Result<
    Vec<usize>,
    HypoError,
>)
    requires
        deps@.len() < u32::MAX,
        edges@.len() < u32::MAX,
    ensures
        match petgraph_toposort(node_ids(deps@.len()), edges_among(edges@, deps@.len())) {
            Ok(o) => r matches Ok(v) && v@ == o,
            Err(x) => r matches Err(e) && x < deps@.len() && e@ == (
                ErrorKind::Config,
                cycle_message(deps@[x as int]),
            ),
        },
        r is Ok <==> !has_cycle(edges_among(edges@, deps@.len())),
        r matches Ok(v) ==> is_topological_order(
            deps@.len(),
            edges_among(edges@, deps@.len()),
            v@,
        ),
{
    let n = deps.len();
    let ghost nn = deps@.len();
    let mut g = graph_new();
    let mut i: usize = 0;
    while i < n
        invariant
            i <= n,
            n == nn,
            nn < u32::MAX,
            graph_node_weights(g) == node_ids(i as nat),
            graph_edges(g) == Seq::<(usize, usize)>::empty(),
        decreases n - i,
    {
        graph_add_node(&mut g, i);
        assert(node_ids(i as nat).push(i) =~= node_ids((i + 1) as nat));
        i = i + 1;
    }
    let m = edges.len();
    let mut k: usize = 0;
    while k < m
        invariant
            k <= m,
            m == edges@.len(),
            m < u32::MAX,
            n == nn,
            graph_node_weights(g) == node_ids(nn),
            graph_edges(g) == edges_among(edges@.take(k as int), nn),
        decreases m - k,
    {
        let (a, b) = edges[k];
        proof {
            lemma_edges_among(edges@.take(k as int), nn);
            assert(edges@.take(k as int + 1).drop_last() == edges@.take(k as int));
            assert(edges@.take(k as int + 1).last() == edges@[k as int]);
        }
        if a < n && b < n {
            graph_add_edge(&mut g, a, b);
        }
        k = k + 1;
    }
    assert(edges@.take(m as int) == edges@);
    proof {
        lemma_edges_among(edges@, nn);
    }
    match graph_toposort(&g) {
        Ok(order) => {
            proof {
                lemma_order_excludes_cycle(nn, edges_among(edges@, nn), order@);
            }
            Ok(order)
        },
        Err(x) => {
            let dep = &deps[x];
            let a = concat("检测到循环依赖，涉及：@", dep.owner.as_str());
            let b = concat(a.as_str(), " / ");
            let msg = concat(b.as_str(), dep.name.as_str());
            Err(HypoError::Config(msg))
        },
    }
}

} // verus!
