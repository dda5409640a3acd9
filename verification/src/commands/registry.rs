//! `hypo registry`: the export format of configured registries.

use vstd::prelude::*;

use crate::db::RegistryRecord;
use crate::text::concat;

verus! {

/// One exported line: `name = "url"`.
pub open spec fn export_line(r: RegistryRecord) -> Seq<char> {
    r.name@ + " = \""@ + r.base_pkg_url@ + "\""@
}

/// The exported lines joined by newlines.
pub open spec fn export_text(rs: Seq<RegistryRecord>) -> Seq<char>
    decreases rs.len(),
{
    if rs.len() == 0 {
        Seq::<char>::empty()
    } else if rs.len() == 1 {
        export_line(rs[0])
    } else {
        export_text(rs.drop_last()) + "\n"@ + export_line(rs.last())
    }
}

/// The export has one line per registry, in order: exporting one more registry
/// after a non-empty list adds a newline and that registry's line; a single
/// registry is its line alone, and no registry gives an empty text.
pub proof fn law_export_is_one_line_per_registry(rs: Seq<RegistryRecord>, r: RegistryRecord)
    ensures
        export_text(Seq::<RegistryRecord>::empty()) == Seq::<char>::empty(),
        export_text(seq![r]) == r.name@ + " = \""@ + r.base_pkg_url@ + "\""@,
        rs.len() > 0 ==> export_text(rs.push(r)) == export_text(rs) + "\n"@ + r.name@ + " = \""@ + r.base_pkg_url@
            + "\""@,
{
    assert(rs.push(r).drop_last() =~= rs);
}

/// The content of an exported registry list: one `name = "url"` line per registry.
pub fn export_content(registries: &[RegistryRecord]) -> (r: String)
    ensures
        r@ == export_text(registries@),
{
    let mut out = String::new();
    let mut i: usize = 0;
    while i < registries.len()
        invariant
            i <= registries@.len(),
            out@ == export_text(registries@.take(i as int)),
        decreases registries@.len() - i,
    {
        let r = &registries[i];
        let a = concat(r.name.as_str(), " = \"");
        let b = concat(a.as_str(), r.base_pkg_url.as_str());
        let line = concat(b.as_str(), "\"");
        assert(registries@.take(i as int + 1).drop_last() == registries@.take(i as int));
        if i > 0 {
            out.append("\n");
        }
        out.append(line.as_str());
        i = i + 1;
    }
    assert(registries@.take(registries@.len() as int) == registries@);
    out
}

/// The time stamp recorded when a registry is added: `unknown`, as no clock
/// formatting is used.
pub fn chrono_now() -> (r: String)
    ensures
        r@ == "unknown"@,
{
    String::from_str("unknown")
}

} // verus!
