//! The `.hypo` package file: where it lies, and where each of its ZIP entries
//! may be unpacked.
//!
//! Downloading, opening the archive and writing files are left to the caller.

use vstd::prelude::*;

use crate::error::{ErrorKind, HypoError};
use crate::paths::{join, path_join};
use crate::text::{concat, str_chars};

verus! {

/// Whether `Path::new(path).starts_with(base)`: the components of `base` are a
/// prefix of those of `path`.
pub uninterp spec fn path_starts_with(path: Seq<char>, base: Seq<char>) -> bool;

/// `Path::starts_with` on UTF-8 paths.
#[verifier::external_body]
fn starts_with_path(path: &str, base: &str) -> (r: bool)
    ensures
        r == path_starts_with(path@, base@),
{
    std::path::Path::new(path).starts_with(base)
}

/// Reads a downloaded (or local) `.hypo` file.
pub struct HypoPackageReader {
    file_path: String,
}

impl HypoPackageReader {
    /// A reader of the `.hypo` file at `file_path`.
    pub fn new(file_path: String) -> (r: HypoPackageReader)
        ensures
            r.file_path() == file_path,
    {
        HypoPackageReader { file_path }
    }

    /// The path of the package file.
    pub closed spec fn file_path(&self) -> String {
        self.file_path
    }

    /// The path of the package file.
    pub fn path(&self) -> (r: &str)
        ensures
            r@ == self.file_path()@,
    {
        self.file_path.as_str()
    }
}

/// A separator between the components of an entry name.
pub open spec fn is_separator(c: char) -> bool {
    c == '/' || c == '\\'
}

/// The directory depth below the destination after one more component: `..`
/// goes up, an empty component or `.` stays, any other name goes down.
pub open spec fn depth_after(depth: int, comp: Seq<char>) -> int {
    if comp == seq!['.', '.'] {
        depth - 1
    } else if comp.len() == 0 || comp == seq!['.'] {
        depth
    } else {
        depth + 1
    }
}

/// Walking the components of `name` from position `i`, at `depth` below the
/// destination with `comp` read of the current component: whether some `..` leads
/// above the destination.
pub open spec fn climbs_out_from(name: Seq<char>, i: int, depth: int, comp: Seq<char>) -> bool
    decreases name.len() - i,
{
    if i >= name.len() {
        depth_after(depth, comp) < 0
    } else if is_separator(name[i]) {
        depth_after(depth, comp) < 0 || climbs_out_from(name, i + 1, depth_after(depth, comp), Seq::empty())
    } else {
        climbs_out_from(name, i + 1, depth, comp.push(name[i]))
    }
}

/// Whether the `..` components of an entry name, once the path is normalised,
/// lead out of the directory it is unpacked into (such as `../evil.txt` or
/// `a/../../b`).
pub open spec fn climbs_out(name: Seq<char>) -> bool {
    climbs_out_from(name, 0, 0, Seq::empty())
}

fn component_step(depth: usize, comp: &Vec<char>) -> (r: Option<usize>)
    requires
        depth < usize::MAX,
    ensures
        r is None <==> depth_after(depth as int, comp@) < 0,
        r matches Some(d) ==> d == depth_after(depth as int, comp@),
{
    let up = comp.len() == 2 && comp[0] == '.' && comp[1] == '.';
    let stay = comp.len() == 0 || (comp.len() == 1 && comp[0] == '.');
    proof {
        if comp@.len() == 2 && comp@[0] == '.' && comp@[1] == '.' {
            assert(comp@ =~= seq!['.', '.']);
        }
        if comp@.len() == 1 && comp@[0] == '.' {
            assert(comp@ =~= seq!['.']);
        }
    }
    if up {
        if depth == 0 {
            None
        } else {
            Some(depth - 1)
        }
    } else if stay {
        Some(depth)
    } else {
        Some(depth + 1)
    }
}

/// Whether the entry name `name` climbs out of the destination directory.
pub fn name_climbs_out(name: &str) -> (r: bool)
    ensures
        r == climbs_out(name@),
{
    let v = str_chars(name);
    let n = v.len();
    let mut i: usize = 0;
    let mut depth: usize = 0;
    let mut comp: Vec<char> = Vec::new();
    while i < n
        invariant
            i <= n,
            n == v@.len(),
            v@ == name@,
            depth <= i,
            climbs_out(name@) == climbs_out_from(v@, i as int, depth as int, comp@),
        decreases n - i,
    {
        let c = v[i];
        if c == '/' || c == '\\' {
            match component_step(depth, &comp) {
                None => return true,
                Some(d) => {
                    depth = d;
                },
            }
            comp = Vec::new();
            assert(comp@ =~= Seq::<char>::empty());
        } else {
            comp.push(c);
        }
        i = i + 1;
    }
    let up = comp.len() == 2 && comp[0] == '.' && comp[1] == '.';
    proof {
        if comp@.len() == 2 && comp@[0] == '.' && comp@[1] == '.' {
            assert(comp@ =~= seq!['.', '.']);
        }
    }
    up && depth == 0
}

/// Where the ZIP entry `name` is unpacked under `dest`: `dest` joined with the
/// name. Refused as a path traversal when its `..` components lead out of `dest`
/// or the joined path does not lie under `dest` (an absolute name).
pub fn entry_target(dest: &str, name: &str) -> (r: Result<String, HypoError>)
    ensures
        !climbs_out(name@) && path_starts_with(path_join(dest@, name@), dest@) ==> (r matches Ok(p) && p@ == path_join(
            dest@,
            name@,
        )),
        !(!climbs_out(name@) && path_starts_with(path_join(dest@, name@), dest@)) ==> (r matches Err(e) && e@ == (
            ErrorKind::HashMismatch,
            "ZIP 条目路径穿越攻击: "@ + name@,
        )),
{
    let target = join(dest, name);
    if !name_climbs_out(name) && starts_with_path(target.as_str(), dest) {
        Ok(target)
    } else {
        Err(HypoError::HashMismatch(concat("ZIP 条目路径穿越攻击: ", name)))
    }
}

} // verus!
