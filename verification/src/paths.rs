//! Paths as byte strings, and the joining rule that decides which path's
//! existence makes a file's content a valid symlink target.
//!
//! A candidate link is taken relative to the containing directory when the
//! file has a parent and the link is not absolute; an absolute link, or a
//! file without a parent, is looked up as written.

use vstd::prelude::*;

verus! {

/// The byte of the path separator `/`.
pub const SEPARATOR: u8 = 47;

/// An absolute path starts with the separator.
pub open spec fn is_absolute(p: Seq<u8>) -> bool {
    p.len() > 0 && p[0] == SEPARATOR
}

/// Joining a link onto a parent directory: an absolute link replaces the
/// parent; an empty parent contributes nothing; otherwise the two are
/// concatenated with exactly one separator between them.
pub open spec fn joined(parent: Seq<u8>, link: Seq<u8>) -> Seq<u8> {
    if is_absolute(link) {
        link
    } else if parent.len() == 0 {
        link
    } else if parent[parent.len() - 1] == SEPARATOR {
        parent + link
    } else {
        parent.push(SEPARATOR) + link
    }
}

/// The single path whose existence decides whether `link` is a valid target
/// for a file whose containing directory is `parent`: the joined path when a
/// parent is known, the link itself when none is.
pub open spec fn lookup_path(parent: Option<Seq<u8>>, link: Seq<u8>) -> Seq<u8> {
    match parent {
        Some(p) => joined(p, link),
        None => link,
    }
}

/// The byte sequences behind an optional borrowed path.
pub open spec fn parent_view(parent: Option<&Vec<u8>>) -> Option<Seq<u8>> {
    match parent {
        Some(p) => Some(p@),
        None => None,
    }
}

/// An exact copy of a byte string.
pub fn copy_bytes(v: &Vec<u8>) -> (r: Vec<u8>)
    ensures
        r@ == v@,
{
    let mut r: Vec<u8> = Vec::new();
    let mut i: usize = 0;
    while i < v.len()
        invariant
            i <= v.len(),
            r@ == v@.subrange(0, i as int),
        decreases v.len() - i,
    {
        r.push(v[i]);
        proof {
            assert(v@.subrange(0, i as int).push(v@[i as int]) =~= v@.subrange(0, i + 1));
        }
        i = i + 1;
    }
    proof {
        assert(v@.subrange(0, v@.len() as int) =~= v@);
    }
    r
}

/// Whether two byte strings hold the same bytes.
pub fn bytes_eq(a: &Vec<u8>, b: &Vec<u8>) -> (r: bool)
    ensures
        r == (a@ == b@),
{
    if a.len() != b.len() {
        return false;
    }
    let mut i: usize = 0;
    while i < a.len()
        invariant
            i <= a.len(),
            a.len() == b.len(),
            forall|j: int| 0 <= j < i ==> a@[j] == b@[j],
        decreases a.len() - i,
    {
        if a[i] != b[i] {
            return false;
        }
        i = i + 1;
    }
    proof {
        assert(a@ =~= b@);
    }
    true
}

/// The joined path, as `joined` describes it.
pub fn join_path(parent: &Vec<u8>, link: &Vec<u8>) -> (r: Vec<u8>)
    ensures
        r@ == joined(parent@, link@),
{
    if link.len() > 0 && link[0] == SEPARATOR {
        return copy_bytes(link);
    }
    if parent.len() == 0 {
        return copy_bytes(link);
    }
    let mut r = copy_bytes(parent);
    if parent[parent.len() - 1] != SEPARATOR {
        r.push(SEPARATOR);
    }
    let ghost base = r@;
    let mut i: usize = 0;
    while i < link.len()
        invariant
            i <= link.len(),
            r@ == base + link@.subrange(0, i as int),
        decreases link.len() - i,
    {
        r.push(link[i]);
        proof {
            assert((base + link@.subrange(0, i as int)).push(link@[i as int]) =~= base + link@
                .subrange(0, i + 1));
        }
        i = i + 1;
    }
    proof {
        assert(base + link@.subrange(0, link@.len() as int) =~= base + link@);
    }
    r
}

/// The path whose existence is to be checked for a candidate file: the link
/// joined onto the parent directory, or the link alone when the file has no
/// parent component.
pub fn candidate_path(parent: Option<&Vec<u8>>, link: &Vec<u8>) -> (r: Vec<u8>)
    ensures
        r@ == lookup_path(parent_view(parent), link@),
{
    match parent {
        Some(p) => join_path(p, link),
        None => copy_bytes(link),
    }
}

} // verus!
