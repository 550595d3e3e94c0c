//! Byte-level model of normalized document paths.
//!
//! Paths are held as plain byte strings with POSIX separators.  A path is
//! absolute when it starts with `/`; the virtual "untitled" namespace lives
//! under `/untitled`, so validity of a main-file path reduces to absoluteness.

use vstd::prelude::*;

verus! {

/// A normalized document path as raw bytes.
#[derive(Debug, Clone, PartialEq, Eq)]
pub struct DocPath {
    /// The path's bytes, POSIX-separated.
    pub bytes: Vec<u8>,
}

impl View for DocPath {
    type V = Seq<u8>;

    open spec fn view(&self) -> Seq<u8> {
        self.bytes@
    }
}

/// The byte that separates path components.
pub const SEP: u8 = 47;

/// Whether a path is absolute (starts with the separator).
pub open spec fn is_absolute(p: Seq<u8>) -> bool {
    p.len() > 0 && p[0] == SEP
}

/// Whether a path may name a main file: absolute, which also covers the
/// virtual `/untitled` namespace.
pub open spec fn valid_entry_path(p: Seq<u8>) -> bool {
    is_absolute(p)
}

/// The view of an optional path.
pub open spec fn opt_path_view(p: Option<DocPath>) -> Option<Seq<u8>> {
    match p {
        Some(q) => Some(q@),
        None => None,
    }
}

/// Whether an optional main-file path passes entry validation: absent paths
/// are always admitted.
pub open spec fn valid_entry_opt(p: Option<Seq<u8>>) -> bool {
    match p {
        Some(q) => valid_entry_path(q),
        None => true,
    }
}

impl DocPath {
    /// Builds a path from raw bytes.
    pub fn new(bytes: Vec<u8>) -> (r: DocPath)
        ensures
            r@ == bytes@,
    {
        DocPath { bytes }
    }

    /// Whether this path is absolute.
    pub fn is_absolute(&self) -> (r: bool)
        ensures
            r == is_absolute(self@),
    {
        self.bytes.len() > 0 && self.bytes[0] == SEP
    }

    /// Deep copy of the path.
    pub fn dup(&self) -> (r: DocPath)
        ensures
            r@ == self@,
    {
        let mut out: Vec<u8> = Vec::new();
        let mut i: usize = 0;
        while i < self.bytes.len()
            invariant
                i <= self.bytes.len(),
                out@ == self.bytes@.subrange(0, i as int),
            decreases self.bytes.len() - i,
        {
            out.push(self.bytes[i]);
            i = i + 1;
            proof {
                assert(out@ =~= self.bytes@.subrange(0, i as int));
            }
        }
        proof {
            assert(out@ =~= self.bytes@);
        }
        DocPath { bytes: out }
    }
}

/// Byte-wise equality of two paths.
pub fn path_eq(a: &DocPath, b: &DocPath) -> (r: bool)
    ensures
        r == (a@ == b@),
{
    if a.bytes.len() != b.bytes.len() {
        proof {
            assert(a@ != b@);
        }
        return false;
    }
    let mut i: usize = 0;
    while i < a.bytes.len()
        invariant
            i <= a.bytes.len(),
            a.bytes.len() == b.bytes.len(),
            forall|j: int| 0 <= j < i ==> a.bytes@[j] == b.bytes@[j],
        decreases a.bytes.len() - i,
    {
        if a.bytes[i] != b.bytes[i] {
            return false;
        }
        i = i + 1;
    }
    proof {
        assert(a@ =~= b@);
    }
    true
}

/// Equality of optional paths, by bytes.
pub fn opt_path_eq(a: &Option<DocPath>, b: &Option<DocPath>) -> (r: bool)
    ensures
        r == (opt_path_view(*a) == opt_path_view(*b)),
{
    match (a, b) {
        (Some(x), Some(y)) => path_eq(x, y),
        (None, None) => true,
        _ => false,
    }
}

/// Deep copy of an optional path.
pub fn opt_path_dup(p: &Option<DocPath>) -> (r: Option<DocPath>)
    ensures
        opt_path_view(r) == opt_path_view(*p),
{
    match p {
        Some(q) => Some(q.dup()),
        None => None,
    }
}

/// The directory a file sits in: the bytes up to (and excluding) the last
/// separator, or the root directory when the last separator is the first byte.
pub open spec fn parent_dir(p: Seq<u8>) -> Seq<u8> {
    if last_sep(p) is Some {
        let k = last_sep(p)->0;
        if k == 0 {
            p.subrange(0, 1)
        } else {
            p.subrange(0, k)
        }
    } else {
        Seq::empty()
    }
}

/// Index of the last separator in `p`, if any.
pub open spec fn last_sep(p: Seq<u8>) -> Option<int>
    decreases p.len(),
{
    if p.len() == 0 {
        None
    } else if p[p.len() - 1] == SEP {
        Some(p.len() - 1)
    } else {
        last_sep(p.drop_last())
    }
}

/// Joining a directory and a relative member: `dir`, a separator, `rel`.
pub open spec fn join(dir: Seq<u8>, rel: Seq<u8>) -> Seq<u8> {
    dir + seq![SEP] + rel
}

/// Absolutizes a possibly relative path against a base directory: an absolute
/// path stands as it is, a relative one is joined to the base; an empty path
/// has no absolute form.
pub open spec fn abs_path_of(base: Seq<u8>, p: Seq<u8>) -> Option<Seq<u8>> {
    if p.len() == 0 {
        None
    } else if is_absolute(p) {
        Some(p)
    } else {
        Some(join(base, p))
    }
}

/// Executable counterpart of [`parent_dir`].
pub fn parent_dir_of(p: &DocPath) -> (r: DocPath)
    ensures
        r@ == parent_dir(p@),
{
    let mut k: usize = p.bytes.len();
    proof {
        assert(p@.subrange(0, p@.len() as int) =~= p@);
    }
    while k > 0 && p.bytes[k - 1] != SEP
        invariant
            k <= p.bytes.len(),
            last_sep(p@) == last_sep(p@.subrange(0, k as int)),
        decreases k,
    {
        proof {
            assert(p@.subrange(0, k as int).drop_last() =~= p@.subrange(0, k - 1));
            assert(p@.subrange(0, k as int)[k - 1] != SEP);
        }
        k = k - 1;
    }
    if k == 0 {
        proof {
            assert(p@.subrange(0, 0) =~= Seq::<u8>::empty());
            assert(last_sep(p@) is None);
            assert(parent_dir(p@) =~= Seq::<u8>::empty());
        }
        DocPath { bytes: Vec::new() }
    } else {
        proof {
            assert(p@.subrange(0, k as int)[k - 1] == SEP);
            assert(last_sep(p@.subrange(0, k as int)) == Some(k - 1 as int));
            assert(last_sep(p@) == Some(k - 1 as int));
        }
        let stop: usize = if k == 1 { 1 } else { k - 1 };
        let mut out: Vec<u8> = Vec::new();
        let mut i: usize = 0;
        while i < stop
            invariant
                i <= stop,
                stop <= p.bytes.len(),
                out@ == p.bytes@.subrange(0, i as int),
            decreases stop - i,
        {
            out.push(p.bytes[i]);
            i = i + 1;
            proof {
                assert(out@ =~= p.bytes@.subrange(0, i as int));
            }
        }
        proof {
            assert(out@ =~= parent_dir(p@));
        }
        DocPath { bytes: out }
    }
}

/// Executable counterpart of [`join`].
pub fn join_paths(dir: &DocPath, rel: &DocPath) -> (r: DocPath)
    ensures
        r@ == join(dir@, rel@),
{
    let mut out: Vec<u8> = Vec::new();
    let mut i: usize = 0;
    while i < dir.bytes.len()
        invariant
            i <= dir.bytes.len(),
            out@ == dir.bytes@.subrange(0, i as int),
        decreases dir.bytes.len() - i,
    {
        out.push(dir.bytes[i]);
        i = i + 1;
        proof {
            assert(out@ =~= dir.bytes@.subrange(0, i as int));
        }
    }
    proof {
        assert(out@ =~= dir@);
    }
    out.push(SEP);
    let ghost mid = out@;
    let mut j: usize = 0;
    while j < rel.bytes.len()
        invariant
            j <= rel.bytes.len(),
            out@ == mid + rel.bytes@.subrange(0, j as int),
        decreases rel.bytes.len() - j,
    {
        out.push(rel.bytes[j]);
        j = j + 1;
        proof {
            assert(out@ =~= mid + rel.bytes@.subrange(0, j as int));
        }
    }
    proof {
        assert(out@ =~= join(dir@, rel@));
    }
    DocPath { bytes: out }
}

/// Executable counterpart of [`abs_path_of`].
pub fn to_abs_path(base: &DocPath, p: &DocPath) -> (r: Option<DocPath>)
    ensures
        opt_path_view(r) == abs_path_of(base@, p@),
{
    if p.bytes.len() == 0 {
        None
    } else if p.is_absolute() {
        Some(p.dup())
    } else {
        Some(join_paths(base, p))
    }
}

/// Whether `dir` contains `p`: they are equal, or `dir` is a proper prefix
/// followed by a separator, or `dir` is the root directory and `p` absolute.
pub open spec fn dir_contains(dir: Seq<u8>, p: Seq<u8>) -> bool {
    ||| p == dir
    ||| (dir.len() < p.len() && p.subrange(0, dir.len() as int) == dir && p[dir.len() as int]
        == SEP)
    ||| (dir =~= seq![SEP] && is_absolute(p))
}

/// Executable counterpart of [`dir_contains`].
pub fn dir_contains_path(dir: &DocPath, p: &DocPath) -> (r: bool)
    ensures
        r == dir_contains(dir@, p@),
{
    if dir.bytes.len() == 1 && dir.bytes[0] == SEP && p.bytes.len() > 0 && p.bytes[0] == SEP {
        proof {
            assert(dir@ =~= seq![SEP]);
        }
        return true;
    }
    if path_eq(dir, p) {
        return true;
    }
    if dir.bytes.len() >= p.bytes.len() {
        return false;
    }
    if p.bytes[dir.bytes.len()] != SEP {
        return false;
    }
    let mut i: usize = 0;
    while i < dir.bytes.len()
        invariant
            i <= dir.bytes.len(),
            dir.bytes.len() < p.bytes.len(),
            p.bytes@[dir.bytes.len() as int] == SEP,
            dir@ != p@,
            !(dir@ =~= seq![SEP] && is_absolute(p@)),
            forall|j: int| 0 <= j < i ==> p.bytes@[j] == dir.bytes@[j],
        decreases dir.bytes.len() - i,
    {
        if p.bytes[i] != dir.bytes[i] {
            return false;
        }
        i = i + 1;
    }
    proof {
        assert(p@.subrange(0, dir@.len() as int) =~= dir@);
    }
    true
}

} // verus!
