//! Paths of files, devices and datasets, read the way `std::path::Path`
//! reads a Unix path: a root, an optional leading `.`, and the named parts
//! between the slashes.
use vstd::prelude::*;

use crate::text::{all_eq_str, spec_split, split_chars, views};

verus! {

/// Whether `s` starts at the root.
pub open spec fn has_root(s: Seq<char>) -> bool {
    s.len() > 0 && s[0] == '/'
}

/// Whether a relative path starts with the current directory, `.`.
pub open spec fn starts_cur_dir(s: Seq<char>) -> bool {
    !has_root(s) && spec_split(s, '/')[0] == "."@
}

/// A piece between slashes that names something (not empty, not `.`).
pub open spec fn is_named(p: Seq<char>) -> bool {
    p.len() > 0 && p != "."@
}

/// The pieces of `pieces` that name something, in order.
pub open spec fn named_parts(pieces: Seq<Seq<char>>) -> Seq<Seq<char>>
    decreases pieces.len(),
{
    if pieces.len() == 0 {
        Seq::empty()
    } else {
        let k = named_parts(pieces.drop_last());
        if is_named(pieces.last()) {
            k.push(pieces.last())
        } else {
            k
        }
    }
}

/// The named components of the path `s` (`..` included), in order.
pub open spec fn path_parts(s: Seq<char>) -> Seq<Seq<char>> {
    named_parts(spec_split(s, '/'))
}

/// Whether two paths have the same components, as `Path`'s `==` decides.
pub open spec fn same_path(a: Seq<char>, b: Seq<char>) -> bool {
    &&& has_root(a) == has_root(b)
    &&& starts_cur_dir(a) == starts_cur_dir(b)
    &&& path_parts(a) == path_parts(b)
}

/// The number of components: the root, a leading `.`, and the named parts.
pub open spec fn component_count(s: Seq<char>) -> int {
    (if has_root(s) { 1int } else { 0int }) + (if starts_cur_dir(s) { 1int } else { 0int })
        + path_parts(s).len()
}

/// The last component when it is a name (not `..`, the root or `.`), as
/// `Path::file_name` gives it.
pub open spec fn file_name(s: Seq<char>) -> Option<Seq<char>> {
    let parts = path_parts(s);
    if parts.len() > 0 && parts.last() != ".."@ {
        Some(parts.last())
    } else {
        None
    }
}

/// The components of a path.
pub struct PathParts {
    pub root: bool,
    pub cur_dir: bool,
    pub parts: Vec<Vec<char>>,
}

/// Splits the path `s` into its components.
pub fn parts_of(s: &[char]) -> (r: PathParts)
    ensures
        r.root == has_root(s@),
        r.cur_dir == starts_cur_dir(s@),
        views(r.parts@) == path_parts(s@),
{
    let pieces = split_chars(s, '/');
    proof {
        reveal_with_fuel(crate::text::split_acc, 2);
    }
    let root = s.len() > 0 && s[0] == '/';
    assert(pieces@.len() > 0) by {
        lemma_split_nonempty(s@, '/', Seq::empty(), Seq::empty());
    }
    let cur_dir = !root && all_eq_str(pieces[0].as_slice(), ".");
    let mut parts: Vec<Vec<char>> = Vec::new();
    let mut i: usize = 0;
    assert(views(pieces@).take(0) =~= Seq::<Seq<char>>::empty());
    assert(views(parts@) =~= Seq::<Seq<char>>::empty());
    while i < pieces.len()
        invariant
            i <= pieces@.len(),
            views(parts@) == named_parts(views(pieces@).take(i as int)),
        decreases pieces@.len() - i,
    {
        let ghost before = views(parts@);
        assert(views(pieces@).take(i + 1).drop_last() =~= views(pieces@).take(i as int));
        assert(views(pieces@).take(i + 1).last() == pieces@[i as int]@);
        let p = &pieces[i];
        if p.len() > 0 && !all_eq_str(p.as_slice(), ".") {
            parts.push(p.clone());
            assert(views(parts@) =~= before.push(pieces@[i as int]@));
        }
        i += 1;
    }
    assert(views(pieces@).take(pieces@.len() as int) =~= views(pieces@));
    PathParts { root, cur_dir, parts }
}

pub proof fn lemma_split_nonempty(s: Seq<char>, sep: char, done: Seq<Seq<char>>, cur: Seq<char>)
    ensures
        crate::text::split_acc(s, sep, done, cur).len() > done.len(),
    decreases s.len(),
{
    if s.len() > 0 {
        if s[0] == sep {
            lemma_split_nonempty(s.drop_first(), sep, done.push(cur), Seq::empty());
        } else {
            lemma_split_nonempty(s.drop_first(), sep, done, cur.push(s[0]));
        }
    }
}

/// Whether two lists of names are equal.
fn same_parts(a: &Vec<Vec<char>>, b: &Vec<Vec<char>>) -> (r: bool)
    ensures
        r == (views(a@) == views(b@)),
{
    if a.len() != b.len() {
        return false;
    }
    let mut i: usize = 0;
    while i < a.len()
        invariant
            a@.len() == b@.len(),
            i <= a@.len(),
            forall|k: int| 0 <= k < i ==> a@[k]@ == b@[k]@,
        decreases a@.len() - i,
    {
        if !crate::text::chars_eq(a[i].as_slice(), b[i].as_slice()) {
            assert(views(a@)[i as int] != views(b@)[i as int]);
            return false;
        }
        i += 1;
    }
    assert(views(a@) =~= views(b@));
    true
}

/// Whether two paths have the same components.
pub fn paths_equal(a: &[char], b: &[char]) -> (r: bool)
    ensures
        r == same_path(a@, b@),
{
    let pa = parts_of(a);
    let pb = parts_of(b);
    pa.root == pb.root && pa.cur_dir == pb.cur_dir && same_parts(&pa.parts, &pb.parts)
}

} // verus!
