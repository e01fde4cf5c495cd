//! Names of datasets read as paths: the pool they live in, the snapshot or
//! bookmark they name, and whether they are valid.
use vstd::prelude::*;

use super::errors::{ValidationError, ValidationErrorView};
use crate::path::{component_count, file_name, has_root, parts_of, path_parts, starts_cur_dir};
use crate::text::chars_of;
use crate::zpool::properties::opt_view;

verus! {

/// The text after the last `c` in `n`, or `None` when `n` has no `c`.
pub open spec fn after_last(n: Seq<char>, c: char) -> Option<Seq<char>>
    decreases n.len(),
{
    if n.len() == 0 {
        None
    } else if n.last() == c {
        Some(Seq::empty())
    } else {
        match after_last(n.drop_last(), c) {
            Some(t) => Some(t.push(n.last())),
            None => None,
        }
    }
}

/// The pool of the dataset `p`: its first component, for a relative path of
/// at least two components.
pub open spec fn spec_pool(p: Seq<char>) -> Option<Seq<char>> {
    if has_root(p) || component_count(p) < 2 {
        None
    } else if starts_cur_dir(p) {
        Some("."@)
    } else {
        Some(path_parts(p)[0])
    }
}

/// The part of the last component of `p` after its last `c`, when that
/// component has one: the snapshot for `@`, the bookmark for `#`.
pub open spec fn spec_suffix(p: Seq<char>, c: char) -> Option<Seq<char>> {
    match file_name(p) {
        Some(n) => after_last(n, c),
        None => None,
    }
}

/// The number of bytes of the UTF-8 encoding of `c`.
pub open spec fn char_utf8_len(c: char) -> nat {
    if (c as u32) < 0x80 {
        1
    } else if (c as u32) < 0x800 {
        2
    } else if (c as u32) < 0x10000 {
        3
    } else {
        4
    }
}

/// The number of bytes of the UTF-8 encoding of `s`.
pub open spec fn utf8_len(s: Seq<char>) -> nat
    decreases s.len(),
{
    if s.len() == 0 {
        0
    } else {
        utf8_len(s.drop_last()) + char_utf8_len(s.last())
    }
}

/// What is wrong with the name `p` of a dataset, if anything: a name that
/// ends with `/` or has no last component misses its name, an absolute path
/// misses its pool, and a last component longer than
/// `DATASET_NAME_MAX_LENGTH` bytes is too long.
pub open spec fn spec_validate_name(p: Seq<char>) -> Option<ValidationErrorView> {
    if p.len() > 0 && p.last() == '/' {
        Some(ValidationErrorView::MissingName(p))
    } else if has_root(p) {
        Some(ValidationErrorView::MissingPool(p))
    } else {
        match file_name(p) {
            None => Some(ValidationErrorView::MissingName(p)),
            Some(n) => if utf8_len(n) > super::DATASET_NAME_MAX_LENGTH {
                Some(ValidationErrorView::NameTooLong(p))
            } else {
                None
            },
        }
    }
}

proof fn lemma_after_last_found(n: Seq<char>, c: char, i: int)
    requires
        0 <= i < n.len(),
        n[i] == c,
        forall|j: int| i < j < n.len() ==> n[j] != c,
    ensures
        after_last(n, c) == Some(n.subrange(i + 1, n.len() as int)),
    decreases n.len(),
{
    if i == n.len() - 1 {
        assert(n.subrange(i + 1, n.len() as int) =~= Seq::<char>::empty());
    } else {
        lemma_after_last_found(n.drop_last(), c, i);
        assert(n.subrange(i + 1, n.len() as int) =~= n.drop_last().subrange(
            i + 1,
            n.len() - 1,
        ).push(n.last()));
    }
}

proof fn lemma_after_last_none(n: Seq<char>, c: char)
    requires
        forall|j: int| 0 <= j < n.len() ==> n[j] != c,
    ensures
        after_last(n, c) is None,
    decreases n.len(),
{
    if n.len() > 0 {
        lemma_after_last_none(n.drop_last(), c);
    }
}

/// The text after the last `c` in `n`.
fn after_last_of(n: &[char], c: char) -> (r: Option<String>)
    ensures
        opt_view(r) == after_last(n@, c),
{
    let mut i = n.len();
    while i > 0
        invariant
            i <= n@.len(),
            forall|j: int| i <= j < n@.len() ==> n@[j] != c,
        decreases i,
    {
        if n[i - 1] == c {
            proof {
                lemma_after_last_found(n@, c, i - 1);
            }
            return Some(crate::text::string_of(n, i, n.len()));
        }
        i -= 1;
    }
    proof {
        lemma_after_last_none(n@, c);
    }
    None
}

/// The last component of the path `p`, when it is a name.
fn file_name_of(p: &[char]) -> (r: Option<Vec<char>>)
    ensures
        match r {
            Some(v) => file_name(p@) == Some(v@),
            None => file_name(p@) is None,
        },
{
    let parts = parts_of(p);
    let k = parts.parts.len();
    if k == 0 {
        return None;
    }
    let last = &parts.parts[k - 1];
    assert(crate::text::views(parts.parts@).last() == last@);
    if crate::text::all_eq_str(last.as_slice(), "..") {
        None
    } else {
        Some(last.clone())
    }
}

proof fn lemma_utf8_len_grows(s: Seq<char>, i: int)
    requires
        0 <= i <= s.len(),
    ensures
        utf8_len(s.take(i)) <= utf8_len(s),
    decreases s.len() - i,
{
    if i < s.len() {
        lemma_utf8_len_grows(s, i + 1);
        assert(s.take(i + 1).drop_last() =~= s.take(i));
    } else {
        assert(s.take(i) =~= s);
    }
}

/// Whether the UTF-8 encoding of `n` is longer than `max` bytes.
fn longer_than(n: &[char], max: usize) -> (r: bool)
    requires
        max < usize::MAX - 4,
    ensures
        r == (utf8_len(n@) > max),
{
    let mut total: usize = 0;
    let mut i: usize = 0;
    assert(n@.take(0) =~= Seq::<char>::empty());
    while i < n.len()
        invariant
            i <= n@.len(),
            max < usize::MAX - 4,
            total == utf8_len(n@.take(i as int)),
            total <= max,
        decreases n@.len() - i,
    {
        let c = n[i];
        let w: usize = if (c as u32) < 0x80 {
            1
        } else if (c as u32) < 0x800 {
            2
        } else if (c as u32) < 0x10000 {
            3
        } else {
            4
        };
        assert(n@.take(i + 1).drop_last() =~= n@.take(i as int));
        total = total + w;
        i += 1;
        if total > max {
            proof {
                lemma_utf8_len_grows(n@, i as int);
            }
            return true;
        }
    }
    assert(n@.take(n@.len() as int) =~= n@);
    false
}

/// What is wrong with the name of a dataset, if anything.
pub fn validate_name(dataset: &str) -> (r: Result<(), ValidationError>)
    ensures
        match spec_validate_name(dataset@) {
            None => r is Ok,
            Some(e) => r matches Err(x) && x@ == e,
        },
{
    let p = chars_of(dataset);
    if p.len() > 0 && p[p.len() - 1] == '/' {
        return Err(ValidationError::MissingName(dataset.to_owned()));
    }
    if p.len() > 0 && p[0] == '/' {
        return Err(ValidationError::MissingPool(dataset.to_owned()));
    }
    match file_name_of(p.as_slice()) {
        None => Err(ValidationError::MissingName(dataset.to_owned())),
        Some(n) => {
            if longer_than(n.as_slice(), super::DATASET_NAME_MAX_LENGTH) {
                Err(ValidationError::NameTooLong(dataset.to_owned()))
            } else {
                Ok(())
            }
        },
    }
}

/// The pool of the dataset named by `p`.
fn pool_of(p: &[char]) -> (r: Option<String>)
    ensures
        opt_view(r) == spec_pool(p@),
{
    let parts = parts_of(p);
    let n = parts.parts.len();
    let few = if parts.cur_dir {
        n < 1
    } else {
        n < 2
    };
    if parts.root || few {
        return None;
    }
    if parts.cur_dir {
        proof {
            reveal_strlit(".");
        }
        let r = ".".to_owned();
        return Some(r);
    }
    assert(crate::text::views(parts.parts@)[0] == parts.parts@[0]@);
    Some(crate::text::string_of(parts.parts[0].as_slice(), 0, parts.parts[0].len()))
}

/// Names of datasets, read as paths.
pub trait PathExt {
    /// The text of the name.
    spec fn path_text(&self) -> Seq<char>;

    /// The characters of the name.
    fn path_chars(&self) -> (r: Vec<char>)
        ensures
            r@ == self.path_text(),
    ;

    /// The pool the dataset lives in.
    fn get_pool(&self) -> (r: Option<String>)
        ensures
            opt_view(r) == spec_pool(self.path_text()),
    {
        let p = self.path_chars();
        pool_of(p.as_slice())
    }

    /// The name of the snapshot, when this names one.
    fn get_snapshot(&self) -> (r: Option<String>)
        ensures
            opt_view(r) == spec_suffix(self.path_text(), '@'),
    {
        let p = self.path_chars();
        match file_name_of(p.as_slice()) {
            Some(n) => after_last_of(n.as_slice(), '@'),
            None => None,
        }
    }

    /// The name of the bookmark, when this names one.
    fn get_bookmark(&self) -> (r: Option<String>)
        ensures
            opt_view(r) == spec_suffix(self.path_text(), '#'),
    {
        let p = self.path_chars();
        match file_name_of(p.as_slice()) {
            Some(n) => after_last_of(n.as_slice(), '#'),
            None => None,
        }
    }

    /// Whether this names a snapshot.
    fn is_snapshot(&self) -> (r: bool)
        ensures
            r == spec_suffix(self.path_text(), '@') is Some,
    {
        self.get_snapshot().is_some()
    }

    /// Whether this names a bookmark.
    fn is_bookmark(&self) -> (r: bool)
        ensures
            r == spec_suffix(self.path_text(), '#') is Some,
    {
        self.get_bookmark().is_some()
    }

    /// Whether this names a volume or a filesystem: neither a bookmark nor a
    /// snapshot.
    fn is_volume_or_dataset(&self) -> (r: bool)
        ensures
            r == (spec_suffix(self.path_text(), '#') is None && spec_suffix(self.path_text(), '@') is None),
    {
        !self.is_bookmark() && !self.is_snapshot()
    }

    /// Whether the name is valid.
    fn is_valid(&self) -> (r: bool)
        ensures
            r == spec_validate_name(self.path_text()) is None,
    {
        self.validate().is_ok()
    }

    /// What is wrong with the name, if anything.
    fn validate(&self) -> (r: Result<(), ValidationError>)
        ensures
            match spec_validate_name(self.path_text()) {
                None => r is Ok,
                Some(e) => r matches Err(x) && x@ == e,
            },
    ;
}

impl PathExt for str {
    open spec fn path_text(&self) -> Seq<char> {
        self@
    }

    fn path_chars(&self) -> (r: Vec<char>) {
        chars_of(self)
    }

    fn validate(&self) -> (r: Result<(), ValidationError>) {
        validate_name(self)
    }
}

impl PathExt for String {
    open spec fn path_text(&self) -> Seq<char> {
        self@
    }

    fn path_chars(&self) -> (r: Vec<char>) {
        chars_of(self.as_str())
    }

    fn validate(&self) -> (r: Result<(), ValidationError>) {
        validate_name(self.as_str())
    }
}

} // verus!
