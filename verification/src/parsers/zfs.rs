//! What `zfs(8)` prints: lists of datasets and its errors.
use vstd::prelude::*;

use crate::text::{is_space, lines_acc, spec_lines, spec_split, strip_eol, views};
use crate::zfs::description::DatasetKind;
use crate::zfs::errors::{dataset_not_found, spec_dataset_not_found};
use crate::zpool::properties::opt_view;
use crate::zpool::vdev::strings_view;

verus! {

/// Whether `s` reads as the name of a dataset: at least one character, no blank.
pub open spec fn is_dataset_name(s: Seq<char>) -> bool {
    s.len() > 0 && forall|i: int| 0 <= i < s.len() ==> !is_space(#[trigger] s[i])
}

/// The names that the lines of `text` hold, one per line; `None` when a
/// line holds anything else.
pub open spec fn spec_datasets(text: Seq<char>) -> Option<Seq<Seq<char>>> {
    let ls = spec_lines(text);
    if forall|i: int| 0 <= i < ls.len() ==> is_dataset_name(#[trigger] strip_eol(ls[i])) {
        Some(ls.map_values(|l: Seq<char>| strip_eol(l)))
    } else {
        None
    }
}

/// The kind and name that a line `kind<TAB>name` holds.
pub open spec fn spec_typed_line(l: Seq<char>) -> Option<(DatasetKind, Seq<char>)> {
    let pieces = spec_split(strip_eol(l), '\t');
    if pieces.len() == 2 && is_dataset_name(pieces[1]) {
        match DatasetKind::spec_from_name(pieces[0]) {
            Some(k) => Some((k, pieces[1])),
            None => None,
        }
    } else {
        None
    }
}

/// The kinds and names that the lines of `text` hold, one per line; `None`
/// when a line holds anything else.
pub open spec fn spec_datasets_with_type(text: Seq<char>) -> Option<Seq<(DatasetKind, Seq<char>)>> {
    let ls = spec_lines(text);
    if forall|i: int| 0 <= i < ls.len() ==> (#[trigger] spec_typed_line(ls[i])) is Some {
        Some(ls.map_values(|l: Seq<char>| spec_typed_line(l)->0))
    } else {
        None
    }
}

/// The views of kinds with names.
pub open spec fn typed_view(v: Seq<(DatasetKind, String)>) -> Seq<(DatasetKind, Seq<char>)> {
    v.map_values(|p: (DatasetKind, String)| (p.0, p.1@))
}

/// Whether the characters `s` read as the name of a dataset.
fn is_name(s: &[char]) -> (r: bool)
    ensures
        r == is_dataset_name(s@),
{
    if s.len() == 0 {
        return false;
    }
    let mut i: usize = 0;
    while i < s.len()
        invariant
            i <= s@.len(),
            forall|k: int| 0 <= k < i ==> !is_space(#[trigger] s@[k]),
        decreases s@.len() - i,
    {
        if s[i] == ' ' || s[i] == '\t' || s[i] == '\n' || s[i] == '\r' {
            return false;
        }
        i += 1;
    }
    true
}

/// Reader of what `zfs(8)` prints.
pub struct ZfsParser;

impl ZfsParser {
    /// The names of datasets listed one per line in `text`.
    pub fn parse_datasets(text: &str) -> (r: Option<Vec<String>>)
        ensures
            match spec_datasets(text@) {
                Some(v) => r matches Some(x) && strings_view(x@) == v,
                None => r is None,
            },
    {
        let chars = crate::text::chars_of(text);
        let lines = crate::text::lines_of(chars.as_slice());
        let ghost ls = views(lines@);
        let mut out: Vec<String> = Vec::new();
        let mut i: usize = 0;
        while i < lines.len()
            invariant
                i <= lines@.len(),
                ls == views(lines@),
                ls == spec_lines(text@),
                ls.len() == lines@.len(),
                forall|k: int| 0 <= k < i ==> is_dataset_name(#[trigger] strip_eol(ls[k])),
                strings_view(out@) == ls.take(i as int).map_values(|l: Seq<char>| strip_eol(l)),
            decreases lines@.len() - i,
        {
            let l = lines[i].as_slice();
            let n = crate::text::eol_start(l);
            let body = crate::text::sub_chars(l, 0, n);
            assert(body@ == strip_eol(ls[i as int]));
            if !is_name(body.as_slice()) {
                assert(!is_dataset_name(strip_eol(ls[i as int])));
                return None;
            }
            let ghost before = strings_view(out@);
            out.push(crate::text::string_of(body.as_slice(), 0, n));
            assert(body@.subrange(0, n as int) =~= body@);
            assert(strings_view(out@) =~= before.push(strip_eol(ls[i as int])));
            assert(ls.take(i + 1).map_values(|l: Seq<char>| strip_eol(l)) =~= ls.take(i as int).map_values(
                |l: Seq<char>| strip_eol(l),
            ).push(strip_eol(ls[i as int])));
            i += 1;
        }
        assert(ls.take(lines@.len() as int) =~= ls);
        Some(out)
    }

    /// The kinds and names of datasets listed one per line in `text`, as
    /// `kind<TAB>name`.
    pub fn parse_datasets_with_type(text: &str) -> (r: Option<Vec<(DatasetKind, String)>>)
        ensures
            match spec_datasets_with_type(text@) {
                Some(v) => r matches Some(x) && typed_view(x@) == v,
                None => r is None,
            },
    {
        let chars = crate::text::chars_of(text);
        let lines = crate::text::lines_of(chars.as_slice());
        let ghost ls = views(lines@);
        let mut out: Vec<(DatasetKind, String)> = Vec::new();
        let mut i: usize = 0;
        while i < lines.len()
            invariant
                i <= lines@.len(),
                ls == views(lines@),
                ls == spec_lines(text@),
                ls.len() == lines@.len(),
                forall|k: int| 0 <= k < i ==> (#[trigger] spec_typed_line(ls[k])) is Some,
                typed_view(out@) == ls.take(i as int).map_values(|l: Seq<char>| spec_typed_line(l)->0),
            decreases lines@.len() - i,
        {
            let l = lines[i].as_slice();
            let n = crate::text::eol_start(l);
            let body = crate::text::sub_chars(l, 0, n);
            assert(body@ == strip_eol(ls[i as int]));
            let pieces = crate::text::split_chars(body.as_slice(), '\t');
            if pieces.len() != 2 {
                assert(spec_typed_line(ls[i as int]) is None);
                return None;
            }
            assert(views(pieces@)[0] == pieces@[0]@);
            assert(views(pieces@)[1] == pieces@[1]@);
            if !is_name(pieces[1].as_slice()) {
                assert(spec_typed_line(ls[i as int]) is None);
                return None;
            }
            let kind = match DatasetKind::from_chars(pieces[0].as_slice()) {
                Some(k) => k,
                None => {
                    assert(spec_typed_line(ls[i as int]) is None);
                    return None;
                },
            };
            let name = crate::text::string_of(pieces[1].as_slice(), 0, pieces[1].len());
            assert(pieces@[1]@.subrange(0, pieces@[1]@.len() as int) =~= pieces@[1]@);
            let ghost before = typed_view(out@);
            out.push((kind, name));
            assert(typed_view(out@) =~= before.push(spec_typed_line(ls[i as int])->0));
            assert(ls.take(i + 1).map_values(|l: Seq<char>| spec_typed_line(l)->0) =~= ls.take(
                i as int,
            ).map_values(|l: Seq<char>| spec_typed_line(l)->0).push(spec_typed_line(ls[i as int])->0));
            i += 1;
        }
        assert(ls.take(lines@.len() as int) =~= ls);
        Some(out)
    }

    /// The dataset that the error text `text` reports missing, if it does.
    pub fn parse_dataset_not_found(text: &str) -> (r: Option<String>)
        ensures
            opt_view(r) == spec_dataset_not_found(text@),
    {
        let chars = crate::text::chars_of(text);
        dataset_not_found(chars.as_slice())
    }

    /// The name of a dataset that `text` holds, when all of it is one.
    pub fn parse_dataset_name(text: &str) -> (r: Option<String>)
        ensures
            is_dataset_name(text@) ==> (r matches Some(s) && s@ == text@),
            !is_dataset_name(text@) ==> r is None,
    {
        let chars = crate::text::chars_of(text);
        if is_name(chars.as_slice()) {
            Some(text.to_owned())
        } else {
            None
        }
    }
}

/// What `zfs list -H -o name` prints for the datasets `ns`: each name on a
/// line of its own.
pub open spec fn listing(ns: Seq<Seq<char>>) -> Seq<char>
    decreases ns.len(),
{
    if ns.len() == 0 {
        Seq::empty()
    } else {
        ns[0] + seq!['\n'] + listing(ns.drop_first())
    }
}

proof fn lemma_lines_of_text_without_newline(a: Seq<char>, b: Seq<char>, done: Seq<Seq<char>>, cur: Seq<char>)
    requires
        forall|i: int| 0 <= i < a.len() ==> a[i] != '\n',
    ensures
        lines_acc(a + b, done, cur) == lines_acc(b, done, cur + a),
    decreases a.len(),
{
    if a.len() == 0 {
        assert(a + b =~= b);
        assert(cur + a =~= cur);
    } else {
        assert((a + b).drop_first() =~= a.drop_first() + b);
        assert(cur.push(a[0]) + a.drop_first() =~= cur + a);
        lemma_lines_of_text_without_newline(a.drop_first(), b, done, cur.push(a[0]));
    }
}

proof fn lemma_lines_of_listing(ns: Seq<Seq<char>>, done: Seq<Seq<char>>)
    requires
        forall|i: int| 0 <= i < ns.len() ==> is_dataset_name(#[trigger] ns[i]),
    ensures
        lines_acc(listing(ns), done, Seq::empty()) == done + ns.map_values(|n: Seq<char>| n.push('\n')),
    decreases ns.len(),
{
    if ns.len() == 0 {
        assert(done + ns.map_values(|n: Seq<char>| n.push('\n')) =~= done);
    } else {
        let n = ns[0];
        let rest = ns.drop_first();
        assert(is_dataset_name(n));
        assert forall|i: int| 0 <= i < n.len() implies n[i] != '\n' by {
            assert(!is_space(n[i]));
        }
        assert forall|i: int| 0 <= i < rest.len() implies is_dataset_name(#[trigger] rest[i]) by {
            assert(rest[i] == ns[i + 1]);
        }
        let tail = seq!['\n'] + listing(rest);
        assert(listing(ns) =~= n + tail);
        lemma_lines_of_text_without_newline(n, tail, done, Seq::empty());
        assert(Seq::<char>::empty() + n =~= n);
        assert(tail.drop_first() =~= listing(rest));
        lemma_lines_of_listing(rest, done.push(n.push('\n')));
        assert(done.push(n.push('\n')) + rest.map_values(|m: Seq<char>| m.push('\n'))
            =~= done + ns.map_values(|m: Seq<char>| m.push('\n')));
    }
}

/// Reading what `zfs list` prints for a list of datasets gives that list back.
pub proof fn lemma_datasets_listing_round_trip(ns: Seq<Seq<char>>)
    requires
        forall|i: int| 0 <= i < ns.len() ==> is_dataset_name(#[trigger] ns[i]),
    ensures
        spec_datasets(listing(ns)) == Some(ns),
{
    lemma_lines_of_listing(ns, Seq::empty());
    let ls = spec_lines(listing(ns));
    assert(ls =~= ns.map_values(|n: Seq<char>| n.push('\n')));
    assert forall|i: int| 0 <= i < ls.len() implies strip_eol(#[trigger] ls[i]) == ns[i] by {
        let n = ns[i];
        assert(is_dataset_name(n));
        assert(!is_space(n.last()));
        assert(ls[i] == n.push('\n'));
        assert(n.push('\n').drop_last() =~= n);
    }
    assert(ls.map_values(|l: Seq<char>| strip_eol(l)) =~= ns);
}

} // verus!
