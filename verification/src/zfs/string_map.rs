//! A map from strings to strings that keeps its entries in the order their
//! keys were first inserted.
use vstd::prelude::*;

verus! {

/// The map that a list of entries stands for, later entries winning.
pub open spec fn entries_map(s: Seq<(Seq<char>, Seq<char>)>) -> Map<Seq<char>, Seq<char>>
    decreases s.len(),
{
    if s.len() == 0 {
        Map::empty()
    } else {
        entries_map(s.drop_last()).insert(s.last().0, s.last().1)
    }
}

/// Whether no key occurs twice in a list of entries.
pub open spec fn distinct_keys(s: Seq<(Seq<char>, Seq<char>)>) -> bool {
    forall|i: int, j: int| 0 <= i < j < s.len() ==> (#[trigger] s[i]).0 != (#[trigger] s[j]).0
}

/// The views of a list of entries.
pub open spec fn pairs_view(v: Seq<(String, String)>) -> Seq<(Seq<char>, Seq<char>)> {
    v.map_values(|p: (String, String)| (p.0@, p.1@))
}

/// A map from strings to strings, in the order the keys came.
#[derive(Debug)]
pub struct StringMap {
    entries: Vec<(String, String)>,
}

proof fn lemma_entries_map_dom(s: Seq<(Seq<char>, Seq<char>)>, k: Seq<char>)
    ensures
        entries_map(s).dom().contains(k) <==> exists|i: int| 0 <= i < s.len() && s[i].0 == k,
    decreases s.len(),
{
    if s.len() > 0 {
        lemma_entries_map_dom(s.drop_last(), k);
        if entries_map(s.drop_last()).dom().contains(k) {
            let i = choose|i: int| 0 <= i < s.drop_last().len() && s.drop_last()[i].0 == k;
            assert(s[i].0 == k);
        }
        if exists|i: int| 0 <= i < s.len() && s[i].0 == k {
            let i = choose|i: int| 0 <= i < s.len() && s[i].0 == k;
            if i < s.len() - 1 {
                assert(s.drop_last()[i].0 == k);
            }
        }
    }
}

proof fn lemma_entries_map_value(s: Seq<(Seq<char>, Seq<char>)>, i: int)
    requires
        distinct_keys(s),
        0 <= i < s.len(),
    ensures
        entries_map(s).dom().contains(s[i].0),
        entries_map(s)[s[i].0] == s[i].1,
    decreases s.len(),
{
    if i < s.len() - 1 {
        assert(distinct_keys(s.drop_last())) by {
            assert forall|a: int, b: int| 0 <= a < b < s.drop_last().len() implies (#[trigger] s.drop_last()[a]).0
                != (#[trigger] s.drop_last()[b]).0 by {
                assert(s[a] == s.drop_last()[a]);
                assert(s[b] == s.drop_last()[b]);
            }
        }
        lemma_entries_map_value(s.drop_last(), i);
        assert(s.drop_last()[i] == s[i]);
        assert(s[i].0 != s.last().0);
    }
}

proof fn lemma_entries_map_len(s: Seq<(Seq<char>, Seq<char>)>)
    requires
        distinct_keys(s),
    ensures
        entries_map(s).dom().finite(),
        entries_map(s).dom().len() == s.len(),
    decreases s.len(),
{
    if s.len() > 0 {
        let t = s.drop_last();
        assert(distinct_keys(t)) by {
            assert forall|a: int, b: int| 0 <= a < b < t.len() implies (#[trigger] t[a]).0 != (#[trigger] t[b]).0 by {
                assert(s[a] == t[a]);
                assert(s[b] == t[b]);
            }
        }
        lemma_entries_map_len(t);
        lemma_entries_map_dom(t, s.last().0);
        if entries_map(t).dom().contains(s.last().0) {
            let i = choose|i: int| 0 <= i < t.len() && t[i].0 == s.last().0;
            assert(s[i] == t[i]);
            assert(s[i].0 != s[s.len() - 1].0);
        }
    }
}

/// Maps are equal whatever the order in which two different keys were
/// inserted.
pub proof fn lemma_insert_order_is_irrelevant(
    m: Map<Seq<char>, Seq<char>>,
    a: Seq<char>,
    x: Seq<char>,
    b: Seq<char>,
    y: Seq<char>,
)
    requires
        a != b,
    ensures
        m.insert(a, x).insert(b, y) == m.insert(b, y).insert(a, x),
{
    assert(m.insert(a, x).insert(b, y) =~= m.insert(b, y).insert(a, x));
}

impl StringMap {
    #[verifier::type_invariant]
    closed spec fn keys_distinct(self) -> bool {
        distinct_keys(pairs_view(self.entries@))
    }

    /// The entries, in the order their keys came.
    pub closed spec fn entries(self) -> Seq<(Seq<char>, Seq<char>)> {
        pairs_view(self.entries@)
    }

    /// The map the entries stand for.
    pub open spec fn spec_map(self) -> Map<Seq<char>, Seq<char>> {
        entries_map(self.entries())
    }

    /// An empty map.
    pub fn new() -> (r: StringMap)
        ensures
            r.entries() == Seq::<(Seq<char>, Seq<char>)>::empty(),
    {
        let r = StringMap { entries: Vec::new() };
        assert(r.entries() =~= Seq::empty());
        r
    }

    /// The number of keys.
    pub fn len(&self) -> (r: usize)
        ensures
            r == self.entries().len(),
            r == self.spec_map().dom().len(),
    {
        proof {
            use_type_invariant(self);
            lemma_entries_map_len(self.entries());
        }
        self.entries.len()
    }

    /// The position of `key` among the entries, if it has one.
    fn position(&self, key: &str) -> (r: Option<usize>)
        ensures
            match r {
                Some(i) => i < self.entries().len() && self.entries()[i as int].0 == key@,
                None => forall|i: int| 0 <= i < self.entries().len() ==> self.entries()[i].0 != key@,
            },
    {
        let ks = key.to_owned();
        let mut i: usize = 0;
        while i < self.entries.len()
            invariant
                i <= self.entries@.len(),
                ks@ == key@,
                forall|k: int| 0 <= k < i ==> pairs_view(self.entries@)[k].0 != key@,
            decreases self.entries@.len() - i,
        {
            if self.entries[i].0.eq(&ks) {
                return Some(i);
            }
            i += 1;
        }
        None
    }

    /// The value of `key`, if it has one.
    pub fn get(&self, key: &str) -> (r: Option<&String>)
        ensures
            match r {
                Some(v) => self.spec_map().dom().contains(key@) && self.spec_map()[key@] == v@,
                None => !self.spec_map().dom().contains(key@),
            },
    {
        proof {
            use_type_invariant(self);
            lemma_entries_map_dom(self.entries(), key@);
        }
        match self.position(key) {
            Some(i) => {
                proof {
                    lemma_entries_map_value(self.entries(), i as int);
                }
                Some(&self.entries[i].1)
            },
            None => None,
        }
    }

    /// Whether `key` has a value.
    pub fn contains_key(&self, key: &str) -> (r: bool)
        ensures
            r == self.spec_map().dom().contains(key@),
    {
        self.get(key).is_some()
    }

    /// Gives `key` the value `value`: a new key goes last, a known key keeps
    /// its place.
    pub fn insert(&mut self, key: String, value: String)
        ensures
            final(self).spec_map() == old(self).spec_map().insert(key@, value@),
            (exists|i: int| 0 <= i < old(self).entries().len() && old(self).entries()[i].0 == key@)
                ==> final(self).entries().len() == old(self).entries().len(),
            (forall|i: int| 0 <= i < old(self).entries().len() ==> old(self).entries()[i].0 != key@)
                ==> final(self).entries() == old(self).entries().push((key@, value@)),
    {
        proof {
            use_type_invariant(&*self);
        }
        let ghost before = self.entries();
        match self.position(key.as_str()) {
            Some(i) => {
                let ghost k = key@;
                let ghost v = value@;
                let mut entries: Vec<(String, String)> = Vec::new();
                std::mem::swap(&mut entries, &mut self.entries);
                entries.set(i, (key, value));
                let ghost after = pairs_view(entries@);
                assert(after =~= before.update(i as int, (k, v)));
                assert(distinct_keys(after));
                proof {
                    assert forall|q: Seq<char>| #[trigger] entries_map(after).dom().contains(q) == entries_map(before).insert(k, v).dom().contains(q) by {
                        lemma_entries_map_dom(after, q);
                        lemma_entries_map_dom(before, q);
                        if q == k {
                            assert(after[i as int].0 == k);
                        }
                        if q != k && entries_map(before).dom().contains(q) {
                            let j = choose|j: int| 0 <= j < before.len() && before[j].0 == q;
                            assert(after[j].0 == q);
                        }
                        if entries_map(after).dom().contains(q) {
                            let j = choose|j: int| 0 <= j < after.len() && after[j].0 == q;
                            if j != i {
                                assert(before[j].0 == q);
                            }
                        }
                    }
                    assert forall|q: Seq<char>| #[trigger] entries_map(after).dom().contains(q) implies entries_map(after)[q] == entries_map(before).insert(k, v)[q] by {
                        lemma_entries_map_dom(after, q);
                        let j = choose|j: int| 0 <= j < after.len() && after[j].0 == q;
                        lemma_entries_map_value(after, j);
                        if j != i {
                            lemma_entries_map_value(before, j);
                        }
                    }
                    assert(entries_map(after) =~= entries_map(before).insert(k, v));
                }
                self.entries = entries;
            },
            None => {
                let ghost k = key@;
                let ghost v = value@;
                let mut entries: Vec<(String, String)> = Vec::new();
                std::mem::swap(&mut entries, &mut self.entries);
                entries.push((key, value));
                let ghost after = pairs_view(entries@);
                assert(after =~= before.push((k, v)));
                assert(after.drop_last() =~= before);
                self.entries = entries;
            },
        }
    }

    /// The entries, in the order their keys came.
    pub fn pairs(&self) -> (r: Vec<(String, String)>)
        ensures
            pairs_view(r@) == self.entries(),
    {
        let mut r: Vec<(String, String)> = Vec::new();
        let mut i: usize = 0;
        while i < self.entries.len()
            invariant
                i <= self.entries@.len(),
                pairs_view(r@) == pairs_view(self.entries@).take(i as int),
            decreases self.entries@.len() - i,
        {
            let ghost before = pairs_view(r@);
            let k = self.entries[i].0.clone();
            let v = self.entries[i].1.clone();
            r.push((k, v));
            assert(pairs_view(r@) =~= before.push(pairs_view(self.entries@)[i as int]));
            assert(pairs_view(self.entries@).take(i + 1) =~= pairs_view(self.entries@).take(i as int).push(
                pairs_view(self.entries@)[i as int],
            ));
            i += 1;
        }
        assert(pairs_view(self.entries@).take(self.entries@.len() as int) =~= pairs_view(self.entries@));
        r
    }

    /// Whether every entry of `self` is in `other` with the same value.
    fn within(&self, other: &StringMap) -> (r: bool)
        ensures
            r == (forall|k: Seq<char>| #[trigger] self.spec_map().dom().contains(k) ==> other.spec_map().dom().contains(k)
                && other.spec_map()[k] == self.spec_map()[k]),
    {
        proof {
            use_type_invariant(self);
        }
        let mut i: usize = 0;
        while i < self.entries.len()
            invariant
                i <= self.entries@.len(),
                distinct_keys(self.entries()),
                self.entries() == pairs_view(self.entries@),
                forall|j: int| 0 <= j < i ==> other.spec_map().dom().contains(#[trigger] self.entries()[j].0)
                    && other.spec_map()[self.entries()[j].0] == self.entries()[j].1,
            decreases self.entries@.len() - i,
        {
            let ghost kv = self.entries()[i as int];
            match other.get(self.entries[i].0.as_str()) {
                Some(v) => {
                    if !v.eq(&self.entries[i].1) {
                        proof {
                            lemma_entries_map_value(self.entries(), i as int);
                            assert(self.spec_map().dom().contains(kv.0));
                        }
                        return false;
                    }
                },
                None => {
                    proof {
                        lemma_entries_map_value(self.entries(), i as int);
                        assert(self.spec_map().dom().contains(kv.0));
                    }
                    return false;
                },
            }
            i += 1;
        }
        proof {
            assert forall|k: Seq<char>| #[trigger] self.spec_map().dom().contains(k) implies other.spec_map().dom().contains(k)
                && other.spec_map()[k] == self.spec_map()[k] by {
                lemma_entries_map_dom(self.entries(), k);
                let j = choose|j: int| 0 <= j < self.entries().len() && self.entries()[j].0 == k;
                lemma_entries_map_value(self.entries(), j);
            }
        }
        true
    }
}

/// Maps are equal when they map the same keys to the same values, in
/// whatever order the keys came.
impl PartialEq for StringMap {
    fn eq(&self, other: &StringMap) -> (r: bool) {
        let r = self.within(other) && other.within(self);
        proof {
            if r {
                assert(self.spec_map() =~= other.spec_map());
            }
        }
        r
    }
}

impl vstd::std_specs::cmp::PartialEqSpecImpl for StringMap {
    open spec fn obeys_eq_spec() -> bool {
        true
    }

    open spec fn eq_spec(&self, other: &StringMap) -> bool {
        self.spec_map() == other.spec_map()
    }
}

impl Eq for StringMap {}

impl Clone for StringMap {
    fn clone(&self) -> (r: StringMap)
        ensures
            r.entries() == self.entries(),
    {
        proof {
            use_type_invariant(self);
        }
        StringMap { entries: self.pairs() }
    }
}

impl Default for StringMap {
    fn default() -> (r: StringMap)
        ensures
            r.entries() == Seq::<(Seq<char>, Seq<char>)>::empty(),
    {
        StringMap::new()
    }
}

} // verus!
