//! A string map that keeps its entries in the order their keys were first
//! inserted; re-inserting a key replaces its value in place.

use vstd::prelude::*;

use crate::attr_map::{clone_attrs, lookup_first, pairs_view};
use crate::text::str_eq;

verus! {

/// No key occurs twice.
pub open spec fn distinct_keys(s: Seq<(Seq<char>, Seq<char>)>) -> bool {
    forall|i: int, j: int| 0 <= i < j < s.len() ==> #[trigger] s[i].0 != #[trigger] s[j].0
}

/// The position of `key` in `s`, for a list that holds it.
pub open spec fn key_position(s: Seq<(Seq<char>, Seq<char>)>, key: Seq<char>) -> int {
    choose|i: int| 0 <= i < s.len() && s[i].0 == key
}

/// Inserting `key -> value`: an existing entry keeps its place and takes the
/// new value; a new key goes last.
pub open spec fn ordered_insert(
    s: Seq<(Seq<char>, Seq<char>)>,
    key: Seq<char>,
    value: Seq<char>,
) -> Seq<(Seq<char>, Seq<char>)> {
    if exists|i: int| 0 <= i < s.len() && s[i].0 == key {
        s.update(key_position(s, key), (key, value))
    } else {
        s.push((key, value))
    }
}

/// The entries after inserting every pair of `s` into an empty map, in order.
pub open spec fn ordered_from(s: Seq<(Seq<char>, Seq<char>)>) -> Seq<(Seq<char>, Seq<char>)>
    decreases s.len(),
{
    if s.len() == 0 {
        Seq::empty()
    } else {
        ordered_insert(ordered_from(s.drop_last()), s.last().0, s.last().1)
    }
}

/// Inserting into a duplicate-free list keeps it duplicate-free.
pub proof fn lemma_ordered_insert_distinct(
    s: Seq<(Seq<char>, Seq<char>)>,
    key: Seq<char>,
    value: Seq<char>,
)
    requires
        distinct_keys(s),
    ensures
        distinct_keys(ordered_insert(s, key, value)),
{
    let t = ordered_insert(s, key, value);
    if exists|i: int| 0 <= i < s.len() && s[i].0 == key {
        let p = key_position(s, key);
        assert forall|i: int, j: int| 0 <= i < j < t.len() implies #[trigger] t[i].0 != #[trigger] t[j].0 by {
            assert(s[i].0 != s[j].0);
        }
    } else {
        assert forall|i: int, j: int| 0 <= i < j < t.len() implies #[trigger] t[i].0 != #[trigger] t[j].0 by {
            if j < s.len() {
                assert(s[i].0 != s[j].0);
            }
        }
    }
}

/// A string map iterated in insertion order.
#[derive(Debug)]
pub struct InsertionMap {
    entries: Vec<(String, String)>,
}

impl View for InsertionMap {
    type V = Seq<(Seq<char>, Seq<char>)>;

    /// The entries in insertion order.
    closed spec fn view(&self) -> Seq<(Seq<char>, Seq<char>)> {
        pairs_view(self.entries@)
    }
}

impl InsertionMap {
    /// Every key is listed once.
    #[verifier::type_invariant]
    pub closed spec fn inv(self) -> bool {
        distinct_keys(pairs_view(self.entries@))
    }

    /// An empty map.
    pub fn new() -> (r: Self)
        ensures
            r@ == Seq::<(Seq<char>, Seq<char>)>::empty(),
    {
        let r = InsertionMap { entries: Vec::new() };
        assert(r@ =~= Seq::<(Seq<char>, Seq<char>)>::empty());
        r
    }

    /// Number of entries.
    pub fn len(&self) -> (r: usize)
        ensures
            r == self@.len(),
    {
        self.entries.len()
    }

    /// Inserts `key -> value`: a key already present keeps its position and
    /// takes the new value, a new key is appended.
    pub fn insert(&mut self, key: String, value: String)
        ensures
            final(self)@ == ordered_insert(old(self)@, key@, value@),
    {
        proof {
            use_type_invariant(&*self);
        }
        let ghost s = self@;
        let mut entries: Vec<(String, String)> = Vec::new();
        std::mem::swap(&mut entries, &mut self.entries);
        assert(pairs_view(entries@) == s);
        let n = entries.len();
        let mut i: usize = 0;
        while i < n
            invariant
                n == entries@.len(),
                s == pairs_view(entries@),
                s == old(self)@,
                distinct_keys(s),
                i <= n,
                forall|j: int| 0 <= j < i ==> #[trigger] s[j].0 != key@,
            decreases n - i,
        {
            if str_eq(entries[i].0.as_str(), key.as_str()) {
                assert(s[i as int].0 == key@);
                let ghost p = key_position(s, key@);
                assert(s[p].0 == key@);
                assert(p == i) by {
                    if p < i {
                        assert(s[p].0 != s[i as int].0);
                    } else if p > i {
                        assert(s[i as int].0 != s[p].0);
                    }
                }
                let ghost kv = key@;
                let ghost vv = value@;
                entries.set(i, (key, value));
                assert(pairs_view(entries@) =~= s.update(i as int, (kv, vv)));
                assert(exists|q: int| 0 <= q < s.len() && s[q].0 == kv);
                assert(ordered_insert(s, kv, vv) == s.update(i as int, (kv, vv)));
                proof {
                    lemma_ordered_insert_distinct(s, kv, vv);
                }
                self.entries = entries;
                return;
            }
            i = i + 1;
        }
        let ghost kv = key@;
        let ghost vv = value@;
        entries.push((key, value));
        assert(pairs_view(entries@) =~= s.push((kv, vv)));
        proof {
            lemma_ordered_insert_distinct(s, kv, vv);
        }
        self.entries = entries;
    }

    /// Looks up `key`.
    pub fn get(&self, key: &str) -> (r: Option<&String>)
        ensures
            r is Some <==> lookup_first(self@, key@) is Some,
            r matches Some(v) ==> lookup_first(self@, key@) == Some(v@),
    {
        let ghost pv = self@;
        let n = self.entries.len();
        let mut i: usize = 0;
        assert(pv.subrange(0, n as int) =~= pv);
        while i < n
            invariant
                n == self.entries@.len(),
                pv == pairs_view(self.entries@),
                i <= n,
                lookup_first(pv, key@) == lookup_first(pv.subrange(i as int, n as int), key@),
            decreases n - i,
        {
            let ghost rest = pv.subrange(i as int, n as int);
            assert(rest[0] == pv[i as int]);
            assert(rest.drop_first() =~= pv.subrange(i + 1, n as int));
            if str_eq(self.entries[i].0.as_str(), key) {
                return Some(&self.entries[i].1);
            }
            i = i + 1;
        }
        None
    }

    /// Whether `key` has an entry.
    pub fn contains_key(&self, key: &str) -> (r: bool)
        ensures
            r == (lookup_first(self@, key@) is Some),
    {
        self.get(key).is_some()
    }

    /// The entries in insertion order.
    pub fn entries(&self) -> (r: &Vec<(String, String)>)
        ensures
            pairs_view(r@) == self@,
    {
        &self.entries
    }

    /// The entries in insertion order, copied out.
    pub fn pairs(&self) -> (r: Vec<(String, String)>)
        ensures
            pairs_view(r@) == self@,
    {
        clone_attrs(&self.entries)
    }
}

} // verus!
