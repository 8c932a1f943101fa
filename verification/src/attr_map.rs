//! Attribute lists and the ordered string map used for CSS custom properties
//! and for the ARIA/data/automation buckets of selection controls.
//!
//! Entries of an [`AttrMap`] are kept sorted by key in code-point order, which
//! is the order `BTreeMap<String, String>` iterates in, so every serialisation
//! built from a map is deterministic.

use vstd::prelude::*;

use crate::text::{
    compare_str, lemma_seq_lt_asymmetric, lemma_seq_lt_irreflexive, lemma_seq_lt_total,
    lemma_seq_lt_transitive, seq_lt, str_eq, to_owned_string,
};

verus! {

/// The abstract content of a list of `(key, value)` string pairs.
pub open spec fn pairs_view(v: Seq<(String, String)>) -> Seq<(Seq<char>, Seq<char>)> {
    Seq::new(v.len(), |i: int| (v[i].0@, v[i].1@))
}

/// Appends one `(key, value)` pair to an attribute list.
pub fn push_attr(attrs: &mut Vec<(String, String)>, key: String, value: String)
    ensures
        pairs_view(final(attrs)@) == pairs_view(old(attrs)@).push((key@, value@)),
{
    let ghost k = key@;
    let ghost v = value@;
    attrs.push((key, value));
    assert(pairs_view(attrs@) =~= pairs_view(old(attrs)@).push((k, v)));
}

/// Appends one `(key, value)` pair given as string slices.
pub fn push_attr_str(attrs: &mut Vec<(String, String)>, key: &str, value: &str)
    ensures
        pairs_view(final(attrs)@) == pairs_view(old(attrs)@).push((key@, value@)),
{
    push_attr(attrs, to_owned_string(key), to_owned_string(value));
}

/// Appends every pair of `more` to `attrs`, in order.
pub fn extend_attrs(attrs: &mut Vec<(String, String)>, more: &Vec<(String, String)>)
    ensures
        pairs_view(final(attrs)@) == pairs_view(old(attrs)@) + pairs_view(more@),
{
    let n = more.len();
    let mut i: usize = 0;
    while i < n
        invariant
            n == more@.len(),
            i <= n,
            pairs_view(attrs@) == pairs_view(old(attrs)@) + pairs_view(more@.subrange(0, i as int)),
        decreases n - i,
    {
        let k = more[i].0.clone();
        let v = more[i].1.clone();
        push_attr(attrs, k, v);
        assert(pairs_view(more@.subrange(0, i + 1)) =~= pairs_view(more@.subrange(0, i as int)).push(
            (more@[i as int].0@, more@[i as int].1@),
        ));
        i = i + 1;
    }
    assert(more@.subrange(0, n as int) =~= more@);
}

/// Copies an attribute list.
pub fn clone_attrs(attrs: &Vec<(String, String)>) -> (r: Vec<(String, String)>)
    ensures
        pairs_view(r@) == pairs_view(attrs@),
{
    let mut r: Vec<(String, String)> = Vec::new();
    extend_attrs(&mut r, attrs);
    assert(pairs_view(r@) =~= pairs_view(attrs@));
    r
}

/// Whether a list holds a pair under `key`.
pub open spec fn has_key(pairs: Seq<(Seq<char>, Seq<char>)>, key: Seq<char>) -> bool {
    exists|i: int| 0 <= i < pairs.len() && #[trigger] pairs[i].0 == key
}

/// Executable [`has_key`].
pub fn attrs_have_key(attrs: &Vec<(String, String)>, key: &str) -> (r: bool)
    ensures
        r == has_key(pairs_view(attrs@), key@),
{
    let n = attrs.len();
    let mut i: usize = 0;
    while i < n
        invariant
            n == attrs@.len(),
            i <= n,
            forall|j: int| 0 <= j < i ==> #[trigger] pairs_view(attrs@)[j].0 != key@,
        decreases n - i,
    {
        if str_eq(attrs[i].0.as_str(), key) {
            assert(pairs_view(attrs@)[i as int].0 == key@);
            return true;
        }
        i = i + 1;
    }
    false
}

/// The value of the last pair under `key`, if any.
pub open spec fn lookup_last(pairs: Seq<(Seq<char>, Seq<char>)>, key: Seq<char>) -> Option<Seq<char>>
    decreases pairs.len(),
{
    if pairs.len() == 0 {
        None
    } else if pairs.last().0 == key {
        Some(pairs.last().1)
    } else {
        lookup_last(pairs.drop_last(), key)
    }
}

/// The value of the first pair under `key`, if any.
pub open spec fn lookup_first(pairs: Seq<(Seq<char>, Seq<char>)>, key: Seq<char>) -> Option<Seq<char>>
    decreases pairs.len(),
{
    if pairs.len() == 0 {
        None
    } else if pairs[0].0 == key {
        Some(pairs[0].1)
    } else {
        lookup_first(pairs.drop_first(), key)
    }
}

/// The abstract content of an optional string.
pub open spec fn opt_seq(o: Option<String>) -> Option<Seq<char>> {
    match o {
        Some(s) => Some(s@),
        None => None,
    }
}

/// Executable [`lookup_last`]: later pairs override earlier ones.
pub fn last_value(attrs: &Vec<(String, String)>, key: &str) -> (r: Option<String>)
    ensures
        opt_seq(r) == lookup_last(pairs_view(attrs@), key@),
{
    let ghost pv = pairs_view(attrs@);
    let n = attrs.len();
    let mut found: Option<String> = None;
    let mut i: usize = 0;
    while i < n
        invariant
            n == attrs@.len(),
            pv == pairs_view(attrs@),
            i <= n,
            opt_seq(found) == lookup_last(pv.subrange(0, i as int), key@),
        decreases n - i,
    {
        proof {
            let s = pv.subrange(0, i + 1);
            assert(s.drop_last() =~= pv.subrange(0, i as int));
            assert(s.last() == pv[i as int]);
        }
        if str_eq(attrs[i].0.as_str(), key) {
            found = Some(attrs[i].1.clone());
        }
        i = i + 1;
    }
    assert(pv.subrange(0, n as int) =~= pv);
    found
}

/// `o`'s value, or `default` when absent.
pub open spec fn value_or(o: Option<Seq<char>>, default: Seq<char>) -> Seq<char> {
    match o {
        Some(v) => v,
        None => default,
    }
}

/// The value of the last pair under `key`, or `default`.
pub fn last_value_or(attrs: &Vec<(String, String)>, key: &str, default: &str) -> (r: String)
    ensures
        r@ == value_or(lookup_last(pairs_view(attrs@), key@), default@),
{
    match last_value(attrs, key) {
        Some(v) => v,
        None => to_owned_string(default),
    }
}

/// Executable [`lookup_first`]: the first pair under `key` wins.
pub fn first_value(attrs: &[(String, String)], key: &str) -> (r: Option<String>)
    ensures
        opt_seq(r) == lookup_first(pairs_view(attrs@), key@),
{
    let ghost pv = pairs_view(attrs@);
    let n = attrs.len();
    let mut i: usize = 0;
    assert(pv.subrange(0, n as int) =~= pv);
    while i < n
        invariant
            n == attrs@.len(),
            pv == pairs_view(attrs@),
            i <= n,
            lookup_first(pv, key@) == lookup_first(pv.subrange(i as int, n as int), key@),
        decreases n - i,
    {
        let ghost rest = pv.subrange(i as int, n as int);
        assert(rest[0] == pv[i as int]);
        assert(rest.drop_first() =~= pv.subrange(i + 1, n as int));
        if str_eq(attrs[i].0.as_str(), key) {
            return Some(attrs[i].1.clone());
        }
        i = i + 1;
    }
    None
}

/// Keys strictly increasing in code-point order.
pub open spec fn sorted_keys(s: Seq<(Seq<char>, Seq<char>)>) -> bool {
    forall|i: int, j: int| 0 <= i < j < s.len() ==> seq_lt(#[trigger] s[i].0, #[trigger] s[j].0)
}

/// The map denoted by a list of pairs with distinct keys.
pub open spec fn pairs_to_map(s: Seq<(Seq<char>, Seq<char>)>) -> Map<Seq<char>, Seq<char>>
    decreases s.len(),
{
    if s.len() == 0 {
        Map::empty()
    } else {
        pairs_to_map(s.drop_last()).insert(s.last().0, s.last().1)
    }
}

/// An ordered map from string keys to string values (`BTreeMap<String, String>`).
#[derive(Debug)]
pub struct AttrMap {
    entries: Vec<(String, String)>,
}

impl View for AttrMap {
    type V = Seq<(Seq<char>, Seq<char>)>;

    /// The entries in iteration order.
    closed spec fn view(&self) -> Seq<(Seq<char>, Seq<char>)> {
        pairs_view(self.entries@)
    }
}

/// Sorted, duplicate-free lists that denote the same map are the same list:
/// an ordered map's entry order is fixed by its contents alone.
pub proof fn lemma_sorted_pairs_unique(
    a: Seq<(Seq<char>, Seq<char>)>,
    b: Seq<(Seq<char>, Seq<char>)>,
)
    requires
        sorted_keys(a),
        sorted_keys(b),
        pairs_to_map(a) == pairs_to_map(b),
    ensures
        a == b,
    decreases a.len() + b.len(),
{
    lemma_pairs_to_map_dom(a);
    lemma_pairs_to_map_dom(b);
    if a.len() == 0 || b.len() == 0 {
        if a.len() > 0 {
            assert(pairs_to_map(a).dom().contains(a.last().0));
        }
        if b.len() > 0 {
            assert(pairs_to_map(b).dom().contains(b.last().0));
        }
        assert(a =~= b);
    } else {
        let ka = a.last().0;
        let kb = b.last().0;
        // Both lists end with the greatest key of the shared domain.
        assert(pairs_to_map(a).dom().contains(kb));
        assert(pairs_to_map(b).dom().contains(ka));
        let ia = choose|i: int| 0 <= i < a.len() && a[i].0 == kb;
        let ib = choose|i: int| 0 <= i < b.len() && b[i].0 == ka;
        if ka != kb {
            lemma_seq_lt_total(ka, kb);
            if seq_lt(ka, kb) {
                if ia < a.len() - 1 {
                    lemma_seq_lt_asymmetric(ka, kb);
                }
                lemma_seq_lt_irreflexive(ka);
            } else {
                if ib < b.len() - 1 {
                    lemma_seq_lt_asymmetric(kb, ka);
                }
                lemma_seq_lt_irreflexive(kb);
            }
        }
        assert(ka == kb);
        lemma_sorted_drop_last(a);
        lemma_sorted_drop_last(b);
        lemma_last_key_fresh(a);
        lemma_last_key_fresh(b);
        let ma = pairs_to_map(a.drop_last());
        let mb = pairs_to_map(b.drop_last());
        assert(ma =~= pairs_to_map(a).remove(ka));
        assert(mb =~= pairs_to_map(b).remove(kb));
        lemma_sorted_pairs_unique(a.drop_last(), b.drop_last());
        assert(pairs_to_map(a)[ka] == a.last().1);
        assert(pairs_to_map(b)[kb] == b.last().1);
        assert(a =~= a.drop_last().push(a.last()));
        assert(b =~= b.drop_last().push(b.last()));
    }
}

/// The domain of [`pairs_to_map`] is the set of keys in the list.
pub proof fn lemma_pairs_to_map_dom(s: Seq<(Seq<char>, Seq<char>)>)
    ensures
        forall|k: Seq<char>|
            #![trigger pairs_to_map(s).dom().contains(k)]
            pairs_to_map(s).dom().contains(k) <==> exists|i: int| 0 <= i < s.len() && s[i].0 == k,
    decreases s.len(),
{
    if s.len() > 0 {
        let t = s.drop_last();
        lemma_pairs_to_map_dom(t);
        assert forall|k: Seq<char>|
            pairs_to_map(s).dom().contains(k) <==> exists|i: int| 0 <= i < s.len() && s[i].0 == k by {
            if pairs_to_map(s).dom().contains(k) {
                if k == s.last().0 {
                    assert(s[s.len() - 1].0 == k);
                } else {
                    assert(pairs_to_map(t).dom().contains(k));
                    let i = choose|i: int| 0 <= i < t.len() && t[i].0 == k;
                    assert(s[i].0 == k);
                }
            }
            if exists|i: int| 0 <= i < s.len() && s[i].0 == k {
                let i = choose|i: int| 0 <= i < s.len() && s[i].0 == k;
                if i < s.len() - 1 {
                    assert(t[i].0 == k);
                    assert(pairs_to_map(t).dom().contains(k));
                }
            }
        }
    }
}

/// Dropping the last entry keeps a list sorted.
pub proof fn lemma_sorted_drop_last(s: Seq<(Seq<char>, Seq<char>)>)
    requires
        sorted_keys(s),
        s.len() > 0,
    ensures
        sorted_keys(s.drop_last()),
{
    assert forall|i: int, j: int| 0 <= i < j < s.drop_last().len() implies seq_lt(
        #[trigger] s.drop_last()[i].0,
        #[trigger] s.drop_last()[j].0,
    ) by {
        assert(s.drop_last()[i] == s[i]);
        assert(s.drop_last()[j] == s[j]);
    }
}

/// In a sorted list the last key occurs nowhere else.
proof fn lemma_last_key_fresh(s: Seq<(Seq<char>, Seq<char>)>)
    requires
        sorted_keys(s),
        s.len() > 0,
    ensures
        !pairs_to_map(s.drop_last()).dom().contains(s.last().0),
{
    lemma_pairs_to_map_dom(s.drop_last());
    if pairs_to_map(s.drop_last()).dom().contains(s.last().0) {
        let i = choose|i: int| 0 <= i < s.drop_last().len() && s.drop_last()[i].0 == s.last().0;
        assert(s[i].0 == s[s.len() - 1].0);
        assert(seq_lt(s[i].0, s[s.len() - 1].0));
        lemma_seq_lt_irreflexive(s.last().0);
    }
}

/// In a sorted list, the map sends each listed key to the value listed with it.
pub proof fn lemma_sorted_lookup(s: Seq<(Seq<char>, Seq<char>)>, i: int)
    requires
        sorted_keys(s),
        0 <= i < s.len(),
    ensures
        pairs_to_map(s).dom().contains(s[i].0),
        pairs_to_map(s)[s[i].0] == s[i].1,
    decreases s.len(),
{
    lemma_pairs_to_map_dom(s);
    if i < s.len() - 1 {
        lemma_sorted_drop_last(s);
        assert(s.drop_last()[i] == s[i]);
        lemma_sorted_lookup(s.drop_last(), i);
        assert(seq_lt(s[i].0, s[s.len() - 1].0));
        if s[i].0 == s.last().0 {
            lemma_seq_lt_irreflexive(s[i].0);
        }
    }
}

/// Inserting a fresh key at its sorted position adds it to the map.
proof fn lemma_insert_at(s: Seq<(Seq<char>, Seq<char>)>, p: int, k: Seq<char>, v: Seq<char>)
    requires
        0 <= p <= s.len(),
        !pairs_to_map(s).dom().contains(k),
    ensures
        pairs_to_map(s.insert(p, (k, v))) == pairs_to_map(s).insert(k, v),
    decreases s.len(),
{
    lemma_pairs_to_map_dom(s);
    if p == s.len() {
        assert(s.insert(p, (k, v)) =~= s.push((k, v)));
        assert(s.push((k, v)).drop_last() =~= s);
    } else {
        let t = s.insert(p, (k, v));
        assert(t.drop_last() =~= s.drop_last().insert(p, (k, v)));
        assert(t.last() == s.last());
        lemma_pairs_to_map_dom(s.drop_last());
        if pairs_to_map(s.drop_last()).dom().contains(k) {
            let i = choose|i: int| 0 <= i < s.drop_last().len() && s.drop_last()[i].0 == k;
            assert(s[i].0 == k);
        }
        lemma_insert_at(s.drop_last(), p, k, v);
        assert(s.last().0 != k);
        assert(pairs_to_map(t) =~= pairs_to_map(s).insert(k, v));
    }
}

/// Overwriting the value of an existing entry updates the map.
proof fn lemma_update_at(s: Seq<(Seq<char>, Seq<char>)>, p: int, v: Seq<char>)
    requires
        sorted_keys(s),
        0 <= p < s.len(),
    ensures
        pairs_to_map(s.update(p, (s[p].0, v))) == pairs_to_map(s).insert(s[p].0, v),
    decreases s.len(),
{
    let k = s[p].0;
    let t = s.update(p, (k, v));
    if p == s.len() - 1 {
        assert(t.drop_last() =~= s.drop_last());
        assert(pairs_to_map(t) =~= pairs_to_map(s).insert(k, v));
    } else {
        lemma_sorted_drop_last(s);
        assert(t.drop_last() =~= s.drop_last().update(p, (k, v)));
        lemma_update_at(s.drop_last(), p, v);
        assert(seq_lt(s[p].0, s[s.len() - 1].0));
        if k == s.last().0 {
            lemma_seq_lt_irreflexive(k);
        }
        assert(pairs_to_map(t) =~= pairs_to_map(s).insert(k, v));
    }
}

/// Inserts `key -> value` into a sorted list, keeping it sorted.
fn insert_sorted(entries: &mut Vec<(String, String)>, key: String, value: String)
    requires
        sorted_keys(pairs_view(old(entries)@)),
    ensures
        sorted_keys(pairs_view(final(entries)@)),
        pairs_to_map(pairs_view(final(entries)@)) == pairs_to_map(pairs_view(old(entries)@)).insert(
            key@,
            value@,
        ),
{
    let ghost k = key@;
    let ghost v = value@;
    let ghost s = pairs_view(entries@);
    let n = entries.len();
    let mut p: usize = 0;
    let mut found = false;
    while p < n
        invariant_except_break
            !found,
        invariant
            n == entries@.len(),
            s == pairs_view(entries@),
            k == key@,
            sorted_keys(s),
            p <= n,
            forall|j: int| 0 <= j < p ==> seq_lt(#[trigger] s[j].0, k),
        ensures
            p <= n,
            found ==> p < n && s[p as int].0 == k,
            !found ==> (forall|j: int| 0 <= j < p ==> seq_lt(#[trigger] s[j].0, k)),
            !found ==> (p < n ==> seq_lt(k, s[p as int].0)),
        decreases n - p,
    {
        let c = compare_str(entries[p].0.as_str(), key.as_str());
        if c == 0 {
            found = true;
            break;
        } else if c > 0 {
            break;
        }
        p = p + 1;
    }
    if found {
        proof {
            lemma_update_at(s, p as int, v);
        }
        let old_key = entries[p].0.clone();
        entries.set(p, (old_key, value));
        assert(pairs_view(entries@) =~= s.update(p as int, (s[p as int].0, v)));
        assert(sorted_keys(pairs_view(entries@)));
    } else {
        proof {
            lemma_pairs_to_map_dom(s);
            if pairs_to_map(s).dom().contains(k) {
                let i = choose|i: int| 0 <= i < s.len() && s[i].0 == k;
                if i < p {
                    lemma_seq_lt_irreflexive(k);
                } else if i == p {
                    lemma_seq_lt_irreflexive(k);
                } else {
                    lemma_seq_lt_transitive(k, s[p as int].0, s[i].0);
                    lemma_seq_lt_irreflexive(k);
                }
            }
            lemma_insert_at(s, p as int, k, v);
        }
        entries.insert(p, (key, value));
        assert(pairs_view(entries@) =~= s.insert(p as int, (k, v)));
        proof {
            let t = pairs_view(entries@);
            assert forall|i: int, j: int| 0 <= i < j < t.len() implies seq_lt(
                #[trigger] t[i].0,
                #[trigger] t[j].0,
            ) by {
                if i < p && j < p {
                    assert(t[i] == s[i] && t[j] == s[j]);
                } else if i < p && j == p {
                    assert(t[i] == s[i]);
                } else if i < p {
                    assert(t[i] == s[i] && t[j] == s[j - 1]);
                } else if i == p {
                    assert(t[j] == s[j - 1]);
                    if j - 1 > p {
                        lemma_seq_lt_transitive(k, s[p as int].0, s[j - 1].0);
                    }
                } else {
                    assert(t[i] == s[i - 1] && t[j] == s[j - 1]);
                }
            }
        }
    }
}

impl AttrMap {
    /// Entries strictly sorted by key.
    #[verifier::type_invariant]
    pub closed spec fn inv(self) -> bool {
        sorted_keys(pairs_view(self.entries@))
    }

    /// The map denoted by the entries.
    pub open spec fn map(&self) -> Map<Seq<char>, Seq<char>> {
        pairs_to_map(self@)
    }

    /// The keys are strictly increasing and distinct, and the entries are the
    /// map's contents: each listed key maps to the value listed with it.
    pub proof fn lemma_well_formed(&self)
        requires
            self.inv(),
        ensures
            sorted_keys(self@),
            forall|i: int| 0 <= i < self@.len() ==> self.map().dom().contains(#[trigger] self@[i].0),
            forall|i: int| 0 <= i < self@.len() ==> self.map()[#[trigger] self@[i].0] == self@[i].1,
            forall|k: Seq<char>|
                self.map().dom().contains(k) <==> exists|i: int| 0 <= i < self@.len() && self@[i].0 == k,
    {
        lemma_pairs_to_map_dom(self@);
        assert forall|i: int| 0 <= i < self@.len() implies self.map().dom().contains(
            #[trigger] self@[i].0,
        ) && self.map()[self@[i].0] == self@[i].1 by {
            lemma_sorted_lookup(self@, i);
        }
    }

    /// An empty map (`BTreeMap::new`).
    pub fn new() -> (r: Self)
        ensures
            r@ == Seq::<(Seq<char>, Seq<char>)>::empty(),
            r.map() == Map::<Seq<char>, Seq<char>>::empty(),
    {
        let r = AttrMap { entries: Vec::new() };
        assert(r@ =~= Seq::<(Seq<char>, Seq<char>)>::empty());
        r
    }

    /// Number of entries.
    pub fn len(&self) -> (r: usize)
        ensures
            r == self@.len(),
    {
        self.entries.len()
    }

    /// Whether the map has no entries.
    pub fn is_empty(&self) -> (r: bool)
        ensures
            r == (self@.len() == 0),
    {
        self.entries.len() == 0
    }

    /// Inserts `key -> value`, replacing any previous value for `key`
    /// (`BTreeMap::insert`).
    pub fn insert(&mut self, key: String, value: String)
        ensures
            final(self).map() == old(self).map().insert(key@, value@),
    {
        proof {
            use_type_invariant(&*self);
        }
        let mut entries: Vec<(String, String)> = Vec::new();
        std::mem::swap(&mut entries, &mut self.entries);
        insert_sorted(&mut entries, key, value);
        self.entries = entries;
    }

    /// Inserts a pair given as string slices.
    pub fn insert_str(&mut self, key: &str, value: &str)
        ensures
            final(self).map() == old(self).map().insert(key@, value@),
    {
        self.insert(to_owned_string(key), to_owned_string(value));
    }

    /// Looks up `key` (`BTreeMap::get`).
    pub fn get(&self, key: &str) -> (r: Option<&String>)
        ensures
            r is Some <==> self.map().dom().contains(key@),
            r matches Some(v) ==> v@ == self.map()[key@],
    {
        proof {
            use_type_invariant(self);
            self.lemma_well_formed();
        }
        let n = self.entries.len();
        let mut i: usize = 0;
        while i < n
            invariant
                n == self@.len(),
                n == self.entries@.len(),
                i <= n,
                forall|j: int| 0 <= j < i ==> #[trigger] self@[j].0 != key@,
            decreases n - i,
        {
            if str_eq(self.entries[i].0.as_str(), key) {
                assert(self@[i as int].0 == key@);
                proof {
                    use_type_invariant(self);
                    lemma_sorted_lookup(self@, i as int);
                }
                assert(self.map().dom().contains(self@[i as int].0));
                assert(self.map()[self@[i as int].0] == self@[i as int].1);
                assert(self@[i as int].1 == self.entries@[i as int].1@);
                return Some(&self.entries[i].1);
            }
            i = i + 1;
        }
        proof {
            lemma_pairs_to_map_dom(self@);
        }
        assert(!self.map().dom().contains(key@));
        None
    }

    /// Whether `key` has an entry (`BTreeMap::contains_key`).
    pub fn contains_key(&self, key: &str) -> (r: bool)
        ensures
            r == self.map().dom().contains(key@),
    {
        self.get(key).is_some()
    }

    /// The entries in key order, copied out.
    pub fn pairs(&self) -> (r: Vec<(String, String)>)
        ensures
            pairs_view(r@) == self@,
    {
        clone_attrs(&self.entries)
    }

    /// A copy of the map.
    pub fn duplicate(&self) -> (r: Self)
        ensures
            r@ == self@,
            r.map() == self.map(),
    {
        proof {
            use_type_invariant(self);
        }
        AttrMap { entries: clone_attrs(&self.entries) }
    }

    /// The entries in key order.
    pub fn entries(&self) -> (r: &Vec<(String, String)>)
        ensures
            pairs_view(r@) == self@,
    {
        &self.entries
    }
}

} // verus!
