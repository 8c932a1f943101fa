//! What a responsive variable map holds under one breakpoint's name: the
//! value the last evaluation of that breakpoint gave the token.

use vstd::prelude::*;

use crate::insertion_map::{distinct_keys, ordered_from, ordered_insert};
use crate::render_helpers::{
    css_var_text, insert_tokens, responsive_entries, responsive_map, scoped_tokens, suffix_text, var_prefix_text,
    Breakpoint,
};

verus! {

/// A token name without a dash (every built-in token is one: the
/// breakpoint suffix is what starts with a dash).
pub open spec fn dash_free(t: Seq<char>) -> bool {
    forall|i: int| 0 <= i < t.len() ==> t[i] != '-'
}

/// Every token name of every breakpoint is dash-free.
pub open spec fn table_dash_free(table: Seq<(Breakpoint, Seq<(Seq<char>, Seq<char>)>)>) -> bool {
    forall|j: int, k: int|
        0 <= j < table.len() && 0 <= k < table[j].1.len() ==> dash_free(#[trigger] table[j].1[k].0)
}

/// No breakpoint after position `i` repeats `table[i]`'s breakpoint.
pub open spec fn last_of_breakpoint(table: Seq<(Breakpoint, Seq<(Seq<char>, Seq<char>)>)>, i: int) -> bool {
    forall|j: int| i < j < table.len() ==> #[trigger] table[j].0 != table[i].0
}

/// No token after position `k` repeats `tokens[k]`'s name.
pub open spec fn last_of_token(tokens: Seq<(Seq<char>, Seq<char>)>, k: int) -> bool {
    forall|k2: int| k < k2 < tokens.len() ==> #[trigger] tokens[k2].0 != tokens[k].0
}

proof fn lemma_suffix_injective(b1: Breakpoint, b2: Breakpoint)
    requires
        suffix_text(b1) == suffix_text(b2),
    ensures
        b1 == b2,
{
    let s1 = suffix_text(b1);
    let s2 = suffix_text(b2);
    assert(s1.len() == s2.len());
    if s1.len() > 1 {
        assert(s1[1] == s2[1]);
        if s1.len() > 2 {
            assert(s1[2] == s2[2]);
        }
    }
}

proof fn lemma_suffix_starts_with_dash(b: Breakpoint)
    ensures
        (b == Breakpoint::Base) == (suffix_text(b).len() == 0),
        b != Breakpoint::Base ==> suffix_text(b)[0] == '-',
{
}

/// Scoped names of dash-free tokens are distinct for distinct
/// `(token, breakpoint)` pairs.
pub proof fn lemma_scoped_name_injective(
    component: Seq<char>,
    t1: Seq<char>,
    b1: Breakpoint,
    t2: Seq<char>,
    b2: Breakpoint,
)
    requires
        dash_free(t1),
        dash_free(t2),
        css_var_text(component, t1, b1) == css_var_text(component, t2, b2),
    ensures
        t1 == t2,
        b1 == b2,
{
    let p = var_prefix_text() + component + seq!['_'];
    let n1 = css_var_text(component, t1, b1);
    let n2 = css_var_text(component, t2, b2);
    let s1 = t1 + suffix_text(b1);
    let s2 = t2 + suffix_text(b2);
    assert(n1.subrange(p.len() as int, n1.len() as int) =~= s1);
    assert(n2.subrange(p.len() as int, n2.len() as int) =~= s2);
    assert(s1 == s2);
    lemma_suffix_starts_with_dash(b1);
    lemma_suffix_starts_with_dash(b2);
    if b1 == Breakpoint::Base && b2 != Breakpoint::Base {
        assert(s2[t2.len() as int] == '-');
        assert(s1[t2.len() as int] == t1[t2.len() as int]);
    } else if b1 != Breakpoint::Base && b2 == Breakpoint::Base {
        assert(s1[t1.len() as int] == '-');
        assert(s2[t1.len() as int] == t2[t1.len() as int]);
    } else if b1 != Breakpoint::Base && b2 != Breakpoint::Base {
        if t1.len() < t2.len() {
            assert(s1[t1.len() as int] == '-');
            assert(s2[t1.len() as int] == t2[t1.len() as int]);
        } else if t2.len() < t1.len() {
            assert(s2[t2.len() as int] == '-');
            assert(s1[t2.len() as int] == t1[t2.len() as int]);
        }
    }
    assert(t1.len() == t2.len());
    assert(t1 =~= s1.subrange(0, t1.len() as int));
    assert(t2 =~= s2.subrange(0, t2.len() as int));
    assert(suffix_text(b1) =~= s1.subrange(t1.len() as int, s1.len() as int));
    assert(suffix_text(b2) =~= s2.subrange(t2.len() as int, s2.len() as int));
    lemma_suffix_injective(b1, b2);
}

proof fn lemma_insert_tokens_other(
    m: Map<Seq<char>, Seq<char>>,
    component: Seq<char>,
    breakpoint: Breakpoint,
    tokens: Seq<(Seq<char>, Seq<char>)>,
    name: Seq<char>,
)
    requires
        forall|k: int| 0 <= k < tokens.len() ==> css_var_text(component, #[trigger] tokens[k].0, breakpoint) != name,
    ensures
        insert_tokens(m, component, breakpoint, tokens).dom().contains(name) == m.dom().contains(name),
        m.dom().contains(name) ==> insert_tokens(m, component, breakpoint, tokens)[name] == m[name],
    decreases tokens.len(),
{
    if tokens.len() > 0 {
        let d = tokens.drop_last();
        assert forall|k: int| 0 <= k < d.len() implies css_var_text(component, #[trigger] d[k].0, breakpoint)
            != name by {
            assert(d[k] == tokens[k]);
        }
        lemma_insert_tokens_other(m, component, breakpoint, d, name);
        assert(css_var_text(component, tokens[tokens.len() - 1].0, breakpoint) != name);
    }
}

proof fn lemma_insert_tokens_last(
    m: Map<Seq<char>, Seq<char>>,
    component: Seq<char>,
    breakpoint: Breakpoint,
    tokens: Seq<(Seq<char>, Seq<char>)>,
    k: int,
)
    requires
        0 <= k < tokens.len(),
        last_of_token(tokens, k),
        forall|k2: int| 0 <= k2 < tokens.len() ==> dash_free(#[trigger] tokens[k2].0),
    ensures
        insert_tokens(m, component, breakpoint, tokens).dom().contains(
            css_var_text(component, tokens[k].0, breakpoint),
        ),
        insert_tokens(m, component, breakpoint, tokens)[css_var_text(component, tokens[k].0, breakpoint)]
            == tokens[k].1,
    decreases tokens.len(),
{
    let name = css_var_text(component, tokens[k].0, breakpoint);
    let last = tokens.len() - 1;
    if k < last {
        let d = tokens.drop_last();
        assert(d[k] == tokens[k]);
        assert forall|k2: int| k < k2 < d.len() implies #[trigger] d[k2].0 != d[k].0 by {
            assert(d[k2] == tokens[k2]);
        }
        assert forall|k2: int| 0 <= k2 < d.len() implies dash_free(#[trigger] d[k2].0) by {
            assert(d[k2] == tokens[k2]);
        }
        lemma_insert_tokens_last(m, component, breakpoint, d, k);
        if css_var_text(component, tokens[last].0, breakpoint) == name {
            lemma_scoped_name_injective(component, tokens[last].0, breakpoint, tokens[k].0, breakpoint);
        }
    }
}

/// The value a responsive map holds under a breakpoint's scoped token name
/// is the one the last evaluation of that breakpoint gave the last pair
/// under that token.
pub proof fn lemma_responsive_lookup(
    component: Seq<char>,
    table: Seq<(Breakpoint, Seq<(Seq<char>, Seq<char>)>)>,
    i: int,
    k: int,
)
    requires
        0 <= i < table.len(),
        0 <= k < table[i].1.len(),
        last_of_breakpoint(table, i),
        last_of_token(table[i].1, k),
        table_dash_free(table),
    ensures
        responsive_map(component, table).dom().contains(
            css_var_text(component, table[i].1[k].0, table[i].0),
        ),
        responsive_map(component, table)[css_var_text(component, table[i].1[k].0, table[i].0)]
            == table[i].1[k].1,
    decreases table.len(),
{
    let name = css_var_text(component, table[i].1[k].0, table[i].0);
    let last = table.len() - 1;
    let d = table.drop_last();
    assert forall|k2: int| 0 <= k2 < table[last].1.len() implies dash_free(#[trigger] table[last].1[k2].0) by {
    }
    if i == last {
        assert forall|k2: int| 0 <= k2 < table[i].1.len() implies dash_free(#[trigger] table[i].1[k2].0) by {
        }
        lemma_insert_tokens_last(responsive_map(component, d), component, table[i].0, table[i].1, k);
    } else {
        assert(d[i] == table[i]);
        assert forall|j: int| i < j < d.len() implies #[trigger] d[j].0 != d[i].0 by {
            assert(d[j] == table[j]);
        }
        assert forall|j: int, k2: int| 0 <= j < d.len() && 0 <= k2 < d[j].1.len() implies dash_free(
            #[trigger] d[j].1[k2].0,
        ) by {
            assert(d[j] == table[j]);
        }
        lemma_responsive_lookup(component, d, i, k);
        assert(table[last].0 != table[i].0);
        assert forall|k2: int| 0 <= k2 < table[last].1.len() implies css_var_text(
            component,
            #[trigger] table[last].1[k2].0,
            table[last].0,
        ) != name by {
            if css_var_text(component, table[last].1[k2].0, table[last].0) == name {
                lemma_scoped_name_injective(
                    component,
                    table[last].1[k2].0,
                    table[last].0,
                    table[i].1[k].0,
                    table[i].0,
                );
            }
        }
        lemma_insert_tokens_other(responsive_map(component, d), component, table[last].0, table[last].1, name);
    }
}

/// Folding a duplicate-free list into an empty insertion-ordered map gives
/// back the list itself.
pub proof fn lemma_ordered_from_distinct(s: Seq<(Seq<char>, Seq<char>)>)
    requires
        distinct_keys(s),
    ensures
        ordered_from(s) == s,
    decreases s.len(),
{
    if s.len() > 0 {
        let d = s.drop_last();
        assert forall|i: int, j: int| 0 <= i < j < d.len() implies #[trigger] d[i].0 != #[trigger] d[j].0 by {
            assert(d[i] == s[i] && d[j] == s[j]);
        }
        lemma_ordered_from_distinct(d);
        assert(!(exists|i: int| 0 <= i < d.len() && d[i].0 == s.last().0)) by {
            assert forall|i: int| 0 <= i < d.len() implies d[i].0 != s.last().0 by {
                assert(d[i] == s[i]);
                assert(s[i].0 != s[s.len() - 1].0);
            }
        }
        assert(ordered_insert(d, s.last().0, s.last().1) =~= s);
    }
}

/// Every breakpoint appears once in the table.
pub open spec fn distinct_breakpoints(table: Seq<(Breakpoint, Seq<(Seq<char>, Seq<char>)>)>) -> bool {
    forall|i: int, j: int| 0 <= i < j < table.len() ==> #[trigger] table[i].0 != #[trigger] table[j].0
}

/// No breakpoint's token list repeats a name.
pub open spec fn distinct_token_names(table: Seq<(Breakpoint, Seq<(Seq<char>, Seq<char>)>)>) -> bool {
    forall|j: int, k1: int, k2: int|
        0 <= j < table.len() && 0 <= k1 < k2 < table[j].1.len() ==> #[trigger] table[j].1[k1].0
            != #[trigger] table[j].1[k2].0
}

proof fn lemma_entries_shape(
    component: Seq<char>,
    table: Seq<(Breakpoint, Seq<(Seq<char>, Seq<char>)>)>,
    p: int,
)
    requires
        0 <= p < responsive_entries(component, table).len(),
    ensures
        exists|j: int, k: int|
            0 <= j < table.len() && 0 <= k < table[j].1.len() && responsive_entries(component, table)[p].0
                == #[trigger] css_var_text(component, table[j].1[k].0, table[j].0),
    decreases table.len(),
{
    let d = table.drop_last();
    let head = responsive_entries(component, d);
    let last = table.len() - 1;
    if p < head.len() {
        lemma_entries_shape(component, d, p);
        let (j, k) = choose|j: int, k: int|
            0 <= j < d.len() && 0 <= k < d[j].1.len() && head[p].0 == #[trigger] css_var_text(
                component,
                d[j].1[k].0,
                d[j].0,
            );
        assert(d[j] == table[j]);
        assert(responsive_entries(component, table)[p] == head[p]);
    } else {
        let k = p - head.len();
        assert(responsive_entries(component, table)[p] == scoped_tokens(component, table[last].0, table[last].1)[k]);
        assert(responsive_entries(component, table)[p].0 == css_var_text(component, table[last].1[k].0, table[last].0));
    }
}

/// With every breakpoint once and dash-free, distinct token names, the
/// scoped variable names of a table are all distinct.
pub proof fn lemma_entries_distinct(
    component: Seq<char>,
    table: Seq<(Breakpoint, Seq<(Seq<char>, Seq<char>)>)>,
)
    requires
        distinct_breakpoints(table),
        distinct_token_names(table),
        table_dash_free(table),
    ensures
        distinct_keys(responsive_entries(component, table)),
    decreases table.len(),
{
    if table.len() > 0 {
        let d = table.drop_last();
        let last = table.len() - 1;
        assert forall|i: int, j: int| 0 <= i < j < d.len() implies #[trigger] d[i].0 != #[trigger] d[j].0 by {
            assert(d[i] == table[i] && d[j] == table[j]);
        }
        assert forall|j: int, k1: int, k2: int| 0 <= j < d.len() && 0 <= k1 < k2 < d[j].1.len() implies
            #[trigger] d[j].1[k1].0 != #[trigger] d[j].1[k2].0 by {
            assert(d[j] == table[j]);
        }
        assert forall|j: int, k: int| 0 <= j < d.len() && 0 <= k < d[j].1.len() implies dash_free(
            #[trigger] d[j].1[k].0,
        ) by {
            assert(d[j] == table[j]);
        }
        lemma_entries_distinct(component, d);
        let head = responsive_entries(component, d);
        let tail = scoped_tokens(component, table[last].0, table[last].1);
        let all = responsive_entries(component, table);
        assert(all == head + tail);
        assert forall|a: int, b: int| 0 <= a < b < all.len() implies #[trigger] all[a].0 != #[trigger] all[b].0 by {
            if b < head.len() {
                assert(all[a] == head[a] && all[b] == head[b]);
            } else if a >= head.len() {
                let ka = a - head.len();
                let kb = b - head.len();
                assert(all[a] == tail[ka] && all[b] == tail[kb]);
                if tail[ka].0 == tail[kb].0 {
                    assert(dash_free(table[last].1[ka].0));
                    assert(dash_free(table[last].1[kb].0));
                    lemma_scoped_name_injective(
                        component,
                        table[last].1[ka].0,
                        table[last].0,
                        table[last].1[kb].0,
                        table[last].0,
                    );
                }
            } else {
                let kb = b - head.len();
                assert(all[a] == head[a] && all[b] == tail[kb]);
                lemma_entries_shape(component, d, a);
                let (j, k) = choose|j: int, k: int|
                    0 <= j < d.len() && 0 <= k < d[j].1.len() && head[a].0 == #[trigger] css_var_text(
                        component,
                        d[j].1[k].0,
                        d[j].0,
                    );
                assert(d[j] == table[j]);
                if head[a].0 == tail[kb].0 {
                    assert(dash_free(table[j].1[k].0));
                    assert(dash_free(table[last].1[kb].0));
                    lemma_scoped_name_injective(
                        component,
                        table[j].1[k].0,
                        table[j].0,
                        table[last].1[kb].0,
                        table[last].0,
                    );
                    assert(table[j].0 != table[last].0);
                }
            }
        }
    }
}

/// Every breakpoint listed at position `j` has a last listing at or after
/// `j`.
pub proof fn lemma_last_occurrence<T>(s: Seq<(Breakpoint, T)>, j: int) -> (i: int)
    requires
        0 <= j < s.len(),
    ensures
        j <= i < s.len(),
        s[i].0 == s[j].0,
        forall|k: int| i < k < s.len() ==> #[trigger] s[k].0 != s[i].0,
    decreases s.len() - j,
{
    if exists|k: int| j < k < s.len() && #[trigger] s[k].0 == s[j].0 {
        let k = choose|k: int| j < k < s.len() && #[trigger] s[k].0 == s[j].0;
        lemma_last_occurrence(s, k)
    } else {
        j
    }
}

} // verus!
