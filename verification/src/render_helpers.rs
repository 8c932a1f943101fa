//! Helpers shared by the layout renderers: breakpoint-scoped CSS custom
//! property names, token normalisation and inline-style serialisation.
//!
//! Layout renderers evaluate their tokens once per configured breakpoint and
//! store them in an ordered [`AttrMap`] under `--rustic_ui_<component>_<token>`
//! (with a `-<breakpoint>` suffix except at the base breakpoint), so SSR output
//! and the hydration pass serialise identically.

use vstd::prelude::*;

use crate::attr_map::{pairs_view, AttrMap};
use crate::insertion_map::{ordered_from, InsertionMap};
use crate::text::{
    bool_text, bool_to_string, decimal, is_blank, push_char, push_decimal, str_is_blank,
    to_owned_string,
};

verus! {

/// Layout breakpoints, smallest first.
#[derive(Clone, Copy, Debug, PartialEq, Eq, Structural)]
pub enum Breakpoint {
    Base,
    Sm,
    Md,
    Lg,
    Xl,
    Xxl,
}

/// Suffix attached to breakpoint-scoped variables: empty at the base
/// breakpoint, `-sm`, `-md`, `-lg`, `-xl`, `-xxl` otherwise.
pub open spec fn suffix_text(b: Breakpoint) -> Seq<char> {
    match b {
        Breakpoint::Base => Seq::empty(),
        Breakpoint::Sm => seq!['-', 's', 'm'],
        Breakpoint::Md => seq!['-', 'm', 'd'],
        Breakpoint::Lg => seq!['-', 'l', 'g'],
        Breakpoint::Xl => seq!['-', 'x', 'l'],
        Breakpoint::Xxl => seq!['-', 'x', 'x', 'l'],
    }
}

/// Appends the breakpoint suffix to `out`.
pub fn push_breakpoint_suffix(out: &mut String, breakpoint: Breakpoint)
    ensures
        final(out)@ == old(out)@ + suffix_text(breakpoint),
{
    match breakpoint {
        Breakpoint::Base => {},
        Breakpoint::Sm => {
            push_char(out, '-');
            push_char(out, 's');
            push_char(out, 'm');
        },
        Breakpoint::Md => {
            push_char(out, '-');
            push_char(out, 'm');
            push_char(out, 'd');
        },
        Breakpoint::Lg => {
            push_char(out, '-');
            push_char(out, 'l');
            push_char(out, 'g');
        },
        Breakpoint::Xl => {
            push_char(out, '-');
            push_char(out, 'x');
            push_char(out, 'l');
        },
        Breakpoint::Xxl => {
            push_char(out, '-');
            push_char(out, 'x');
            push_char(out, 'x');
            push_char(out, 'l');
        },
    }
    assert(final(out)@ =~= old(out)@ + suffix_text(breakpoint));
}

/// The canonical suffix of a breakpoint, as a `String`.
pub fn breakpoint_suffix(breakpoint: Breakpoint) -> (r: String)
    ensures
        r@ == suffix_text(breakpoint),
{
    let mut out = String::new();
    push_breakpoint_suffix(&mut out, breakpoint);
    assert(out@ =~= suffix_text(breakpoint));
    out
}

/// `--rustic_ui_`.
pub open spec fn var_prefix_text() -> Seq<char> {
    seq!['-', '-', 'r', 'u', 's', 't', 'i', 'c', '_', 'u', 'i', '_']
}

/// `--rustic_ui_<component>_<token><suffix>`.
pub open spec fn css_var_text(component: Seq<char>, token: Seq<char>, breakpoint: Breakpoint) -> Seq<
    char,
> {
    var_prefix_text() + component + seq!['_'] + token + suffix_text(breakpoint)
}

/// Custom property name for a component/token/breakpoint combination.
pub fn css_var(component: &str, token: &str, breakpoint: Breakpoint) -> (r: String)
    ensures
        r@ == css_var_text(component@, token@, breakpoint),
{
    let mut out = String::new();
    push_char(&mut out, '-');
    push_char(&mut out, '-');
    push_char(&mut out, 'r');
    push_char(&mut out, 'u');
    push_char(&mut out, 's');
    push_char(&mut out, 't');
    push_char(&mut out, 'i');
    push_char(&mut out, 'c');
    push_char(&mut out, '_');
    push_char(&mut out, 'u');
    push_char(&mut out, 'i');
    push_char(&mut out, '_');
    out.append(component);
    push_char(&mut out, '_');
    out.append(token);
    push_breakpoint_suffix(&mut out, breakpoint);
    assert(out@ =~= css_var_text(component@, token@, breakpoint));
    out
}

/// A blank token replaced by `fallback`, any other token kept.
pub open spec fn normalised_token(token: Seq<char>, fallback: Seq<char>) -> Seq<char> {
    if is_blank(token) {
        fallback
    } else {
        token
    }
}

/// `0px`.
pub open spec fn zero_px_text() -> Seq<char> {
    seq!['0', 'p', 'x']
}

/// Spacing tokens: a blank token becomes `0px`, since a CSS variable cannot
/// hold the empty string.
pub fn normalise_spacing_token(token: &str) -> (r: String)
    ensures
        r@ == normalised_token(token@, zero_px_text()),
{
    if str_is_blank(token) {
        let mut out = String::new();
        push_char(&mut out, '0');
        push_char(&mut out, 'p');
        push_char(&mut out, 'x');
        assert(out@ =~= zero_px_text());
        out
    } else {
        to_owned_string(token)
    }
}

/// Arbitrary CSS tokens: a blank token becomes `fallback`.
pub fn normalise_css_token(token: &str, fallback: &str) -> (r: String)
    ensures
        r@ == normalised_token(token@, fallback@),
{
    if str_is_blank(token) {
        to_owned_string(fallback)
    } else {
        to_owned_string(token)
    }
}

/// A boolean as the CSS flag `true` / `false`.
pub fn bool_to_css_flag(value: bool) -> (r: String)
    ensures
        r@ == bool_text(value),
{
    bool_to_string(value)
}

/// `display` value for a visibility flag.
pub open spec fn display_text(hidden: bool) -> Seq<char> {
    if hidden {
        seq!['n', 'o', 'n', 'e']
    } else {
        seq!['r', 'e', 'v', 'e', 'r', 't', '-', 'l', 'a', 'y', 'e', 'r']
    }
}

/// `visibility` value for a visibility flag.
pub open spec fn visibility_text(hidden: bool) -> Seq<char> {
    if hidden {
        seq!['h', 'i', 'd', 'd', 'e', 'n']
    } else {
        seq!['v', 'i', 's', 'i', 'b', 'l', 'e']
    }
}

/// `none` when hidden, `revert-layer` otherwise, so author-defined display
/// styles apply again when the element is visible.
pub fn visibility_to_display(hidden: bool) -> (r: String)
    ensures
        r@ == display_text(hidden),
{
    let mut out = String::new();
    if hidden {
        out.append("none");
        proof {
            reveal_strlit("none");
        }
    } else {
        out.append("revert-layer");
        proof {
            reveal_strlit("revert-layer");
        }
    }
    assert(out@ =~= display_text(hidden));
    out
}

/// `hidden` when hidden, `visible` otherwise.
pub fn visibility_to_visibility(hidden: bool) -> (r: String)
    ensures
        r@ == visibility_text(hidden),
{
    let mut out = String::new();
    if hidden {
        out.append("hidden");
        proof {
            reveal_strlit("hidden");
        }
    } else {
        out.append("visible");
        proof {
            reveal_strlit("visible");
        }
    }
    assert(out@ =~= visibility_text(hidden));
    out
}

/// `name: value;`.
pub open spec fn declaration_text(name: Seq<char>, value: Seq<char>) -> Seq<char> {
    name + seq![':', ' '] + value + seq![';']
}

/// Declarations in entry order, separated by single spaces.
pub open spec fn style_text(entries: Seq<(Seq<char>, Seq<char>)>) -> Seq<char>
    decreases entries.len(),
{
    if entries.len() == 0 {
        Seq::empty()
    } else if entries.len() == 1 {
        declaration_text(entries[0].0, entries[0].1)
    } else {
        style_text(entries.drop_last()).push(' ') + declaration_text(
            entries.last().0,
            entries.last().1,
        )
    }
}

/// Inline style string `name: value; name: value;` in key order.
pub fn css_variables_to_style(map: &AttrMap) -> (r: String)
    ensures
        r@ == style_text(map@),
{
    pairs_to_style(map.entries())
}

/// Inline style string `name: value; name: value;` in list order.
pub fn pairs_to_style(entries: &Vec<(String, String)>) -> (r: String)
    ensures
        r@ == style_text(pairs_view(entries@)),
{
    let ghost pv = pairs_view(entries@);
    let n = entries.len();
    let mut out = String::new();
    let mut i: usize = 0;
    while i < n
        invariant
            n == entries@.len(),
            pv == pairs_view(entries@),
            i <= n,
            out@ == style_text(pv.subrange(0, i as int)),
        decreases n - i,
    {
        if i > 0 {
            push_char(&mut out, ' ');
        }
        out.append(entries[i].0.as_str());
        push_char(&mut out, ':');
        push_char(&mut out, ' ');
        out.append(entries[i].1.as_str());
        push_char(&mut out, ';');
        proof {
            let s = pv.subrange(0, i + 1);
            assert(s.drop_last() =~= pv.subrange(0, i as int));
            assert(s.last() == pv[i as int]);
            if i == 0 {
                assert(out@ =~= declaration_text(s[0].0, s[0].1));
            } else {
                assert(out@ =~= style_text(s.drop_last()).push(' ') + declaration_text(
                    s.last().0,
                    s.last().1,
                ));
            }
        }
        i = i + 1;
    }
    assert(pv.subrange(0, n as int) =~= pv);
    out
}

/// `repeat(<columns>, minmax(0, 1fr))`.
pub open spec fn grid_template_text(columns: nat) -> Seq<char> {
    seq!['r', 'e', 'p', 'e', 'a', 't', '('] + decimal(columns) + seq![
        ',',
        ' ',
        'm',
        'i',
        'n',
        'm',
        'a',
        'x',
        '(',
        '0',
        ',',
        ' ',
        '1',
        'f',
        'r',
        ')',
        ')',
    ]
}

/// CSS grid template for the given column count.
pub fn grid_template(columns: u16) -> (r: String)
    ensures
        r@ == grid_template_text(columns as nat),
{
    let mut out = String::new();
    out.append("repeat(");
    proof {
        reveal_strlit("repeat(");
    }
    push_decimal(&mut out, columns as u64);
    out.append(", minmax(0, 1fr))");
    proof {
        reveal_strlit(", minmax(0, 1fr))");
    }
    assert(out@ =~= grid_template_text(columns as nat));
    out
}

/// The map after inserting each `(token, value)` of one breakpoint under its
/// scoped variable name, in order.
pub open spec fn insert_tokens(
    m: Map<Seq<char>, Seq<char>>,
    component: Seq<char>,
    breakpoint: Breakpoint,
    tokens: Seq<(Seq<char>, Seq<char>)>,
) -> Map<Seq<char>, Seq<char>>
    decreases tokens.len(),
{
    if tokens.len() == 0 {
        m
    } else {
        insert_tokens(m, component, breakpoint, tokens.drop_last()).insert(
            css_var_text(component, tokens.last().0, breakpoint),
            tokens.last().1,
        )
    }
}

/// The variables collected over every breakpoint, in breakpoint order; later
/// insertions of the same name win.
pub open spec fn responsive_map(
    component: Seq<char>,
    per_breakpoint: Seq<(Breakpoint, Seq<(Seq<char>, Seq<char>)>)>,
) -> Map<Seq<char>, Seq<char>>
    decreases per_breakpoint.len(),
{
    if per_breakpoint.len() == 0 {
        Map::empty()
    } else {
        insert_tokens(
            responsive_map(component, per_breakpoint.drop_last()),
            component,
            per_breakpoint.last().0,
            per_breakpoint.last().1,
        )
    }
}

/// Token lists per breakpoint, as plain values.
pub open spec fn tokens_view(v: Seq<(Breakpoint, Vec<(String, String)>)>) -> Seq<
    (Breakpoint, Seq<(Seq<char>, Seq<char>)>),
> {
    Seq::new(v.len(), |i: int| (v[i].0, pairs_view(v[i].1@)))
}

/// Inserts every `(token, value)` of every breakpoint into `map` under the
/// scoped variable name `--rustic_ui_<component>_<token><suffix>`.
pub fn collect_responsive_variables(
    map: &mut AttrMap,
    component: &str,
    per_breakpoint: &Vec<(Breakpoint, Vec<(String, String)>)>,
)
    ensures
        final(map).map() == responsive_map_from(old(map).map(), component@, tokens_view(per_breakpoint@)),
{
    let ghost tv = tokens_view(per_breakpoint@);
    let ghost m0 = map.map();
    let n = per_breakpoint.len();
    let mut i: usize = 0;
    while i < n
        invariant
            n == per_breakpoint@.len(),
            tv == tokens_view(per_breakpoint@),
            i <= n,
            map.map() == responsive_map_from(m0, component@, tv.subrange(0, i as int)),
        decreases n - i,
    {
        let breakpoint = per_breakpoint[i].0;
        let tokens = &per_breakpoint[i].1;
        let ghost before = map.map();
        let ghost tk = pairs_view(tokens@);
        let k = tokens.len();
        let mut j: usize = 0;
        while j < k
            invariant
                k == tokens@.len(),
                tk == pairs_view(tokens@),
                j <= k,
                map.map() == insert_tokens(before, component@, breakpoint, tk.subrange(0, j as int)),
            decreases k - j,
        {
            let name = css_var(component, tokens[j].0.as_str(), breakpoint);
            let value = tokens[j].1.clone();
            map.insert(name, value);
            assert(tk.subrange(0, j + 1).drop_last() =~= tk.subrange(0, j as int));
            j = j + 1;
        }
        assert(tk.subrange(0, k as int) =~= tk);
        assert(tv.subrange(0, i + 1).drop_last() =~= tv.subrange(0, i as int));
        assert(tv[i as int] == (breakpoint, tk));
        i = i + 1;
    }
    assert(tv.subrange(0, n as int) =~= tv);
}

/// [`responsive_map`] starting from an existing map.
pub open spec fn responsive_map_from(
    m: Map<Seq<char>, Seq<char>>,
    component: Seq<char>,
    per_breakpoint: Seq<(Breakpoint, Seq<(Seq<char>, Seq<char>)>)>,
) -> Map<Seq<char>, Seq<char>>
    decreases per_breakpoint.len(),
{
    if per_breakpoint.len() == 0 {
        m
    } else {
        insert_tokens(
            responsive_map_from(m, component, per_breakpoint.drop_last()),
            component,
            per_breakpoint.last().0,
            per_breakpoint.last().1,
        )
    }
}

/// Collecting into an empty map gives [`responsive_map`].
pub proof fn lemma_responsive_from_empty(
    component: Seq<char>,
    per_breakpoint: Seq<(Breakpoint, Seq<(Seq<char>, Seq<char>)>)>,
)
    ensures
        responsive_map_from(Map::empty(), component, per_breakpoint) == responsive_map(
            component,
            per_breakpoint,
        ),
    decreases per_breakpoint.len(),
{
    if per_breakpoint.len() > 0 {
        lemma_responsive_from_empty(component, per_breakpoint.drop_last());
    }
}

/// CSS variables and the matching inline style for one layout component.
pub fn render_responsive(
    component: &str,
    per_breakpoint: &Vec<(Breakpoint, Vec<(String, String)>)>,
) -> (r: (AttrMap, String))
    ensures
        r.0.map() == responsive_map(component@, tokens_view(per_breakpoint@)),
        r.1@ == style_text(r.0@),
{
    let mut map = AttrMap::new();
    collect_responsive_variables(&mut map, component, per_breakpoint);
    proof {
        lemma_responsive_from_empty(component@, tokens_view(per_breakpoint@));
    }
    let style = css_variables_to_style(&map);
    (map, style)
}

/// One breakpoint's tokens under their scoped variable names, in order.
pub open spec fn scoped_tokens(
    component: Seq<char>,
    breakpoint: Breakpoint,
    tokens: Seq<(Seq<char>, Seq<char>)>,
) -> Seq<(Seq<char>, Seq<char>)> {
    Seq::new(tokens.len(), |i: int| (css_var_text(component, tokens[i].0, breakpoint), tokens[i].1))
}

/// Every breakpoint's scoped tokens, breakpoint after breakpoint, in the
/// order they are inserted.
pub open spec fn responsive_entries(
    component: Seq<char>,
    per_breakpoint: Seq<(Breakpoint, Seq<(Seq<char>, Seq<char>)>)>,
) -> Seq<(Seq<char>, Seq<char>)>
    decreases per_breakpoint.len(),
{
    if per_breakpoint.len() == 0 {
        Seq::empty()
    } else {
        responsive_entries(component, per_breakpoint.drop_last()) + scoped_tokens(
            component,
            per_breakpoint.last().0,
            per_breakpoint.last().1,
        )
    }
}

/// Collects every breakpoint's tokens into an insertion-ordered map and its
/// inline style: variables stay in the order they were first inserted.
pub fn render_responsive_in_order(
    component: &str,
    per_breakpoint: &Vec<(Breakpoint, Vec<(String, String)>)>,
) -> (r: (InsertionMap, String))
    ensures
        r.0@ == ordered_from(responsive_entries(component@, tokens_view(per_breakpoint@))),
        r.1@ == style_text(r.0@),
{
    let ghost tv = tokens_view(per_breakpoint@);
    let mut map = InsertionMap::new();
    let n = per_breakpoint.len();
    let mut i: usize = 0;
    while i < n
        invariant
            n == per_breakpoint@.len(),
            tv == tokens_view(per_breakpoint@),
            i <= n,
            map@ == ordered_from(responsive_entries(component@, tv.subrange(0, i as int))),
        decreases n - i,
    {
        let breakpoint = per_breakpoint[i].0;
        let tokens = &per_breakpoint[i].1;
        let ghost tk = pairs_view(tokens@);
        let ghost before = responsive_entries(component@, tv.subrange(0, i as int));
        assert(tv[i as int] == (breakpoint, tk));
        let k = tokens.len();
        let mut j: usize = 0;
        while j < k
            invariant
                k == tokens@.len(),
                tk == pairs_view(tokens@),
                j <= k,
                map@ == ordered_from(before + scoped_tokens(component@, breakpoint, tk.subrange(0, j as int))),
            decreases k - j,
        {
            let name = css_var(component, tokens[j].0.as_str(), breakpoint);
            let value = tokens[j].1.clone();
            map.insert(name, value);
            proof {
                let all = before + scoped_tokens(component@, breakpoint, tk.subrange(0, j + 1));
                assert(all.drop_last() =~= before + scoped_tokens(component@, breakpoint, tk.subrange(0, j as int)));
                assert(all.last() == (css_var_text(component@, tk[j as int].0, breakpoint), tk[j as int].1));
            }
            j = j + 1;
        }
        proof {
            let s = tv.subrange(0, i + 1);
            assert(s.drop_last() =~= tv.subrange(0, i as int));
            assert(tk.subrange(0, k as int) =~= tk);
        }
        i = i + 1;
    }
    assert(tv.subrange(0, n as int) =~= tv);
    let style = pairs_to_style(map.entries());
    (map, style)
}

} // verus!
