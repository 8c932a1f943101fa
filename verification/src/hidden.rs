//! Hidden layout renderer: display, visibility, ARIA and inert flags per
//! breakpoint, under the `--rustic_ui_hidden_*` namespace.

use vstd::prelude::*;

use crate::attr_map::{pairs_view, push_attr, AttrMap};
use crate::render_helpers::{
    bool_to_css_flag, display_text, visibility_text, visibility_to_display, visibility_to_visibility,
    render_responsive, responsive_map, style_text, tokens_view, Breakpoint,
};
use crate::responsive_lookup::{dash_free, lemma_last_occurrence, lemma_responsive_lookup, table_dash_free};
use crate::render_helpers::css_var_text;
use crate::text::{bool_text, to_owned_string};

verus! {

/// What the hidden logic reads of one breakpoint's evaluation.
#[derive(Debug)]
pub struct HiddenEvaluation {
    /// The breakpoint this evaluation belongs to.
    pub breakpoint: Breakpoint,
    /// The breakpoint's token (`as_token` of the layout configuration).
    pub breakpoint_token: String,
    /// Whether the content is hidden at this breakpoint.
    pub hidden: bool,
    /// Whether the content is inert.
    pub inert: bool,
    /// ARIA role token.
    pub role: String,
}

/// The tokens the hidden primitive emits for one breakpoint; the base
/// breakpoint also records which breakpoint is active.
pub open spec fn hidden_tokens(e: HiddenEvaluation) -> Seq<(Seq<char>, Seq<char>)> {
    let base = seq![
        ("display"@, display_text(e.hidden)),
        ("visibility"@, visibility_text(e.hidden)),
        ("aria_hidden"@, bool_text(e.hidden)),
        ("role"@, e.role@),
        ("inert"@, bool_text(e.inert)),
    ];
    if e.breakpoint == Breakpoint::Base {
        base.push(("active_breakpoint"@, e.breakpoint_token@))
    } else {
        base
    }
}

fn hidden_tokens_for_breakpoint(evaluation: &HiddenEvaluation) -> (r: Vec<(String, String)>)
    ensures
        pairs_view(r@) == hidden_tokens(*evaluation),
{
    let mut tokens: Vec<(String, String)> = Vec::new();
    push_attr(&mut tokens, to_owned_string("display"), visibility_to_display(evaluation.hidden));
    push_attr(&mut tokens, to_owned_string("visibility"), visibility_to_visibility(evaluation.hidden));
    push_attr(&mut tokens, to_owned_string("aria_hidden"), bool_to_css_flag(evaluation.hidden));
    push_attr(&mut tokens, to_owned_string("role"), evaluation.role.clone());
    push_attr(&mut tokens, to_owned_string("inert"), bool_to_css_flag(evaluation.inert));
    if evaluation.breakpoint == Breakpoint::Base {
        push_attr(
            &mut tokens,
            to_owned_string("active_breakpoint"),
            evaluation.breakpoint_token.clone(),
        );
    }
    assert(pairs_view(tokens@) =~= hidden_tokens(*evaluation));
    tokens
}

/// Result returned by [`render_hidden`].
#[derive(Debug)]
pub struct HiddenRenderOutput {
    css_variables: AttrMap,
    inline_style: String,
}

impl HiddenRenderOutput {
    /// The generated variables.
    pub closed spec fn vars(&self) -> AttrMap {
        self.css_variables
    }

    /// The generated inline style.
    pub closed spec fn style(&self) -> Seq<char> {
        self.inline_style@
    }

    /// The generated CSS variables keyed under `--rustic_ui_hidden_*`.
    pub fn css_variables(&self) -> (r: &AttrMap)
        ensures
            *r == self.vars(),
    {
        &self.css_variables
    }

    /// Inline style attribute built from the variables.
    pub fn inline_style(&self) -> (r: &str)
        ensures
            r@ == self.style(),
    {
        self.inline_style.as_str()
    }
}

/// Per-breakpoint token lists of a hidden layout.
pub open spec fn hidden_token_table(evaluations: Seq<(Breakpoint, HiddenEvaluation)>) -> Seq<
    (Breakpoint, Seq<(Seq<char>, Seq<char>)>),
> {
    Seq::new(evaluations.len(), |i: int| (evaluations[i].0, hidden_tokens(evaluations[i].1)))
}

/// Render one visibility evaluation per configured breakpoint into CSS variables and an inline style.
pub fn render_hidden(evaluations: &Vec<(Breakpoint, HiddenEvaluation)>) -> (r: HiddenRenderOutput)
    ensures
        r.vars().map() == responsive_map("hidden"@, hidden_token_table(evaluations@)),
        r.style() == style_text(r.vars()@),
{
    let mut table: Vec<(Breakpoint, Vec<(String, String)>)> = Vec::new();
    let n = evaluations.len();
    let mut i: usize = 0;
    while i < n
        invariant
            n == evaluations@.len(),
            i <= n,
            table@.len() == i,
            tokens_view(table@) == hidden_token_table(evaluations@).subrange(0, i as int),
        decreases n - i,
    {
        let tokens = hidden_tokens_for_breakpoint(&evaluations[i].1);
        let ghost tk = pairs_view(tokens@);
        let ghost tokens_value = tokens;
        let bp = evaluations[i].0;
        table.push((bp, tokens));
        assert(table@[i as int] == (bp, tokens_value));
        assert(tokens_view(table@)[i as int] == (bp, tk));
        assert(tokens_view(table@) =~= hidden_token_table(evaluations@).subrange(0, i + 1));
        i = i + 1;
    }
    assert(tokens_view(table@) =~= hidden_token_table(evaluations@));
    let (css_variables, inline_style) = render_responsive("hidden", &table);
    HiddenRenderOutput { css_variables, inline_style }
}

proof fn lemma_hidden_token_names(e: HiddenEvaluation)
    ensures
        hidden_tokens(e).len() >= 5,
        forall|k: int| 0 <= k < hidden_tokens(e).len() ==> dash_free(#[trigger] hidden_tokens(e)[k].0),
        forall|k1: int, k2: int|
            0 <= k1 < k2 < hidden_tokens(e).len() ==> #[trigger] hidden_tokens(e)[k1].0
                != #[trigger] hidden_tokens(e)[k2].0,
{
    reveal_strlit("display");
    reveal_strlit("visibility");
    reveal_strlit("aria_hidden");
    reveal_strlit("role");
    reveal_strlit("inert");
    reveal_strlit("active_breakpoint");
    let t = hidden_tokens(e);
    assert(t[0].0.len() == 7 && t[1].0.len() == 10 && t[2].0.len() == 11 && t[3].0.len() == 4
        && t[4].0.len() == 5);
    assert(dash_free(t[0].0));
    assert(dash_free(t[1].0));
    assert(dash_free(t[2].0));
    assert(dash_free(t[3].0));
    assert(dash_free(t[4].0));
    if t.len() > 5 {
        assert(t[5].0.len() == 17);
        assert(dash_free(t[5].0));
    }
}

/// At every breakpoint's last evaluation, display, visibility and
/// `aria-hidden` agree: `none`, `hidden` and `true` together when the content
/// is hidden, `revert-layer`, `visible` and `false` together otherwise.
pub proof fn law_hidden_variables_agree(evaluations: Seq<(Breakpoint, HiddenEvaluation)>, i: int)
    requires
        0 <= i < evaluations.len(),
        forall|j: int| i < j < evaluations.len() ==> #[trigger] evaluations[j].0 != evaluations[i].0,
    ensures
        ({
            let m = responsive_map("hidden"@, hidden_token_table(evaluations));
            let b = evaluations[i].0;
            let h = evaluations[i].1.hidden;
            let display = m[css_var_text("hidden"@, "display"@, b)];
            let visibility = m[css_var_text("hidden"@, "visibility"@, b)];
            let aria = m[css_var_text("hidden"@, "aria_hidden"@, b)];
            &&& m.dom().contains(css_var_text("hidden"@, "display"@, b))
            &&& m.dom().contains(css_var_text("hidden"@, "visibility"@, b))
            &&& m.dom().contains(css_var_text("hidden"@, "aria_hidden"@, b))
            &&& display == display_text(h)
            &&& visibility == visibility_text(h)
            &&& aria == bool_text(h)
            &&& (display == display_text(true)) == (visibility == visibility_text(true))
            &&& (visibility == visibility_text(true)) == (aria == bool_text(true))
            &&& (display == display_text(true) || display == display_text(false))
            &&& (visibility == visibility_text(true) || visibility == visibility_text(false))
            &&& (aria == bool_text(true) || aria == bool_text(false))
        }),
{
    let table = hidden_token_table(evaluations);
    assert forall|j: int, k: int| 0 <= j < table.len() && 0 <= k < table[j].1.len() implies dash_free(
        #[trigger] table[j].1[k].0,
    ) by {
        lemma_hidden_token_names(evaluations[j].1);
    }
    assert(table_dash_free(table));
    lemma_hidden_token_names(evaluations[i].1);
    assert forall|j: int| i < j < table.len() implies #[trigger] table[j].0 != table[i].0 by {
        assert(evaluations[j].0 != evaluations[i].0);
    }
    lemma_responsive_lookup("hidden"@, table, i, 0);
    lemma_responsive_lookup("hidden"@, table, i, 1);
    lemma_responsive_lookup("hidden"@, table, i, 2);
    assert(display_text(true).len() != display_text(false).len());
    assert(visibility_text(true).len() != visibility_text(false).len());
    assert(bool_text(true).len() != bool_text(false).len());
}

/// At every evaluated breakpoint display, visibility and `aria-hidden` are
/// present and agree: `none`, `hidden` and `true` together, or
/// `revert-layer`, `visible` and `false` together.
pub proof fn law_hidden_every_breakpoint(evaluations: Seq<(Breakpoint, HiddenEvaluation)>, j: int)
    requires
        0 <= j < evaluations.len(),
    ensures
        ({
            let m = responsive_map("hidden"@, hidden_token_table(evaluations));
            let b = evaluations[j].0;
            let display = m[css_var_text("hidden"@, "display"@, b)];
            let visibility = m[css_var_text("hidden"@, "visibility"@, b)];
            let aria = m[css_var_text("hidden"@, "aria_hidden"@, b)];
            &&& m.dom().contains(css_var_text("hidden"@, "display"@, b))
            &&& m.dom().contains(css_var_text("hidden"@, "visibility"@, b))
            &&& m.dom().contains(css_var_text("hidden"@, "aria_hidden"@, b))
            &&& ((display == display_text(true) && visibility == visibility_text(true) && aria == bool_text(true))
                || (display == display_text(false) && visibility == visibility_text(false) && aria == bool_text(
                false,
            )))
        }),
{
    let i = lemma_last_occurrence(evaluations, j);
    law_hidden_variables_agree(evaluations, i);
}

} // verus!
