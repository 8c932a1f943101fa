//! Divider layout renderer: orientation, thickness and inset per breakpoint,
//! under the `--rustic_ui_divider_*` namespace.

use vstd::prelude::*;

use crate::attr_map::{pairs_view, push_attr};
use crate::insertion_map::{ordered_from, InsertionMap};
use crate::render_helpers::{
    normalise_css_token, normalise_spacing_token, normalised_token, zero_px_text,
    render_responsive_in_order, responsive_entries, style_text, tokens_view, Breakpoint,
};
use crate::responsive_lookup::{
    dash_free, distinct_breakpoints, distinct_token_names, lemma_entries_distinct, lemma_ordered_from_distinct,
    table_dash_free,
};
use crate::text::to_owned_string;

verus! {

/// What the divider logic reads of one breakpoint's evaluation.
#[derive(Debug)]
pub struct DividerEvaluation {
    /// The breakpoint this evaluation belongs to.
    pub breakpoint: Breakpoint,
    /// The breakpoint's token (`as_token` of the layout configuration).
    pub breakpoint_token: String,
    /// Orientation token.
    pub orientation: String,
    /// Line thickness.
    pub thickness: String,
    /// Inset spacing.
    pub inset: String,
    /// ARIA role token.
    pub role: String,
}

/// The tokens a divider emits for one breakpoint; the base breakpoint also
/// records which breakpoint is active.
pub open spec fn divider_tokens(e: DividerEvaluation) -> Seq<(Seq<char>, Seq<char>)> {
    let base = seq![
        ("orientation"@, e.orientation@),
        ("thickness"@, normalised_token(e.thickness@, "1px"@)),
        ("inset"@, normalised_token(e.inset@, zero_px_text())),
        ("role"@, e.role@),
    ];
    if e.breakpoint == Breakpoint::Base {
        base.push(("active_breakpoint"@, e.breakpoint_token@))
    } else {
        base
    }
}

fn divider_tokens_for_breakpoint(evaluation: &DividerEvaluation) -> (r: Vec<(String, String)>)
    ensures
        pairs_view(r@) == divider_tokens(*evaluation),
{
    let mut tokens: Vec<(String, String)> = Vec::new();
    push_attr(&mut tokens, to_owned_string("orientation"), evaluation.orientation.clone());
    push_attr(
        &mut tokens,
        to_owned_string("thickness"),
        normalise_css_token(evaluation.thickness.as_str(), "1px"),
    );
    push_attr(&mut tokens, to_owned_string("inset"), normalise_spacing_token(evaluation.inset.as_str()));
    push_attr(&mut tokens, to_owned_string("role"), evaluation.role.clone());
    if evaluation.breakpoint == Breakpoint::Base {
        push_attr(
            &mut tokens,
            to_owned_string("active_breakpoint"),
            evaluation.breakpoint_token.clone(),
        );
    }
    assert(pairs_view(tokens@) =~= divider_tokens(*evaluation));
    tokens
}

/// Result returned by [`render_divider`].
#[derive(Debug)]
pub struct DividerRenderOutput {
    css_variables: InsertionMap,
    inline_style: String,
}

impl DividerRenderOutput {
    /// The generated variables.
    pub closed spec fn vars(&self) -> InsertionMap {
        self.css_variables
    }

    /// The generated inline style.
    pub closed spec fn style(&self) -> Seq<char> {
        self.inline_style@
    }

    /// The generated CSS variables keyed under `--rustic_ui_divider_*`, in
    /// insertion order: per breakpoint orientation, thickness, inset and role,
    /// then the active breakpoint at the base breakpoint.
    pub fn css_variables(&self) -> (r: &InsertionMap)
        ensures
            *r == self.vars(),
    {
        &self.css_variables
    }

    /// Inline style attribute built from the variables.
    pub fn inline_style(&self) -> (r: &str)
        ensures
            r@ == self.style(),
    {
        self.inline_style.as_str()
    }
}

/// Per-breakpoint token lists of a divider layout.
pub open spec fn divider_token_table(evaluations: Seq<(Breakpoint, DividerEvaluation)>) -> Seq<
    (Breakpoint, Seq<(Seq<char>, Seq<char>)>),
> {
    Seq::new(evaluations.len(), |i: int| (evaluations[i].0, divider_tokens(evaluations[i].1)))
}

/// Render one divider evaluation per configured breakpoint into CSS variables and an inline style.
pub fn render_divider(evaluations: &Vec<(Breakpoint, DividerEvaluation)>) -> (r: DividerRenderOutput)
    ensures
        r.vars()@ == ordered_from(responsive_entries("divider"@, divider_token_table(evaluations@))),
        r.style() == style_text(r.vars()@),
{
    let mut table: Vec<(Breakpoint, Vec<(String, String)>)> = Vec::new();
    let n = evaluations.len();
    let mut i: usize = 0;
    while i < n
        invariant
            n == evaluations@.len(),
            i <= n,
            table@.len() == i,
            tokens_view(table@) == divider_token_table(evaluations@).subrange(0, i as int),
        decreases n - i,
    {
        let tokens = divider_tokens_for_breakpoint(&evaluations[i].1);
        let ghost tk = pairs_view(tokens@);
        let ghost tokens_value = tokens;
        let bp = evaluations[i].0;
        table.push((bp, tokens));
        assert(table@[i as int] == (bp, tokens_value));
        assert(tokens_view(table@)[i as int] == (bp, tk));
        assert(tokens_view(table@) =~= divider_token_table(evaluations@).subrange(0, i + 1));
        i = i + 1;
    }
    assert(tokens_view(table@) =~= divider_token_table(evaluations@));
    let (css_variables, inline_style) = render_responsive_in_order("divider", &table);
    DividerRenderOutput { css_variables, inline_style }
}

proof fn lemma_divider_token_names(e: DividerEvaluation)
    ensures
        forall|k: int| 0 <= k < divider_tokens(e).len() ==> dash_free(#[trigger] divider_tokens(e)[k].0),
        forall|k1: int, k2: int|
            0 <= k1 < k2 < divider_tokens(e).len() ==> #[trigger] divider_tokens(e)[k1].0
                != #[trigger] divider_tokens(e)[k2].0,
{
    reveal_strlit("orientation");
    reveal_strlit("thickness");
    reveal_strlit("inset");
    reveal_strlit("role");
    reveal_strlit("active_breakpoint");
    let t = divider_tokens(e);
    assert(t[0].0.len() == 11 && t[1].0.len() == 9 && t[2].0.len() == 5 && t[3].0.len() == 4);
    assert(t[1].0[0] != t[2].0[0]);
    assert(dash_free(t[0].0));
    assert(dash_free(t[1].0));
    assert(dash_free(t[2].0));
    assert(dash_free(t[3].0));
    if t.len() > 4 {
        assert(t[4].0.len() == 17);
        assert(dash_free(t[4].0));
    }
}

/// With each breakpoint evaluated once, the divider's variables are exactly
/// the scoped tokens in insertion order: for each breakpoint in turn its
/// orientation, thickness, inset and role, and at the base breakpoint the
/// active breakpoint after them.
pub proof fn law_divider_insertion_order(evaluations: Seq<(Breakpoint, DividerEvaluation)>)
    requires
        forall|i: int, j: int| 0 <= i < j < evaluations.len() ==> #[trigger] evaluations[i].0 != #[trigger] evaluations[j].0,
    ensures
        ordered_from(responsive_entries("divider"@, divider_token_table(evaluations))) == responsive_entries(
            "divider"@,
            divider_token_table(evaluations),
        ),
{
    let table = divider_token_table(evaluations);
    assert forall|j: int, k: int| 0 <= j < table.len() && 0 <= k < table[j].1.len() implies dash_free(
        #[trigger] table[j].1[k].0,
    ) by {
        lemma_divider_token_names(evaluations[j].1);
    }
    assert forall|j: int, k1: int, k2: int| 0 <= j < table.len() && 0 <= k1 < k2 < table[j].1.len() implies
        #[trigger] table[j].1[k1].0 != #[trigger] table[j].1[k2].0 by {
        lemma_divider_token_names(evaluations[j].1);
    }
    assert forall|i: int, j: int| 0 <= i < j < table.len() implies #[trigger] table[i].0 != #[trigger] table[j].0 by {
        assert(evaluations[i].0 != evaluations[j].0);
    }
    assert(table_dash_free(table));
    assert(distinct_token_names(table));
    assert(distinct_breakpoints(table));
    lemma_entries_distinct("divider"@, table);
    lemma_ordered_from_distinct(responsive_entries("divider"@, table));
}

} // verus!
