//! Grid layout renderer: track counts, templates, gaps and auto-flow per
//! breakpoint, under the `--rustic_ui_grid_*` namespace.

use vstd::prelude::*;

use crate::attr_map::{pairs_view, push_attr, AttrMap};
use crate::render_helpers::{
    grid_template, grid_template_text, normalise_spacing_token, normalised_token, zero_px_text,
    render_responsive, responsive_map, style_text, tokens_view, Breakpoint,
};
use crate::responsive_lookup::{dash_free, lemma_last_occurrence, lemma_responsive_lookup, table_dash_free};
use crate::render_helpers::css_var_text;
use crate::text::{decimal, is_blank, is_ws, to_owned_string, u64_to_string};

verus! {

/// What the grid logic reads of one breakpoint's evaluation.
#[derive(Debug)]
pub struct GridEvaluation {
    /// Number of tracks.
    pub columns: u16,
    /// Gap between columns.
    pub column_gap: String,
    /// Gap between rows.
    pub row_gap: String,
    /// ARIA role token.
    pub role: String,
    /// Dense auto-placement.
    pub dense: bool,
}

/// `row dense` or `row`.
pub open spec fn auto_flow_text(dense: bool) -> Seq<char> {
    if dense {
        "row dense"@
    } else {
        "row"@
    }
}

/// The tokens a grid emits for one breakpoint.
pub open spec fn grid_tokens(e: GridEvaluation) -> Seq<(Seq<char>, Seq<char>)> {
    seq![
        ("columns"@, decimal(e.columns as nat)),
        ("template"@, grid_template_text(e.columns as nat)),
        ("column_gap"@, normalised_token(e.column_gap@, zero_px_text())),
        ("row_gap"@, normalised_token(e.row_gap@, zero_px_text())),
        ("role"@, e.role@),
        ("auto_flow"@, auto_flow_text(e.dense)),
    ]
}

fn grid_tokens_for_breakpoint(evaluation: &GridEvaluation) -> (r: Vec<(String, String)>)
    ensures
        pairs_view(r@) == grid_tokens(*evaluation),
{
    let mut tokens: Vec<(String, String)> = Vec::new();
    push_attr(&mut tokens, to_owned_string("columns"), u64_to_string(evaluation.columns as u64));
    push_attr(&mut tokens, to_owned_string("template"), grid_template(evaluation.columns));
    push_attr(
        &mut tokens,
        to_owned_string("column_gap"),
        normalise_spacing_token(evaluation.column_gap.as_str()),
    );
    push_attr(
        &mut tokens,
        to_owned_string("row_gap"),
        normalise_spacing_token(evaluation.row_gap.as_str()),
    );
    push_attr(&mut tokens, to_owned_string("role"), evaluation.role.clone());
    if evaluation.dense {
        push_attr(&mut tokens, to_owned_string("auto_flow"), to_owned_string("row dense"));
    } else {
        push_attr(&mut tokens, to_owned_string("auto_flow"), to_owned_string("row"));
    }
    assert(pairs_view(tokens@) =~= grid_tokens(*evaluation));
    tokens
}

/// Result returned by [`render_grid`].
#[derive(Debug)]
pub struct GridRenderOutput {
    css_variables: AttrMap,
    inline_style: String,
}

impl GridRenderOutput {
    /// The generated variables.
    pub closed spec fn vars(&self) -> AttrMap {
        self.css_variables
    }

    /// The generated inline style.
    pub closed spec fn style(&self) -> Seq<char> {
        self.inline_style@
    }

    /// The generated CSS variables keyed under `--rustic_ui_grid_*`.
    pub fn css_variables(&self) -> (r: &AttrMap)
        ensures
            *r == self.vars(),
    {
        &self.css_variables
    }

    /// Inline style attribute built from the variables.
    pub fn inline_style(&self) -> (r: &str)
        ensures
            r@ == self.style(),
    {
        self.inline_style.as_str()
    }
}

/// Per-breakpoint token lists of a grid layout.
pub open spec fn grid_token_table(evaluations: Seq<(Breakpoint, GridEvaluation)>) -> Seq<
    (Breakpoint, Seq<(Seq<char>, Seq<char>)>),
> {
    Seq::new(evaluations.len(), |i: int| (evaluations[i].0, grid_tokens(evaluations[i].1)))
}

/// Render one grid evaluation per configured breakpoint into CSS variables and an inline style.
pub fn render_grid(evaluations: &Vec<(Breakpoint, GridEvaluation)>) -> (r: GridRenderOutput)
    ensures
        r.vars().map() == responsive_map("grid"@, grid_token_table(evaluations@)),
        r.style() == style_text(r.vars()@),
{
    let mut table: Vec<(Breakpoint, Vec<(String, String)>)> = Vec::new();
    let n = evaluations.len();
    let mut i: usize = 0;
    while i < n
        invariant
            n == evaluations@.len(),
            i <= n,
            table@.len() == i,
            tokens_view(table@) == grid_token_table(evaluations@).subrange(0, i as int),
        decreases n - i,
    {
        let tokens = grid_tokens_for_breakpoint(&evaluations[i].1);
        let ghost tk = pairs_view(tokens@);
        let ghost tokens_value = tokens;
        let bp = evaluations[i].0;
        table.push((bp, tokens));
        assert(table@[i as int] == (bp, tokens_value));
        assert(tokens_view(table@)[i as int] == (bp, tk));
        assert(tokens_view(table@) =~= grid_token_table(evaluations@).subrange(0, i + 1));
        i = i + 1;
    }
    assert(tokens_view(table@) =~= grid_token_table(evaluations@));
    let (css_variables, inline_style) = render_responsive("grid", &table);
    GridRenderOutput { css_variables, inline_style }
}

proof fn lemma_grid_token_names(e: GridEvaluation)
    ensures
        grid_tokens(e).len() == 6,
        forall|k: int| 0 <= k < 6 ==> dash_free(#[trigger] grid_tokens(e)[k].0),
        forall|k1: int, k2: int| 0 <= k1 < k2 < 6 ==> #[trigger] grid_tokens(e)[k1].0 != #[trigger] grid_tokens(e)[k2].0,
{
    reveal_strlit("columns");
    reveal_strlit("template");
    reveal_strlit("column_gap");
    reveal_strlit("row_gap");
    reveal_strlit("role");
    reveal_strlit("auto_flow");
    let t = grid_tokens(e);
    assert(t[0].0.len() == 7 && t[1].0.len() == 8 && t[2].0.len() == 10 && t[3].0.len() == 7
        && t[4].0.len() == 4 && t[5].0.len() == 9);
    assert(t[0].0[0] != t[3].0[0]);
    assert(dash_free(t[0].0));
    assert(dash_free(t[1].0));
    assert(dash_free(t[2].0));
    assert(dash_free(t[3].0));
    assert(dash_free(t[4].0));
    assert(dash_free(t[5].0));
}

proof fn lemma_spacing_not_blank(g: Seq<char>)
    ensures
        !is_blank(normalised_token(g, zero_px_text())),
{
    if is_blank(g) {
        assert(!is_ws(zero_px_text()[0]));
    }
}

/// At every breakpoint's last evaluation with `n` columns the grid variables
/// agree: the column count is `n`, the template is
/// `repeat(n, minmax(0, 1fr))`, the auto-flow is `row` or `row dense`, and
/// both gaps are normalised spacing tokens, never blank.
pub proof fn law_grid_variables(evaluations: Seq<(Breakpoint, GridEvaluation)>, i: int)
    requires
        0 <= i < evaluations.len(),
        forall|j: int| i < j < evaluations.len() ==> #[trigger] evaluations[j].0 != evaluations[i].0,
    ensures
        ({
            let m = responsive_map("grid"@, grid_token_table(evaluations));
            let b = evaluations[i].0;
            let e = evaluations[i].1;
            let n = e.columns as nat;
            &&& m.dom().contains(css_var_text("grid"@, "columns"@, b))
            &&& m[css_var_text("grid"@, "columns"@, b)] == decimal(n)
            &&& m.dom().contains(css_var_text("grid"@, "template"@, b))
            &&& m[css_var_text("grid"@, "template"@, b)] == grid_template_text(n)
            &&& m.dom().contains(css_var_text("grid"@, "auto_flow"@, b))
            &&& m[css_var_text("grid"@, "auto_flow"@, b)] == auto_flow_text(e.dense)
            &&& (m[css_var_text("grid"@, "auto_flow"@, b)] == "row"@ || m[css_var_text("grid"@, "auto_flow"@, b)]
                == "row dense"@)
            &&& m.dom().contains(css_var_text("grid"@, "column_gap"@, b))
            &&& m[css_var_text("grid"@, "column_gap"@, b)] == normalised_token(e.column_gap@, zero_px_text())
            &&& !is_blank(m[css_var_text("grid"@, "column_gap"@, b)])
            &&& m.dom().contains(css_var_text("grid"@, "row_gap"@, b))
            &&& m[css_var_text("grid"@, "row_gap"@, b)] == normalised_token(e.row_gap@, zero_px_text())
            &&& !is_blank(m[css_var_text("grid"@, "row_gap"@, b)])
        }),
{
    let table = grid_token_table(evaluations);
    assert forall|j: int, k: int| 0 <= j < table.len() && 0 <= k < table[j].1.len() implies dash_free(
        #[trigger] table[j].1[k].0,
    ) by {
        lemma_grid_token_names(evaluations[j].1);
    }
    assert(table_dash_free(table));
    lemma_grid_token_names(evaluations[i].1);
    assert forall|j: int| i < j < table.len() implies #[trigger] table[j].0 != table[i].0 by {
        assert(evaluations[j].0 != evaluations[i].0);
    }
    lemma_responsive_lookup("grid"@, table, i, 0);
    lemma_responsive_lookup("grid"@, table, i, 1);
    lemma_responsive_lookup("grid"@, table, i, 2);
    lemma_responsive_lookup("grid"@, table, i, 3);
    lemma_responsive_lookup("grid"@, table, i, 5);
    lemma_spacing_not_blank(evaluations[i].1.column_gap@);
    lemma_spacing_not_blank(evaluations[i].1.row_gap@);
}

/// At every evaluated breakpoint the grid variables agree: whatever column
/// count `n` the columns variable holds, the template is
/// `repeat(n, minmax(0, 1fr))`; the auto-flow is `row` or `row dense`; and
/// both gaps are present and never blank.
pub proof fn law_grid_every_breakpoint(evaluations: Seq<(Breakpoint, GridEvaluation)>, j: int)
    requires
        0 <= j < evaluations.len(),
    ensures
        ({
            let m = responsive_map("grid"@, grid_token_table(evaluations));
            let b = evaluations[j].0;
            &&& m.dom().contains(css_var_text("grid"@, "columns"@, b))
            &&& m.dom().contains(css_var_text("grid"@, "template"@, b))
            &&& exists|n: nat|
                m[css_var_text("grid"@, "columns"@, b)] == decimal(n) && #[trigger] grid_template_text(n)
                    == m[css_var_text("grid"@, "template"@, b)]
            &&& m.dom().contains(css_var_text("grid"@, "auto_flow"@, b))
            &&& (m[css_var_text("grid"@, "auto_flow"@, b)] == "row"@ || m[css_var_text("grid"@, "auto_flow"@, b)]
                == "row dense"@)
            &&& m.dom().contains(css_var_text("grid"@, "column_gap"@, b))
            &&& !is_blank(m[css_var_text("grid"@, "column_gap"@, b)])
            &&& m.dom().contains(css_var_text("grid"@, "row_gap"@, b))
            &&& !is_blank(m[css_var_text("grid"@, "row_gap"@, b)])
        }),
{
    let i = lemma_last_occurrence(evaluations, j);
    law_grid_variables(evaluations, i);
    let n = evaluations[i].1.columns as nat;
    assert(grid_template_text(n) == responsive_map("grid"@, grid_token_table(evaluations))[css_var_text(
        "grid"@,
        "template"@,
        evaluations[j].0,
    )]);
}

} // verus!
