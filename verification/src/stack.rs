//! Stack layout renderer: direction, gap and divider tokens per breakpoint,
//! under the `--rustic_ui_stack_*` namespace.

use vstd::prelude::*;

use crate::attr_map::{pairs_view, push_attr, AttrMap};
use crate::render_helpers::{
    normalise_spacing_token, normalised_token, render_responsive, responsive_map, style_text,
    tokens_view, zero_px_text, Breakpoint,
};
use crate::responsive_lookup::{dash_free, lemma_last_occurrence, lemma_responsive_lookup, table_dash_free};
use crate::render_helpers::css_var_text;
use crate::text::{is_blank, is_ws, str_is_blank, to_owned_string};

verus! {

/// What the stack logic reads of one breakpoint's evaluation.
#[derive(Clone, Debug)]
pub struct StackEvaluation {
    /// Direction token (`vertical`, `horizontal`, ...).
    pub direction: String,
    /// Gap between children.
    pub gap: String,
    /// ARIA role token.
    pub role: String,
    /// Divider drawn between children, if any.
    pub divider: Option<String>,
}

/// `none`.
pub open spec fn none_text() -> Seq<char> {
    "none"@
}

/// Divider value: a non-blank divider token, otherwise `none`.
pub open spec fn divider_text(divider: Option<String>) -> Seq<char> {
    match divider {
        Some(t) => if is_blank(t@) {
            none_text()
        } else {
            t@
        },
        None => none_text(),
    }
}

/// The tokens a stack emits for one breakpoint.
pub open spec fn stack_tokens(e: StackEvaluation) -> Seq<(Seq<char>, Seq<char>)> {
    seq![
        ("direction"@, e.direction@),
        ("gap"@, normalised_token(e.gap@, zero_px_text())),
        ("role"@, e.role@),
        ("divider"@, divider_text(e.divider)),
    ]
}

/// Per-breakpoint token lists of a stack.
pub open spec fn stack_token_table(evaluations: Seq<(Breakpoint, StackEvaluation)>) -> Seq<
    (Breakpoint, Seq<(Seq<char>, Seq<char>)>),
> {
    Seq::new(evaluations.len(), |i: int| (evaluations[i].0, stack_tokens(evaluations[i].1)))
}

/// Result returned by [`render_stack`].
#[derive(Debug)]
pub struct StackRenderOutput {
    css_variables: AttrMap,
    inline_style: String,
}

impl StackRenderOutput {
    /// The generated variables.
    pub closed spec fn vars(&self) -> AttrMap {
        self.css_variables
    }

    /// The generated inline style.
    pub closed spec fn style(&self) -> Seq<char> {
        self.inline_style@
    }

    /// The generated CSS variables keyed under `--rustic_ui_stack_*`.
    pub fn css_variables(&self) -> (r: &AttrMap)
        ensures
            *r == self.vars(),
    {
        &self.css_variables
    }

    /// Inline style attribute built from the variables.
    pub fn inline_style(&self) -> (r: &str)
        ensures
            r@ == self.style(),
    {
        self.inline_style.as_str()
    }
}

fn stack_tokens_for_breakpoint(evaluation: &StackEvaluation) -> (r: Vec<(String, String)>)
    ensures
        pairs_view(r@) == stack_tokens(*evaluation),
{
    let mut tokens: Vec<(String, String)> = Vec::new();
    push_attr(&mut tokens, to_owned_string("direction"), evaluation.direction.clone());
    push_attr(&mut tokens, to_owned_string("gap"), normalise_spacing_token(evaluation.gap.as_str()));
    push_attr(&mut tokens, to_owned_string("role"), evaluation.role.clone());
    let divider = match &evaluation.divider {
        Some(token) => {
            if str_is_blank(token.as_str()) {
                to_owned_string("none")
            } else {
                to_owned_string(token.as_str())
            }
        },
        None => to_owned_string("none"),
    };
    push_attr(&mut tokens, to_owned_string("divider"), divider);
    assert(pairs_view(tokens@) =~= stack_tokens(*evaluation));
    tokens
}

/// Render one evaluation per configured breakpoint into CSS variables and an
/// inline style.
pub fn render_stack(evaluations: &Vec<(Breakpoint, StackEvaluation)>) -> (r: StackRenderOutput)
    ensures
        r.vars().map() == responsive_map("stack"@, stack_token_table(evaluations@)),
        r.style() == style_text(r.vars()@),
{
    let mut table: Vec<(Breakpoint, Vec<(String, String)>)> = Vec::new();
    let n = evaluations.len();
    let mut i: usize = 0;
    while i < n
        invariant
            n == evaluations@.len(),
            i <= n,
            table@.len() == i,
            tokens_view(table@) == stack_token_table(evaluations@).subrange(0, i as int),
        decreases n - i,
    {
        let tokens = stack_tokens_for_breakpoint(&evaluations[i].1);
        let ghost tk = pairs_view(tokens@);
        let ghost tokens_value = tokens;
        let bp = evaluations[i].0;
        table.push((bp, tokens));
        assert(table@[i as int] == (bp, tokens_value));
        assert(tokens_view(table@)[i as int] == (bp, tk));
        assert(tokens_view(table@) =~= stack_token_table(evaluations@).subrange(0, i + 1));
        i = i + 1;
    }
    assert(tokens_view(table@) =~= stack_token_table(evaluations@));
    let (css_variables, inline_style) = render_responsive("stack", &table);
    StackRenderOutput { css_variables, inline_style }
}

proof fn lemma_stack_token_names(e: StackEvaluation)
    ensures
        stack_tokens(e).len() == 4,
        forall|k: int| 0 <= k < 4 ==> dash_free(#[trigger] stack_tokens(e)[k].0),
        forall|k1: int, k2: int| 0 <= k1 < k2 < 4 ==> #[trigger] stack_tokens(e)[k1].0 != #[trigger] stack_tokens(e)[k2].0,
{
    reveal_strlit("direction");
    reveal_strlit("gap");
    reveal_strlit("role");
    reveal_strlit("divider");
    let t = stack_tokens(e);
    assert(t[0].0.len() == 9 && t[1].0.len() == 3 && t[2].0.len() == 4 && t[3].0.len() == 7);
    assert(dash_free(t[0].0));
    assert(dash_free(t[1].0));
    assert(dash_free(t[2].0));
    assert(dash_free(t[3].0));
}

/// Every breakpoint's last evaluation yields all four stack variables: the
/// direction and role as given, a gap that is the normalised spacing token
/// and so never blank, and a divider that is the token when one is set and
/// not blank, `none` otherwise.
pub proof fn law_stack_variables(evaluations: Seq<(Breakpoint, StackEvaluation)>, i: int)
    requires
        0 <= i < evaluations.len(),
        forall|j: int| i < j < evaluations.len() ==> #[trigger] evaluations[j].0 != evaluations[i].0,
    ensures
        ({
            let m = responsive_map("stack"@, stack_token_table(evaluations));
            let b = evaluations[i].0;
            let e = evaluations[i].1;
            &&& m.dom().contains(css_var_text("stack"@, "direction"@, b))
            &&& m[css_var_text("stack"@, "direction"@, b)] == e.direction@
            &&& m.dom().contains(css_var_text("stack"@, "gap"@, b))
            &&& m[css_var_text("stack"@, "gap"@, b)] == normalised_token(e.gap@, zero_px_text())
            &&& !is_blank(m[css_var_text("stack"@, "gap"@, b)])
            &&& m.dom().contains(css_var_text("stack"@, "role"@, b))
            &&& m[css_var_text("stack"@, "role"@, b)] == e.role@
            &&& m.dom().contains(css_var_text("stack"@, "divider"@, b))
            &&& m[css_var_text("stack"@, "divider"@, b)] == divider_text(e.divider)
        }),
{
    let table = stack_token_table(evaluations);
    assert forall|j: int, k: int| 0 <= j < table.len() && 0 <= k < table[j].1.len() implies dash_free(
        #[trigger] table[j].1[k].0,
    ) by {
        lemma_stack_token_names(evaluations[j].1);
    }
    assert(table_dash_free(table));
    lemma_stack_token_names(evaluations[i].1);
    assert forall|j: int| i < j < table.len() implies #[trigger] table[j].0 != table[i].0 by {
        assert(evaluations[j].0 != evaluations[i].0);
    }
    lemma_responsive_lookup("stack"@, table, i, 0);
    lemma_responsive_lookup("stack"@, table, i, 1);
    lemma_responsive_lookup("stack"@, table, i, 2);
    lemma_responsive_lookup("stack"@, table, i, 3);
    let g = evaluations[i].1.gap@;
    if !is_blank(g) {
        assert(normalised_token(g, zero_px_text()) == g);
    } else {
        assert(!is_ws(zero_px_text()[0]));
    }
}

/// Every evaluated breakpoint has all four stack variables, with a gap that
/// is never blank; their values are those of the breakpoint's last
/// evaluation.
pub proof fn law_stack_every_breakpoint(evaluations: Seq<(Breakpoint, StackEvaluation)>, j: int)
    requires
        0 <= j < evaluations.len(),
    ensures
        ({
            let m = responsive_map("stack"@, stack_token_table(evaluations));
            let b = evaluations[j].0;
            &&& m.dom().contains(css_var_text("stack"@, "direction"@, b))
            &&& m.dom().contains(css_var_text("stack"@, "gap"@, b))
            &&& m.dom().contains(css_var_text("stack"@, "role"@, b))
            &&& m.dom().contains(css_var_text("stack"@, "divider"@, b))
            &&& !is_blank(m[css_var_text("stack"@, "gap"@, b)])
            &&& exists|i: int|
                j <= i < evaluations.len() && #[trigger] evaluations[i].0 == b && m[css_var_text(
                    "stack"@,
                    "direction"@,
                    b,
                )] == evaluations[i].1.direction@ && m[css_var_text("stack"@, "gap"@, b)] == normalised_token(
                    evaluations[i].1.gap@,
                    zero_px_text(),
                ) && m[css_var_text("stack"@, "role"@, b)] == evaluations[i].1.role@ && m[css_var_text(
                    "stack"@,
                    "divider"@,
                    b,
                )] == divider_text(evaluations[i].1.divider)
        }),
{
    let i = lemma_last_occurrence(evaluations, j);
    law_stack_variables(evaluations, i);
}

} // verus!
