//! Container layout renderer: max-width, inline padding and the fixed flag
//! per breakpoint, under the `--rustic_ui_container_*` namespace.

use vstd::prelude::*;

use crate::attr_map::{pairs_view, push_attr, AttrMap};
use crate::render_helpers::{
    bool_to_css_flag, normalise_css_token, normalise_spacing_token, normalised_token, zero_px_text,
    render_responsive, responsive_map, style_text, tokens_view, Breakpoint,
};
use crate::render_helpers::css_var_text;
use crate::responsive_lookup::{dash_free, lemma_last_occurrence, lemma_responsive_lookup, table_dash_free};
use crate::text::{bool_text, to_owned_string};

verus! {

/// What the container logic reads of one breakpoint's evaluation.
#[derive(Debug)]
pub struct ContainerEvaluation {
    /// Maximum width.
    pub max_width: String,
    /// Inline padding.
    pub padding_inline: String,
    /// ARIA role token.
    pub role: String,
    /// Whether the width is fixed at the breakpoint.
    pub fixed: bool,
}

/// The tokens a container emits for one breakpoint.
pub open spec fn container_tokens(e: ContainerEvaluation) -> Seq<(Seq<char>, Seq<char>)> {
    seq![
        ("max_width"@, normalised_token(e.max_width@, "100%"@)),
        ("padding_inline"@, normalised_token(e.padding_inline@, zero_px_text())),
        ("role"@, e.role@),
        ("fixed"@, bool_text(e.fixed)),
    ]
}

fn container_tokens_for_breakpoint(evaluation: &ContainerEvaluation) -> (r: Vec<(String, String)>)
    ensures
        pairs_view(r@) == container_tokens(*evaluation),
{
    let mut tokens: Vec<(String, String)> = Vec::new();
    push_attr(
        &mut tokens,
        to_owned_string("max_width"),
        normalise_css_token(evaluation.max_width.as_str(), "100%"),
    );
    push_attr(
        &mut tokens,
        to_owned_string("padding_inline"),
        normalise_spacing_token(evaluation.padding_inline.as_str()),
    );
    push_attr(&mut tokens, to_owned_string("role"), evaluation.role.clone());
    push_attr(&mut tokens, to_owned_string("fixed"), bool_to_css_flag(evaluation.fixed));
    assert(pairs_view(tokens@) =~= container_tokens(*evaluation));
    tokens
}

/// Result returned by [`render_container`].
#[derive(Debug)]
pub struct ContainerRenderOutput {
    css_variables: AttrMap,
    inline_style: String,
}

impl ContainerRenderOutput {
    /// The generated variables.
    pub closed spec fn vars(&self) -> AttrMap {
        self.css_variables
    }

    /// The generated inline style.
    pub closed spec fn style(&self) -> Seq<char> {
        self.inline_style@
    }

    /// The generated CSS variables keyed under `--rustic_ui_container_*`.
    pub fn css_variables(&self) -> (r: &AttrMap)
        ensures
            *r == self.vars(),
    {
        &self.css_variables
    }

    /// Inline style attribute built from the variables.
    pub fn inline_style(&self) -> (r: &str)
        ensures
            r@ == self.style(),
    {
        self.inline_style.as_str()
    }
}

/// Per-breakpoint token lists of a container layout.
pub open spec fn container_token_table(evaluations: Seq<(Breakpoint, ContainerEvaluation)>) -> Seq<
    (Breakpoint, Seq<(Seq<char>, Seq<char>)>),
> {
    Seq::new(evaluations.len(), |i: int| (evaluations[i].0, container_tokens(evaluations[i].1)))
}

/// Render one container evaluation per configured breakpoint into CSS variables and an inline style.
pub fn render_container(evaluations: &Vec<(Breakpoint, ContainerEvaluation)>) -> (r: ContainerRenderOutput)
    ensures
        r.vars().map() == responsive_map("container"@, container_token_table(evaluations@)),
        r.style() == style_text(r.vars()@),
{
    let mut table: Vec<(Breakpoint, Vec<(String, String)>)> = Vec::new();
    let n = evaluations.len();
    let mut i: usize = 0;
    while i < n
        invariant
            n == evaluations@.len(),
            i <= n,
            table@.len() == i,
            tokens_view(table@) == container_token_table(evaluations@).subrange(0, i as int),
        decreases n - i,
    {
        let tokens = container_tokens_for_breakpoint(&evaluations[i].1);
        let ghost tk = pairs_view(tokens@);
        let ghost tokens_value = tokens;
        let bp = evaluations[i].0;
        table.push((bp, tokens));
        assert(table@[i as int] == (bp, tokens_value));
        assert(tokens_view(table@)[i as int] == (bp, tk));
        assert(tokens_view(table@) =~= container_token_table(evaluations@).subrange(0, i + 1));
        i = i + 1;
    }
    assert(tokens_view(table@) =~= container_token_table(evaluations@));
    let (css_variables, inline_style) = render_responsive("container", &table);
    ContainerRenderOutput { css_variables, inline_style }
}

proof fn lemma_container_token_names(e: ContainerEvaluation)
    ensures
        container_tokens(e).len() == 4,
        forall|k: int| 0 <= k < 4 ==> dash_free(#[trigger] container_tokens(e)[k].0),
        container_tokens(e)[3].0 == "fixed"@,
{
    reveal_strlit("max_width");
    reveal_strlit("padding_inline");
    reveal_strlit("role");
    reveal_strlit("fixed");
    let t = container_tokens(e);
    assert(t[0].0.len() == 9 && t[1].0.len() == 14 && t[2].0.len() == 4 && t[3].0.len() == 5);
    assert(dash_free(t[0].0));
    assert(dash_free(t[1].0));
    assert(dash_free(t[2].0));
    assert(dash_free(t[3].0));
}

/// At every breakpoint's last evaluation the container's fixed variable is
/// `"true"` exactly when that evaluation is fixed, and `"false"` otherwise.
pub proof fn law_container_fixed(evaluations: Seq<(Breakpoint, ContainerEvaluation)>, i: int)
    requires
        0 <= i < evaluations.len(),
        forall|j: int| i < j < evaluations.len() ==> #[trigger] evaluations[j].0 != evaluations[i].0,
    ensures
        ({
            let m = responsive_map("container"@, container_token_table(evaluations));
            let v = m[css_var_text("container"@, "fixed"@, evaluations[i].0)];
            &&& m.dom().contains(css_var_text("container"@, "fixed"@, evaluations[i].0))
            &&& (v == "true"@) == evaluations[i].1.fixed
            &&& (v == "true"@ || v == "false"@)
        }),
{
    let table = container_token_table(evaluations);
    assert forall|j: int, k: int| 0 <= j < table.len() && 0 <= k < table[j].1.len() implies dash_free(
        #[trigger] table[j].1[k].0,
    ) by {
        lemma_container_token_names(evaluations[j].1);
    }
    assert(table_dash_free(table));
    lemma_container_token_names(evaluations[i].1);
    assert forall|j: int| i < j < table.len() implies #[trigger] table[j].0 != table[i].0 by {
        assert(evaluations[j].0 != evaluations[i].0);
    }
    lemma_responsive_lookup("container"@, table, i, 3);
    reveal_strlit("true");
    reveal_strlit("false");
    assert(bool_text(true) == "true"@);
    assert(bool_text(false) == "false"@);
    assert(bool_text(false).len() != "true"@.len());
}

/// Every evaluated breakpoint has a fixed variable, `"true"` exactly when the
/// breakpoint's last evaluation is fixed.
pub proof fn law_container_fixed_every_breakpoint(evaluations: Seq<(Breakpoint, ContainerEvaluation)>, j: int)
    requires
        0 <= j < evaluations.len(),
    ensures
        ({
            let m = responsive_map("container"@, container_token_table(evaluations));
            let v = m[css_var_text("container"@, "fixed"@, evaluations[j].0)];
            &&& m.dom().contains(css_var_text("container"@, "fixed"@, evaluations[j].0))
            &&& exists|i: int|
                j <= i < evaluations.len() && #[trigger] evaluations[i].0 == evaluations[j].0 && (v == "true"@)
                    == evaluations[i].1.fixed
            &&& (v == "true"@ || v == "false"@)
        }),
{
    let i = lemma_last_occurrence(evaluations, j);
    law_container_fixed(evaluations, i);
}

} // verus!
