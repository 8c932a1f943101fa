//! Image list layout renderer: columns, gap, row height and variant per
//! breakpoint, under the `--rustic_ui_image_list_*` namespace.

use vstd::prelude::*;

use crate::attr_map::{pairs_view, push_attr, AttrMap};
use crate::render_helpers::{
    grid_template, grid_template_text, normalise_spacing_token, normalised_token, zero_px_text,
    render_responsive, responsive_map, style_text, tokens_view, Breakpoint,
};
use crate::text::{decimal, push_decimal, to_owned_string, u64_to_string};

verus! {

/// What the image list logic reads of one breakpoint's evaluation.
#[derive(Debug)]
pub struct ImageListEvaluation {
    /// The breakpoint this evaluation belongs to.
    pub breakpoint: Breakpoint,
    /// The breakpoint's token (`as_token` of the layout configuration).
    pub breakpoint_token: String,
    /// Number of columns.
    pub columns: u16,
    /// Gap between tiles.
    pub gap: String,
    /// Row height in pixels.
    pub row_height: u32,
    /// ARIA role token.
    pub role: String,
    /// Variant token (`standard`, `masonry`, ...).
    pub variant: String,
}

/// The tokens an image list emits for one breakpoint; the base breakpoint
/// also records which breakpoint is active.
pub open spec fn image_list_tokens(e: ImageListEvaluation) -> Seq<(Seq<char>, Seq<char>)> {
    let base = seq![
        ("columns"@, decimal(e.columns as nat)),
        ("template"@, grid_template_text(e.columns as nat)),
        ("gap"@, normalised_token(e.gap@, zero_px_text())),
        ("row_height"@, decimal(e.row_height as nat) + "px"@),
        ("role"@, e.role@),
        ("variant"@, e.variant@),
    ];
    if e.breakpoint == Breakpoint::Base {
        base.push(("active_breakpoint"@, e.breakpoint_token@))
    } else {
        base
    }
}

fn image_list_tokens_for_breakpoint(evaluation: &ImageListEvaluation) -> (r: Vec<(String, String)>)
    ensures
        pairs_view(r@) == image_list_tokens(*evaluation),
{
    let mut tokens: Vec<(String, String)> = Vec::new();
    push_attr(&mut tokens, to_owned_string("columns"), u64_to_string(evaluation.columns as u64));
    push_attr(&mut tokens, to_owned_string("template"), grid_template(evaluation.columns));
    push_attr(&mut tokens, to_owned_string("gap"), normalise_spacing_token(evaluation.gap.as_str()));
    let mut height = String::new();
    push_decimal(&mut height, evaluation.row_height as u64);
    height.append("px");
    push_attr(&mut tokens, to_owned_string("row_height"), height);
    push_attr(&mut tokens, to_owned_string("role"), evaluation.role.clone());
    push_attr(&mut tokens, to_owned_string("variant"), evaluation.variant.clone());
    if evaluation.breakpoint == Breakpoint::Base {
        push_attr(
            &mut tokens,
            to_owned_string("active_breakpoint"),
            evaluation.breakpoint_token.clone(),
        );
    }
    assert(pairs_view(tokens@) =~= image_list_tokens(*evaluation));
    tokens
}

/// Result returned by [`render_image_list`].
#[derive(Debug)]
pub struct ImageListRenderOutput {
    css_variables: AttrMap,
    inline_style: String,
}

impl ImageListRenderOutput {
    /// The generated variables.
    pub closed spec fn vars(&self) -> AttrMap {
        self.css_variables
    }

    /// The generated inline style.
    pub closed spec fn style(&self) -> Seq<char> {
        self.inline_style@
    }

    /// The generated CSS variables keyed under `--rustic_ui_image_list_*`.
    pub fn css_variables(&self) -> (r: &AttrMap)
        ensures
            *r == self.vars(),
    {
        &self.css_variables
    }

    /// Inline style attribute built from the variables.
    pub fn inline_style(&self) -> (r: &str)
        ensures
            r@ == self.style(),
    {
        self.inline_style.as_str()
    }
}

/// Per-breakpoint token lists of a image_list layout.
pub open spec fn image_list_token_table(evaluations: Seq<(Breakpoint, ImageListEvaluation)>) -> Seq<
    (Breakpoint, Seq<(Seq<char>, Seq<char>)>),
> {
    Seq::new(evaluations.len(), |i: int| (evaluations[i].0, image_list_tokens(evaluations[i].1)))
}

/// Render one image-list evaluation per configured breakpoint into CSS variables and an inline style.
pub fn render_image_list(evaluations: &Vec<(Breakpoint, ImageListEvaluation)>) -> (r: ImageListRenderOutput)
    ensures
        r.vars().map() == responsive_map("image_list"@, image_list_token_table(evaluations@)),
        r.style() == style_text(r.vars()@),
{
    let mut table: Vec<(Breakpoint, Vec<(String, String)>)> = Vec::new();
    let n = evaluations.len();
    let mut i: usize = 0;
    while i < n
        invariant
            n == evaluations@.len(),
            i <= n,
            table@.len() == i,
            tokens_view(table@) == image_list_token_table(evaluations@).subrange(0, i as int),
        decreases n - i,
    {
        let tokens = image_list_tokens_for_breakpoint(&evaluations[i].1);
        let ghost tk = pairs_view(tokens@);
        let ghost tokens_value = tokens;
        let bp = evaluations[i].0;
        table.push((bp, tokens));
        assert(table@[i as int] == (bp, tokens_value));
        assert(tokens_view(table@)[i as int] == (bp, tk));
        assert(tokens_view(table@) =~= image_list_token_table(evaluations@).subrange(0, i + 1));
        i = i + 1;
    }
    assert(tokens_view(table@) =~= image_list_token_table(evaluations@));
    let (css_variables, inline_style) = render_responsive("image_list", &table);
    ImageListRenderOutput { css_variables, inline_style }
}

} // verus!
