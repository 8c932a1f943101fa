//! Circular progress: an SVG ring inside a progress shell.
//!
//! The dash offset of the ring is a floating-point computation done by the
//! caller; this module assembles the markup around its decimal text.

use vstd::prelude::*;

use crate::attr_map::{pairs_view, push_attr_str};
use crate::markup::{attrs_html, element_text, render_element_html, themed_pairs};
use crate::text::to_owned_string;

verus! {

/// The two circles of the ring; the second carries the dash offset.
pub open spec fn rings_text(dash: Seq<char>) -> Seq<char> {
    "<circle class=\"indicator-track\" cx=\"24\" cy=\"24\" r=\"20\" />"@
        + "<circle class=\"indicator-thumb\" cx=\"24\" cy=\"24\" r=\"20\" style=\"stroke-dashoffset: "@
        + dash + ";\" />"@
}

/// The indicator's own pairs.
pub open spec fn indicator_pairs() -> Seq<(Seq<char>, Seq<char>)> {
    seq![("viewBox"@, "0 0 48 48"@), ("aria-hidden"@, "true"@)]
}

/// Rendered circular progress.
#[derive(Debug, Clone)]
pub struct CircularProgressRenderOutput {
    /// `<div ...><svg ...>rings</svg></div>`.
    pub html: String,
}

/// Input of [`render_circular_progress`].
#[derive(Debug, Clone)]
pub struct CircularProgressAdapterProps<'a> {
    /// ARIA pairs of the headless progress state.
    pub aria: &'a Vec<(String, String)>,
    /// Dash offset of the ring, as decimal text (`0` when indeterminate).
    pub dash_offset: &'a str,
    /// Scoped class of the container.
    pub container_class: &'a str,
    /// Scoped class of the SVG indicator.
    pub indicator_class: &'a str,
}

/// Renders the shell `<div class=".." aria>` around
/// `<svg class=".." viewBox="0 0 48 48" aria-hidden="true">rings</svg>`.
pub fn render_circular_progress(props: &CircularProgressAdapterProps) -> (r: CircularProgressRenderOutput)
    ensures
        r.html@ == element_text(
            "div"@,
            attrs_html(themed_pairs(props.container_class@, pairs_view(props.aria@))),
            element_text(
                "svg"@,
                attrs_html(themed_pairs(props.indicator_class@, indicator_pairs())),
                rings_text(props.dash_offset@),
            ),
        ),
{
    let mut svg_pairs: Vec<(String, String)> = Vec::new();
    push_attr_str(&mut svg_pairs, "viewBox", "0 0 48 48");
    push_attr_str(&mut svg_pairs, "aria-hidden", "true");
    assert(pairs_view(svg_pairs@) =~= indicator_pairs());
    let mut rings = to_owned_string("<circle class=\"indicator-track\" cx=\"24\" cy=\"24\" r=\"20\" />");
    rings.append("<circle class=\"indicator-thumb\" cx=\"24\" cy=\"24\" r=\"20\" style=\"stroke-dashoffset: ");
    rings.append(props.dash_offset);
    rings.append(";\" />");
    let indicator = render_element_html("svg", props.indicator_class, &svg_pairs, rings.as_str());
    CircularProgressRenderOutput {
        html: render_element_html("div", props.container_class, props.aria, indicator.as_str()),
    }
}

} // verus!
