//! Linear progress: a primary bar and a buffer bar inside a progress shell.
//!
//! The bars' inline styles come from floating-point percentages computed by
//! the caller; this module assembles the markup around them.

use vstd::prelude::*;

use crate::attr_map::{pairs_view, push_attr_str};
use crate::markup::{attrs_html, element_text, render_element_html, themed_pairs};

verus! {

/// The pairs of a bar: `data-track`, then `style`.
pub open spec fn bar_pairs(track: Seq<char>, style: Seq<char>) -> Seq<(Seq<char>, Seq<char>)> {
    seq![("data-track"@, track), ("style"@, style)]
}

/// Rendered linear progress.
#[derive(Debug, Clone)]
pub struct LinearProgressRenderOutput {
    /// `<div ...><span primary></span><span buffer></span></div>`.
    pub html: String,
}

/// Input of [`render_linear_progress`].
#[derive(Debug, Clone)]
pub struct LinearProgressAdapterProps<'a> {
    /// ARIA pairs of the headless progress state.
    pub aria: &'a Vec<(String, String)>,
    /// Inline style of the primary bar (`transform: scaleX(..);`).
    pub primary_style: &'a str,
    /// Inline style of the buffer bar (`--progress-buffer: ..%;`, or empty).
    pub buffer_style: &'a str,
    /// Scoped class of the container.
    pub container_class: &'a str,
    /// Scoped class of the primary bar.
    pub indicator_class: &'a str,
    /// Scoped class of the buffer bar.
    pub buffer_class: &'a str,
}

fn bar(track: &str, style: &str, class: &str) -> (r: String)
    ensures
        r@ == element_text("span"@, attrs_html(themed_pairs(class@, bar_pairs(track@, style@))), Seq::empty()),
{
    let mut pairs: Vec<(String, String)> = Vec::new();
    push_attr_str(&mut pairs, "data-track", track);
    push_attr_str(&mut pairs, "style", style);
    assert(pairs_view(pairs@) =~= bar_pairs(track@, style@));
    proof {
        reveal_strlit("");
    }
    render_element_html("span", class, &pairs, "")
}

/// Renders the shell `<div class=".." aria>` around the primary bar
/// (`data-track="primary"`) and the buffer bar (`data-track="buffer"`).
pub fn render_linear_progress(props: &LinearProgressAdapterProps) -> (r: LinearProgressRenderOutput)
    ensures
        r.html@ == element_text(
            "div"@,
            attrs_html(themed_pairs(props.container_class@, pairs_view(props.aria@))),
            element_text(
                "span"@,
                attrs_html(themed_pairs(props.indicator_class@, bar_pairs("primary"@, props.primary_style@))),
                Seq::empty(),
            ) + element_text(
                "span"@,
                attrs_html(themed_pairs(props.buffer_class@, bar_pairs("buffer"@, props.buffer_style@))),
                Seq::empty(),
            ),
        ),
{
    let mut body = bar("primary", props.primary_style, props.indicator_class);
    let buffer = bar("buffer", props.buffer_style, props.buffer_class);
    body.append(buffer.as_str());
    LinearProgressRenderOutput { html: render_element_html("div", props.container_class, props.aria, body.as_str()) }
}

} // verus!
