//! Input adornment: an inline element placed before or after an input.

use vstd::prelude::*;

use crate::attr_map::pairs_view;
use crate::markup::{attrs_html, element_text, render_element_html, themed_pairs};

verus! {

/// Rendered adornment.
#[derive(Debug, Clone)]
pub struct InputAdornmentRenderOutput {
    /// `<span ...>content</span>`.
    pub html: String,
}

/// Input of [`render_input_adornment`].
#[derive(Debug, Clone)]
pub struct InputAdornmentAdapterProps<'a> {
    /// ARIA pairs of the headless adornment state (position marker included).
    pub aria: &'a Vec<(String, String)>,
    /// Scoped class of the position's style.
    pub class: &'a str,
    /// Adornment content.
    pub content: &'a str,
}

impl<'a> InputAdornmentAdapterProps<'a> {
    /// Bundles the props.
    pub fn new(aria: &'a Vec<(String, String)>, class: &'a str, content: &'a str) -> (r: Self)
        ensures
            r.aria == aria,
            r.class == class,
            r.content == content,
    {
        InputAdornmentAdapterProps { aria, class, content }
    }
}

/// Renders `<span class=".." aria>content</span>`.
pub fn render_input_adornment(props: &InputAdornmentAdapterProps) -> (r: InputAdornmentRenderOutput)
    ensures
        r.html@ == element_text(
            "span"@,
            attrs_html(themed_pairs(props.class@, pairs_view(props.aria@))),
            props.content@,
        ),
{
    InputAdornmentRenderOutput { html: render_element_html("span", props.class, props.aria, props.content) }
}

} // verus!
