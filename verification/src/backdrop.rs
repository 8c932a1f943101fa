//! Backdrop renderer: an empty themed `<div>` carrying the backdrop's ARIA and
//! animation attributes.

use vstd::prelude::*;

use crate::attr_map::pairs_view;
use crate::markup::{attrs_html, element_text, render_backdrop_html, themed_pairs};

verus! {

/// Rendered backdrop markup.
#[derive(Debug, Clone, PartialEq, Eq)]
pub struct BackdropRenderOutput {
    /// Serialised `<div>` element.
    pub html: String,
}

/// Input of [`render_backdrop`].
#[derive(Debug, Clone)]
pub struct BackdropAdapterProps<'a> {
    /// ARIA pairs of the backdrop state (`aria-hidden`, `data-open`,
    /// `data-animation-frame`, ...).
    pub aria: &'a Vec<(String, String)>,
    /// Scoped class of the backdrop style.
    pub class: &'a str,
}

impl<'a> BackdropAdapterProps<'a> {
    /// Bundles the ARIA pairs and class.
    pub fn new(aria: &'a Vec<(String, String)>, class: &'a str) -> (r: Self)
        ensures
            r.aria == aria,
            r.class == class,
    {
        BackdropAdapterProps { aria, class }
    }
}

/// `<div class=".." ..></div>`.
pub fn render_backdrop(props: &BackdropAdapterProps) -> (r: BackdropRenderOutput)
    ensures
        r.html@ == element_text(
            "div"@,
            attrs_html(themed_pairs(props.class@, pairs_view(props.aria@))),
            Seq::empty(),
        ),
{
    let html = render_backdrop_html(props.class, props.aria);
    proof {
        reveal_strlit("div");
    }
    assert("div"@ =~= seq!['d', 'i', 'v']);
    BackdropRenderOutput { html }
}

} // verus!
