//! Skeleton placeholder: an empty inline block shown while content loads.

use vstd::prelude::*;

use crate::attr_map::pairs_view;
use crate::markup::{attrs_html, element_text, render_element_html, themed_pairs};
use crate::text::to_owned_string;

verus! {

/// Animation of a skeleton.
#[derive(Debug, Clone, Copy, PartialEq, Eq, Structural)]
pub enum SkeletonAnimation {
    Off,
    Pulse,
    Wave,
}

/// The CSS `animation` value of each animation.
pub open spec fn animation_css_text(a: SkeletonAnimation) -> Seq<char> {
    match a {
        SkeletonAnimation::Off => "none"@,
        SkeletonAnimation::Pulse => "skeleton-pulse 1.2s ease-in-out infinite"@,
        SkeletonAnimation::Wave => "skeleton-wave 1.5s linear infinite"@,
    }
}

/// The CSS `animation` value the skeleton style uses.
pub fn animation_css(a: SkeletonAnimation) -> (r: String)
    ensures
        r@ == animation_css_text(a),
{
    match a {
        SkeletonAnimation::Off => to_owned_string("none"),
        SkeletonAnimation::Pulse => to_owned_string("skeleton-pulse 1.2s ease-in-out infinite"),
        SkeletonAnimation::Wave => to_owned_string("skeleton-wave 1.5s linear infinite"),
    }
}

/// Rendered skeleton.
#[derive(Debug, Clone)]
pub struct SkeletonRenderOutput {
    /// `<span ...></span>`.
    pub html: String,
}

/// Input of [`render_skeleton`].
#[derive(Debug, Clone)]
pub struct SkeletonAdapterProps<'a> {
    /// ARIA pairs of the headless skeleton state (animation marker included).
    pub aria: &'a Vec<(String, String)>,
    /// Scoped class of the animation's style.
    pub class: &'a str,
}

/// Renders `<span class=".." aria></span>`.
pub fn render_skeleton(props: &SkeletonAdapterProps) -> (r: SkeletonRenderOutput)
    ensures
        r.html@ == element_text("span"@, attrs_html(themed_pairs(props.class@, pairs_view(props.aria@))), Seq::empty()),
{
    proof {
        reveal_strlit("");
    }
    SkeletonRenderOutput { html: render_element_html("span", props.class, props.aria, "") }
}

} // verus!
