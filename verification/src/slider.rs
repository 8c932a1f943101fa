//! Slider: root, track and thumb markup.
//!
//! The value and the thumb position are floating-point quantities of the
//! headless slider state; the caller formats them (`{:.3}`) and this module
//! assembles the attribute lists and the markup.

use vstd::prelude::*;

use crate::attr_map::{clone_attrs, pairs_view, push_attr_str};
use crate::markup::{attrs_html, element_text, render_element_html, themed_pairs};

verus! {

/// Direction of a slider.
#[derive(Debug, Clone, Copy, PartialEq, Eq, Structural)]
pub enum SliderOrientation {
    Horizontal,
    Vertical,
}

/// `horizontal` or `vertical`.
pub open spec fn slider_orientation_text(o: SliderOrientation) -> Seq<char> {
    match o {
        SliderOrientation::Horizontal => "horizontal"@,
        SliderOrientation::Vertical => "vertical"@,
    }
}

/// Root pairs: `data-orientation`, `data-value`, then `data-disabled` when
/// disabled.
pub open spec fn root_pairs(o: SliderOrientation, value: Seq<char>, disabled: bool) -> Seq<
    (Seq<char>, Seq<char>),
> {
    let base = seq![("data-orientation"@, slider_orientation_text(o)), ("data-value"@, value)];
    if disabled {
        base.push(("data-disabled"@, "true"@))
    } else {
        base
    }
}

/// The root attribute list of a slider.
pub fn slider_root_attributes(orientation: SliderOrientation, value: &str, disabled: bool) -> (r: Vec<
    (String, String),
>)
    ensures
        pairs_view(r@) == root_pairs(orientation, value@, disabled),
{
    let mut pairs: Vec<(String, String)> = Vec::new();
    match orientation {
        SliderOrientation::Horizontal => push_attr_str(&mut pairs, "data-orientation", "horizontal"),
        SliderOrientation::Vertical => push_attr_str(&mut pairs, "data-orientation", "vertical"),
    }
    push_attr_str(&mut pairs, "data-value", value);
    if disabled {
        push_attr_str(&mut pairs, "data-disabled", "true");
    }
    assert(pairs_view(pairs@) =~= root_pairs(orientation, value@, disabled));
    pairs
}

/// Rendered slider.
#[derive(Debug, Clone)]
pub struct SliderRenderOutput {
    /// `<div root><div track></div><div thumb></div></div>`.
    pub html: String,
}

/// Input of [`render_slider`].
#[derive(Debug, Clone)]
pub struct SliderAdapterProps<'a> {
    pub orientation: SliderOrientation,
    /// The value formatted with three decimals.
    pub value: &'a str,
    pub disabled: bool,
    /// ARIA pairs of the thumb from the headless state.
    pub thumb_aria: &'a Vec<(String, String)>,
    /// Inline style positioning the thumb.
    pub thumb_position: &'a str,
    pub root_class: &'a str,
    pub track_class: &'a str,
    pub thumb_class: &'a str,
}

/// Renders the root `<div>` around the track (`data-role="track"`) and the
/// thumb (its ARIA pairs, then `style`).
pub fn render_slider(props: &SliderAdapterProps) -> (r: SliderRenderOutput)
    ensures
        r.html@ == element_text(
            "div"@,
            attrs_html(themed_pairs(props.root_class@, root_pairs(props.orientation, props.value@, props.disabled))),
            element_text(
                "div"@,
                attrs_html(themed_pairs(props.track_class@, seq![("data-role"@, "track"@)])),
                Seq::empty(),
            ) + element_text(
                "div"@,
                attrs_html(
                    themed_pairs(
                        props.thumb_class@,
                        pairs_view(props.thumb_aria@).push(("style"@, props.thumb_position@)),
                    ),
                ),
                Seq::empty(),
            ),
        ),
{
    proof {
        reveal_strlit("");
    }
    let mut track_pairs: Vec<(String, String)> = Vec::new();
    push_attr_str(&mut track_pairs, "data-role", "track");
    assert(pairs_view(track_pairs@) =~= seq![("data-role"@, "track"@)]);
    let mut body = render_element_html("div", props.track_class, &track_pairs, "");
    let mut thumb_pairs = clone_attrs(props.thumb_aria);
    push_attr_str(&mut thumb_pairs, "style", props.thumb_position);
    let thumb = render_element_html("div", props.thumb_class, &thumb_pairs, "");
    body.append(thumb.as_str());
    let root = slider_root_attributes(props.orientation, props.value, props.disabled);
    SliderRenderOutput { html: render_element_html("div", props.root_class, &root, body.as_str()) }
}

/// The orientation a token names.
pub open spec fn slider_orientation_named(token: Seq<char>) -> Option<SliderOrientation> {
    if token == "horizontal"@ {
        Some(SliderOrientation::Horizontal)
    } else if token == "vertical"@ {
        Some(SliderOrientation::Vertical)
    } else {
        None
    }
}

/// A orientation's token reads back as that orientation: `horizontal` names Horizontal, `vertical` names Vertical.
pub proof fn law_slider_orientation_round_trip(value: SliderOrientation)
    ensures
        slider_orientation_named(slider_orientation_text(value)) == Some(value),
{
    let t0 = "horizontal"@;
    let t1 = "vertical"@;
    reveal_strlit("horizontal");
    reveal_strlit("vertical");
    assert(t0.len() != t1.len() || t0[0] != t1[0]);
}

/// Distinct orientations have distinct tokens.
pub proof fn law_slider_orientations_distinct(a: SliderOrientation, b: SliderOrientation)
    requires
        a != b,
    ensures
        slider_orientation_text(a) != slider_orientation_text(b),
{
    law_slider_orientation_round_trip(a);
    law_slider_orientation_round_trip(b);
}

} // verus!
