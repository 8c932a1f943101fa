//! App bar: the header's label, automation id, height token and markup.
//!
//! The headless app-bar state contributes its own HTML pairs (label,
//! analytics and automation identifiers); this module decides the accessible
//! label, derives the DOM id and renders the `<header>`.

use vstd::prelude::*;

use crate::attr_map::{clone_attrs, pairs_view, push_attr, push_attr_str};
use crate::markup::{attrs_html, themed_attributes_html, themed_pairs};
use crate::style_helpers::{automation_id, automation_id_text, component_marker, component_marker_text, strs_view, EMPTY_SEGMENTS};
use crate::text::{is_blank, str_is_blank, to_owned_string};

verus! {

/// Palette of an app bar.
#[derive(Debug, Clone, Copy, PartialEq, Eq, Structural)]
pub enum AppBarColor {
    Primary,
    Secondary,
}

/// Height class of an app bar.
#[derive(Debug, Clone, Copy, PartialEq, Eq, Structural)]
pub enum AppBarSize {
    Small,
    Medium,
    Large,
}

/// `primary` or `secondary`.
pub open spec fn color_text(c: AppBarColor) -> Seq<char> {
    match c {
        AppBarColor::Primary => "primary"@,
        AppBarColor::Secondary => "secondary"@,
    }
}

/// `small`, `medium` or `large`.
pub open spec fn size_text(s: AppBarSize) -> Seq<char> {
    match s {
        AppBarSize::Small => "small"@,
        AppBarSize::Medium => "medium"@,
        AppBarSize::Large => "large"@,
    }
}

/// Bar height: 48px, 64px or 80px.
pub open spec fn height_text(s: AppBarSize) -> Seq<char> {
    match s {
        AppBarSize::Small => "48px"@,
        AppBarSize::Medium => "64px"@,
        AppBarSize::Large => "80px"@,
    }
}

/// The CSS height of a bar size.
pub fn app_bar_height(size: AppBarSize) -> (r: &'static str)
    ensures
        r@ == height_text(size),
{
    match size {
        AppBarSize::Small => "48px",
        AppBarSize::Medium => "64px",
        AppBarSize::Large => "80px",
    }
}

fn color_token(c: AppBarColor) -> (r: &'static str)
    ensures
        r@ == color_text(c),
{
    match c {
        AppBarColor::Primary => "primary",
        AppBarColor::Secondary => "secondary",
    }
}

fn size_token(s: AppBarSize) -> (r: &'static str)
    ensures
        r@ == size_text(s),
{
    match s {
        AppBarSize::Small => "small",
        AppBarSize::Medium => "medium",
        AppBarSize::Large => "large",
    }
}

/// The accessible label: the given label unless it is blank, in which case
/// the title.
pub fn sanitized_aria_label(title: &str, aria_label: &str) -> (r: String)
    ensures
        r@ == (if is_blank(aria_label@) {
            title@
        } else {
            aria_label@
        }),
{
    if str_is_blank(aria_label) {
        to_owned_string(title)
    } else {
        to_owned_string(aria_label)
    }
}

/// `rustic-app-bar-<id>` for a caller-supplied automation id.
pub open spec fn app_bar_dom_id_text(raw: Seq<char>) -> Seq<char> {
    automation_id_text("app-bar"@, Some(raw), Seq::empty())
}

/// The DOM id derived from the caller's automation id, if any.
pub fn automation_dom_id(raw: Option<&str>) -> (r: Option<String>)
    ensures
        match raw {
            Some(x) => r is Some && r->0@ == app_bar_dom_id_text(x@),
            None => r is None,
        },
{
    match raw {
        Some(x) => {
            assert(strs_view(EMPTY_SEGMENTS@) =~= Seq::<Seq<char>>::empty());
            Some(automation_id("app-bar", Some(x), &EMPTY_SEGMENTS))
        },
        None => None,
    }
}

/// Props of an app bar.
#[derive(Debug, Clone)]
pub struct AppBarProps {
    pub title: String,
    pub aria_label: String,
    pub color: AppBarColor,
    pub size: AppBarSize,
    pub automation_id: Option<String>,
    pub analytics_view_id: Option<String>,
    pub analytics_interaction_id: Option<String>,
    pub svg_title_id: Option<String>,
}

/// The header pairs: the headless state's pairs, `data-component`,
/// `data-color`, `data-size`, then `id` when an automation id is given.
pub open spec fn header_pairs(
    state_pairs: Seq<(Seq<char>, Seq<char>)>,
    color: AppBarColor,
    size: AppBarSize,
    raw_id: Option<Seq<char>>,
) -> Seq<(Seq<char>, Seq<char>)> {
    let base = state_pairs + seq![
        ("data-component"@, component_marker_text("app-bar"@)),
        ("data-color"@, color_text(color)),
        ("data-size"@, size_text(size)),
    ];
    match raw_id {
        Some(x) => base.push(("id"@, app_bar_dom_id_text(x))),
        None => base,
    }
}

/// `<header class=".." pairs>title</header>`.
pub fn render(props: &AppBarProps, state_pairs: &Vec<(String, String)>, class: &str) -> (r: String)
    ensures
        r@ == "<header "@ + attrs_html(
            themed_pairs(
                class@,
                header_pairs(
                    pairs_view(state_pairs@),
                    props.color,
                    props.size,
                    match props.automation_id {
                        Some(x) => Some(x@),
                        None => None,
                    },
                ),
            ),
        ) + ">"@ + props.title@ + "</header>"@,
{
    let mut attrs = clone_attrs(state_pairs);
    push_attr(&mut attrs, to_owned_string("data-component"), component_marker("app-bar"));
    push_attr_str(&mut attrs, "data-color", color_token(props.color));
    push_attr_str(&mut attrs, "data-size", size_token(props.size));
    let raw = match &props.automation_id {
        Some(x) => Some(x.as_str()),
        None => None,
    };
    if let Some(id) = automation_dom_id(raw) {
        push_attr(&mut attrs, to_owned_string("id"), id);
    }
    assert(pairs_view(attrs@) =~= header_pairs(
        pairs_view(state_pairs@),
        props.color,
        props.size,
        match props.automation_id {
            Some(x) => Some(x@),
            None => None,
        },
    ));
    let text = themed_attributes_html(class, &attrs);
    let mut out = to_owned_string("<header ");
    out.append(text.as_str());
    out.append(">");
    out.append(props.title.as_str());
    out.append("</header>");
    out
}

/// The bar color a token names.
pub open spec fn color_named(token: Seq<char>) -> Option<AppBarColor> {
    if token == "primary"@ {
        Some(AppBarColor::Primary)
    } else if token == "secondary"@ {
        Some(AppBarColor::Secondary)
    } else {
        None
    }
}

/// A bar color's token reads back as that bar color: `primary` names Primary, `secondary` names Secondary.
pub proof fn law_color_round_trip(value: AppBarColor)
    ensures
        color_named(color_text(value)) == Some(value),
{
    let t0 = "primary"@;
    let t1 = "secondary"@;
    reveal_strlit("primary");
    reveal_strlit("secondary");
    assert(t0.len() != t1.len() || t0[0] != t1[0]);
}

/// Distinct bar colors have distinct tokens.
pub proof fn law_colors_distinct(a: AppBarColor, b: AppBarColor)
    requires
        a != b,
    ensures
        color_text(a) != color_text(b),
{
    law_color_round_trip(a);
    law_color_round_trip(b);
}

/// The bar size a token names.
pub open spec fn size_named(token: Seq<char>) -> Option<AppBarSize> {
    if token == "small"@ {
        Some(AppBarSize::Small)
    } else if token == "medium"@ {
        Some(AppBarSize::Medium)
    } else if token == "large"@ {
        Some(AppBarSize::Large)
    } else {
        None
    }
}

/// A bar size's token reads back as that bar size: `small` names Small, `medium` names Medium, `large` names Large.
pub proof fn law_size_round_trip(value: AppBarSize)
    ensures
        size_named(size_text(value)) == Some(value),
{
    let t0 = "small"@;
    let t1 = "medium"@;
    let t2 = "large"@;
    reveal_strlit("small");
    reveal_strlit("medium");
    reveal_strlit("large");
    assert(t0.len() != t1.len() || t0[0] != t1[0]);
    assert(t0.len() != t2.len() || t0[0] != t2[0]);
    assert(t1.len() != t2.len() || t1[0] != t2[0]);
}

/// Distinct bar sizes have distinct tokens.
pub proof fn law_sizes_distinct(a: AppBarSize, b: AppBarSize)
    requires
        a != b,
    ensures
        size_text(a) != size_text(b),
{
    law_size_round_trip(a);
    law_size_round_trip(b);
}

} // verus!
