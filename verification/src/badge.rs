//! Badge renderer: container class and themed pill attributes with the
//! displayed content and an automation hook.

use vstd::prelude::*;

use crate::attr_map::{extend_attrs, pairs_view, push_attr};
use crate::markup::{themed_attributes, themed_pairs};
use crate::style_helpers::{automation_data_attr, automation_data_attr_text, strs_view};
use crate::text::to_owned_string;

verus! {

/// What the badge renderer reads of the badge state.
#[derive(Debug, Clone)]
pub struct BadgeSnapshot {
    /// Accessibility pairs of the badge.
    pub accessibility: Vec<(String, String)>,
    /// Text shown in the badge (`"5"`, `"99+"`), absent for dot badges.
    pub display_value: Option<String>,
}

/// Rendered badge.
#[derive(Debug, Clone)]
pub struct BadgeRenderOutput {
    container_class: String,
    badge_attributes: Vec<(String, String)>,
}

impl BadgeRenderOutput {
    /// Container class.
    pub closed spec fn container_class_view(&self) -> Seq<char> {
        self.container_class@
    }

    /// Badge attributes.
    pub closed spec fn badge_view(&self) -> Seq<(Seq<char>, Seq<char>)> {
        pairs_view(self.badge_attributes@)
    }

    /// Class of the element wrapping the badged content.
    pub fn container_class(&self) -> (r: &str)
        ensures
            r@ == self.container_class_view(),
    {
        self.container_class.as_str()
    }

    /// Attributes of the badge pill.
    pub fn badge_attributes(&self) -> (r: &[(String, String)])
        ensures
            pairs_view(r@) == self.badge_view(),
    {
        self.badge_attributes.as_slice()
    }
}

/// The badge's own pairs: accessibility, the content when shown, and the
/// `data-rustic-badge-layer="surface"` hook.
pub open spec fn badge_pairs(state: BadgeSnapshot) -> Seq<(Seq<char>, Seq<char>)> {
    let base = match state.display_value {
        Some(v) => pairs_view(state.accessibility@).push(("data-badge-content"@, v@)),
        None => pairs_view(state.accessibility@),
    };
    base.push((automation_data_attr_text("badge"@, seq!["layer"@]), "surface"@))
}

/// Renders the badge.  `pill_class` is the class of the dot style for dot
/// badges and of the standard pill style otherwise.
pub fn render_badge(state: &BadgeSnapshot, container_class: &str, pill_class: &str) -> (r:
    BadgeRenderOutput)
    ensures
        r.container_class_view() == container_class@,
        r.badge_view() == themed_pairs(pill_class@, badge_pairs(*state)),
{
    let mut attrs: Vec<(String, String)> = Vec::new();
    extend_attrs(&mut attrs, &state.accessibility);
    if let Some(display) = &state.display_value {
        push_attr(&mut attrs, to_owned_string("data-badge-content"), display.clone());
    }
    let segments = ["layer"];
    let hook = automation_data_attr("badge", &segments);
    assert(strs_view(segments@) =~= seq!["layer"@]);
    push_attr(&mut attrs, hook, to_owned_string("surface"));
    assert(pairs_view(attrs@) =~= badge_pairs(*state));
    let badge_attributes = themed_attributes(pill_class, &attrs);
    BadgeRenderOutput { container_class: to_owned_string(container_class), badge_attributes }
}

} // verus!
