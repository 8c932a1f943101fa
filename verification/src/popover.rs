//! Popover anchor and surface attributes.
//!
//! The headless popover state reports the anchor's id and placement and the
//! surface's open flag, preferred and resolved placements and analytics tag;
//! this module orders them into themed attribute lists.

use vstd::prelude::*;

use crate::attr_map::{pairs_view, push_attr_str};
use crate::markup::{themed_attributes, themed_pairs};

verus! {

/// What the renderer reads of the popover anchor.
#[derive(Debug, Clone)]
pub struct PopoverAnchorSnapshot {
    /// Anchor id, if any.
    pub id: Option<String>,
    /// `data-placement` value.
    pub placement: String,
}

/// What the renderer reads of the popover surface.
#[derive(Debug, Clone)]
pub struct PopoverSurfaceSnapshot {
    /// `data-open` value.
    pub open: String,
    /// `data-preferred` value (requested placement).
    pub preferred: String,
    /// `data-resolved` value (placement after collision handling).
    pub resolved: String,
}

/// Anchor pairs: `id` when set, then `data-placement`.
pub open spec fn anchor_pairs(a: PopoverAnchorSnapshot) -> Seq<(Seq<char>, Seq<char>)> {
    let head = match a.id {
        Some(id) => seq![("id"@, id@)],
        None => Seq::empty(),
    };
    head.push(("data-placement"@, a.placement@))
}

/// The anchor's attributes, led by the anchor class.
pub fn themed_anchor_attributes(anchor: &PopoverAnchorSnapshot, class: &str) -> (r: Vec<(String, String)>)
    ensures
        pairs_view(r@) == themed_pairs(class@, anchor_pairs(*anchor)),
{
    let mut pairs: Vec<(String, String)> = Vec::new();
    if let Some(id) = &anchor.id {
        push_attr_str(&mut pairs, "id", id.as_str());
    }
    push_attr_str(&mut pairs, "data-placement", anchor.placement.as_str());
    assert(pairs_view(pairs@) =~= anchor_pairs(*anchor));
    themed_attributes(class, &pairs)
}

/// Surface pairs: `data-open`, `data-preferred`, `data-resolved`, then
/// `data-analytics-id` when an analytics tag is given.
pub open spec fn surface_pairs(s: PopoverSurfaceSnapshot, analytics: Option<Seq<char>>) -> Seq<
    (Seq<char>, Seq<char>),
> {
    let base = seq![("data-open"@, s.open@), ("data-preferred"@, s.preferred@), ("data-resolved"@, s.resolved@)];
    match analytics {
        Some(tag) => base.push(("data-analytics-id"@, tag)),
        None => base,
    }
}

/// The surface's attributes, led by the surface class.
pub fn themed_surface_attributes(surface: &PopoverSurfaceSnapshot, analytics: Option<&str>, class: &str) -> (r: Vec<
    (String, String),
>)
    ensures
        pairs_view(r@) == themed_pairs(
            class@,
            surface_pairs(
                *surface,
                match analytics {
                    Some(t) => Some(t@),
                    None => None,
                },
            ),
        ),
{
    let mut pairs: Vec<(String, String)> = Vec::new();
    push_attr_str(&mut pairs, "data-open", surface.open.as_str());
    push_attr_str(&mut pairs, "data-preferred", surface.preferred.as_str());
    push_attr_str(&mut pairs, "data-resolved", surface.resolved.as_str());
    if let Some(tag) = analytics {
        push_attr_str(&mut pairs, "data-analytics-id", tag);
    }
    assert(pairs_view(pairs@) =~= surface_pairs(
        *surface,
        match analytics {
            Some(t) => Some(t@),
            None => None,
        },
    ));
    themed_attributes(class, &pairs)
}

} // verus!
