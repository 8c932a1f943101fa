//! Popper surfaces: placement token and the themed surface attributes.

use vstd::prelude::*;

use crate::attr_map::{extend_attrs, pairs_view, push_attr_str};
use crate::markup::{themed_attributes, themed_pairs};

verus! {

/// Side of the anchor a popper is placed on.
#[derive(Debug, Clone, Copy, PartialEq, Eq, Structural)]
pub enum PopperPlacement {
    Top,
    Bottom,
    Start,
    End,
}

/// `top`, `bottom`, `start` or `end`.
pub open spec fn placement_text(p: PopperPlacement) -> Seq<char> {
    match p {
        PopperPlacement::Top => "top"@,
        PopperPlacement::Bottom => "bottom"@,
        PopperPlacement::Start => "start"@,
        PopperPlacement::End => "end"@,
    }
}

/// The `data-placement` token of a placement.
pub fn placement_to_str(p: PopperPlacement) -> (r: &'static str)
    ensures
        r@ == placement_text(p),
{
    match p {
        PopperPlacement::Top => "top",
        PopperPlacement::Bottom => "bottom",
        PopperPlacement::Start => "start",
        PopperPlacement::End => "end",
    }
}

/// The surface attributes: the class, `data-placement`, the transition's
/// data pairs, then the caller's extra pairs.
pub fn themed_surface_attributes(
    placement: PopperPlacement,
    transition: &Vec<(String, String)>,
    extra: &Vec<(String, String)>,
    class: &str,
) -> (r: Vec<(String, String)>)
    ensures
        pairs_view(r@) == themed_pairs(
            class@,
            seq![("data-placement"@, placement_text(placement))] + pairs_view(transition@) + pairs_view(extra@),
        ),
{
    let mut attrs: Vec<(String, String)> = Vec::new();
    push_attr_str(&mut attrs, "data-placement", placement_to_str(placement));
    extend_attrs(&mut attrs, transition);
    extend_attrs(&mut attrs, extra);
    assert(pairs_view(attrs@) =~= seq![("data-placement"@, placement_text(placement))] + pairs_view(transition@)
        + pairs_view(extra@));
    themed_attributes(class, &attrs)
}

/// The placement a token names.
pub open spec fn placement_named(token: Seq<char>) -> Option<PopperPlacement> {
    if token == "top"@ {
        Some(PopperPlacement::Top)
    } else if token == "bottom"@ {
        Some(PopperPlacement::Bottom)
    } else if token == "start"@ {
        Some(PopperPlacement::Start)
    } else if token == "end"@ {
        Some(PopperPlacement::End)
    } else {
        None
    }
}

/// A placement's token reads back as that placement: `top` names Top, `bottom` names Bottom, `start` names Start, `end` names End.
pub proof fn law_placement_round_trip(value: PopperPlacement)
    ensures
        placement_named(placement_text(value)) == Some(value),
{
    let t0 = "top"@;
    let t1 = "bottom"@;
    let t2 = "start"@;
    let t3 = "end"@;
    reveal_strlit("top");
    reveal_strlit("bottom");
    reveal_strlit("start");
    reveal_strlit("end");
    assert(t0.len() != t1.len() || t0[0] != t1[0]);
    assert(t0.len() != t2.len() || t0[0] != t2[0]);
    assert(t0.len() != t3.len() || t0[0] != t3[0]);
    assert(t1.len() != t2.len() || t1[0] != t2[0]);
    assert(t1.len() != t3.len() || t1[0] != t3[0]);
    assert(t2.len() != t3.len() || t2[0] != t3[0]);
}

/// Distinct placements have distinct tokens.
pub proof fn law_placements_distinct(a: PopperPlacement, b: PopperPlacement)
    requires
        a != b,
    ensures
        placement_text(a) != placement_text(b),
{
    law_placement_round_trip(a);
    law_placement_round_trip(b);
}

} // verus!
