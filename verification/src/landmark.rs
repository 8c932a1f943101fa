//! The attribute groups that headless navigation states hand to the renderers:
//! a role plus optional id, label, labelled-by and analytics pairs.

use vstd::prelude::*;

use crate::attr_map::{pairs_view, push_attr};
use crate::text::to_owned_string;

verus! {

/// Root or list attributes of a navigation component, as the headless state
/// exposes them.  Each optional entry is a complete `(key, value)` pair.
#[derive(Debug, Clone)]
pub struct LandmarkAttributes {
    /// The element's ARIA role.
    pub role: String,
    /// `id` pair, when an id was set.
    pub id: Option<(String, String)>,
    /// `aria-label` pair, when a label was set.
    pub aria_label: Option<(String, String)>,
    /// `aria-labelledby` pair, when set.
    pub labelledby: Option<(String, String)>,
    /// Analytics pair, when an analytics id was set.
    pub analytics: Option<(String, String)>,
}

/// The view of an optional pair as a list of zero or one pairs.
pub open spec fn opt_pair(p: Option<(String, String)>) -> Seq<(Seq<char>, Seq<char>)> {
    match p {
        Some(kv) => seq![(kv.0@, kv.1@)],
        None => Seq::empty(),
    }
}

/// `role`, then the id, label, labelled-by and analytics pairs that are set.
pub open spec fn landmark_pairs(a: LandmarkAttributes) -> Seq<(Seq<char>, Seq<char>)> {
    seq![("role"@, a.role@)] + opt_pair(a.id) + opt_pair(a.aria_label) + opt_pair(a.labelledby)
        + opt_pair(a.analytics)
}

/// Appends an optional pair.
pub fn push_opt_pair(attrs: &mut Vec<(String, String)>, p: &Option<(String, String)>)
    ensures
        pairs_view(final(attrs)@) == pairs_view(old(attrs)@) + opt_pair(*p),
{
    match p {
        Some(kv) => {
            push_attr(attrs, kv.0.clone(), kv.1.clone());
        },
        None => {},
    }
    assert(pairs_view(final(attrs)@) =~= pairs_view(old(attrs)@) + opt_pair(*p));
}

/// The landmark's pairs in their fixed order.
pub fn landmark_attribute_pairs(a: &LandmarkAttributes) -> (r: Vec<(String, String)>)
    ensures
        pairs_view(r@) == landmark_pairs(*a),
{
    let mut attrs: Vec<(String, String)> = Vec::new();
    push_attr(&mut attrs, to_owned_string("role"), a.role.clone());
    push_opt_pair(&mut attrs, &a.id);
    push_opt_pair(&mut attrs, &a.aria_label);
    push_opt_pair(&mut attrs, &a.labelledby);
    push_opt_pair(&mut attrs, &a.analytics);
    assert(pairs_view(attrs@) =~= landmark_pairs(*a));
    attrs
}

} // verus!
