//! Modal surfaces: the themed surface attributes.

use vstd::prelude::*;

use crate::attr_map::{clone_attrs, extend_attrs, pairs_view};
use crate::markup::{themed_attributes, themed_pairs};

verus! {

/// The surface attributes: the class, the transition's data pairs, then the
/// caller's extra pairs.
pub fn themed_surface_attributes(
    transition: &Vec<(String, String)>,
    extra: &Vec<(String, String)>,
    class: &str,
) -> (r: Vec<(String, String)>)
    ensures
        pairs_view(r@) == themed_pairs(class@, pairs_view(transition@) + pairs_view(extra@)),
{
    let mut attrs = clone_attrs(transition);
    extend_attrs(&mut attrs, extra);
    themed_attributes(class, &attrs)
}

} // verus!
