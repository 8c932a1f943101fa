//! Dialog surface and backdrop attribute lists and the surface markup.
//!
//! The role, modality, lifecycle phase, transition and focus-trap markers come
//! from the headless dialog state; the options override the surface's id,
//! labelling references and analytics identifier.

use vstd::prelude::*;

use crate::attr_map::{pairs_view, push_attr_str};
use crate::markup::{attrs_html, element_text, render_element_html, themed_pairs};
use crate::telemetry::{clone_opt, opt_text};
use crate::text::{bool_text, bool_to_string, str_eq};

verus! {

/// Overrides applied to the dialog surface.
#[derive(Debug, Clone, Default)]
pub struct DialogSurfaceOptions {
    /// DOM id of the surface.
    pub id: Option<String>,
    /// `aria-labelledby` reference.
    pub labelled_by: Option<String>,
    /// `aria-describedby` reference.
    pub described_by: Option<String>,
    /// Analytics tag exposed via `data-analytics-id`.
    pub analytics_id: Option<String>,
}

/// What the renderer reads from the headless dialog surface.
#[derive(Debug, Clone)]
pub struct DialogSurfaceSnapshot {
    /// `role` value (`dialog`).
    pub role: String,
    /// `aria-modal` value.
    pub aria_modal: String,
    /// Surface id, if any.
    pub id: Option<String>,
    /// `aria-labelledby` reference, if any.
    pub labelled_by: Option<String>,
    /// `aria-describedby` reference, if any.
    pub described_by: Option<String>,
    /// `data-state` value (lifecycle phase).
    pub state: String,
    /// `data-transition` value, if a transition is running.
    pub transition: Option<String>,
    /// `data-focus-trap` value.
    pub focus_trap: String,
    /// `data-analytics-id` value, if any.
    pub analytics_id: Option<String>,
}

/// `o` when present, otherwise `base`.
pub open spec fn override_with(base: Option<Seq<char>>, o: Option<Seq<char>>) -> Option<Seq<char>> {
    if o is Some {
        o
    } else {
        base
    }
}

fn override_opt(base: &Option<String>, o: &Option<String>) -> (r: Option<String>)
    ensures
        opt_text(r) == override_with(opt_text(*base), opt_text(*o)),
{
    if o.is_some() {
        clone_opt(o)
    } else {
        clone_opt(base)
    }
}

/// Applies the options to the surface: each option that is set replaces the
/// surface's value.
pub fn apply_surface_options(surface: &DialogSurfaceSnapshot, options: &DialogSurfaceOptions) -> (r:
    DialogSurfaceSnapshot)
    ensures
        r.role@ == surface.role@,
        r.aria_modal@ == surface.aria_modal@,
        opt_text(r.id) == override_with(opt_text(surface.id), opt_text(options.id)),
        opt_text(r.labelled_by) == override_with(opt_text(surface.labelled_by), opt_text(options.labelled_by)),
        opt_text(r.described_by) == override_with(
            opt_text(surface.described_by),
            opt_text(options.described_by),
        ),
        r.state@ == surface.state@,
        opt_text(r.transition) == opt_text(surface.transition),
        r.focus_trap@ == surface.focus_trap@,
        opt_text(r.analytics_id) == override_with(opt_text(surface.analytics_id), opt_text(options.analytics_id)),
{
    DialogSurfaceSnapshot {
        role: surface.role.clone(),
        aria_modal: surface.aria_modal.clone(),
        id: override_opt(&surface.id, &options.id),
        labelled_by: override_opt(&surface.labelled_by, &options.labelled_by),
        described_by: override_opt(&surface.described_by, &options.described_by),
        state: surface.state.clone(),
        transition: clone_opt(&surface.transition),
        focus_trap: surface.focus_trap.clone(),
        analytics_id: override_opt(&surface.analytics_id, &options.analytics_id),
    }
}

/// `[(key, v)]` when a value is given, otherwise nothing.
pub open spec fn opt_pair(key: Seq<char>, value: Option<Seq<char>>) -> Seq<(Seq<char>, Seq<char>)> {
    match value {
        Some(v) => seq![(key, v)],
        None => Seq::empty(),
    }
}

/// The surface pairs, in this order: `role`, `aria-modal`, `id`,
/// `aria-labelledby`, `aria-describedby`, `aria-label` (when a non-empty
/// label is given), `data-state`, `data-transition`, `data-focus-trap`,
/// `data-analytics-id`; optional entries only when present.
pub open spec fn surface_pairs(s: DialogSurfaceSnapshot, aria_label: Option<Seq<char>>) -> Seq<
    (Seq<char>, Seq<char>),
> {
    seq![("role"@, s.role@), ("aria-modal"@, s.aria_modal@)] + opt_pair("id"@, opt_text(s.id)) + opt_pair(
        "aria-labelledby"@,
        opt_text(s.labelled_by),
    ) + opt_pair("aria-describedby"@, opt_text(s.described_by)) + (match aria_label {
        Some(l) => if l.len() > 0 {
            seq![("aria-label"@, l)]
        } else {
            Seq::empty()
        },
        None => Seq::empty(),
    }) + seq![("data-state"@, s.state@)] + opt_pair("data-transition"@, opt_text(s.transition)) + seq![
        ("data-focus-trap"@, s.focus_trap@),
    ] + opt_pair("data-analytics-id"@, opt_text(s.analytics_id))
}

fn push_opt(out: &mut Vec<(String, String)>, key: &str, value: &Option<String>)
    ensures
        pairs_view(final(out)@) == pairs_view(old(out)@) + opt_pair(key@, opt_text(*value)),
{
    match value {
        Some(v) => {
            push_attr_str(out, key, v.as_str());
            assert(pairs_view(out@) =~= pairs_view(old(out)@) + opt_pair(key@, opt_text(*value)));
        },
        None => {
            assert(pairs_view(out@) =~= pairs_view(old(out)@) + opt_pair(key@, opt_text(*value)));
        },
    }
}

/// The surface attribute list.
pub fn dialog_surface_attributes(surface: &DialogSurfaceSnapshot, aria_label: Option<&str>) -> (r: Vec<
    (String, String),
>)
    ensures
        pairs_view(r@) == surface_pairs(
            *surface,
            match aria_label {
                Some(l) => Some(l@),
                None => None,
            },
        ),
{
    let ghost label = match aria_label {
        Some(l) => Some(l@),
        None => None,
    };
    let mut pairs: Vec<(String, String)> = Vec::new();
    push_attr_str(&mut pairs, "role", surface.role.as_str());
    push_attr_str(&mut pairs, "aria-modal", surface.aria_modal.as_str());
    push_opt(&mut pairs, "id", &surface.id);
    push_opt(&mut pairs, "aria-labelledby", &surface.labelled_by);
    push_opt(&mut pairs, "aria-describedby", &surface.described_by);
    let ghost before_label = pairs_view(pairs@);
    match aria_label {
        Some(l) => {
            if l.unicode_len() > 0 {
                push_attr_str(&mut pairs, "aria-label", l);
            }
        },
        None => {},
    }
    assert(pairs_view(pairs@) =~= before_label + (match label {
        Some(l) => if l.len() > 0 {
            seq![("aria-label"@, l)]
        } else {
            Seq::empty()
        },
        None => Seq::empty(),
    }));
    push_attr_str(&mut pairs, "data-state", surface.state.as_str());
    push_opt(&mut pairs, "data-transition", &surface.transition);
    push_attr_str(&mut pairs, "data-focus-trap", surface.focus_trap.as_str());
    push_opt(&mut pairs, "data-analytics-id", &surface.analytics_id);
    assert(pairs_view(pairs@) =~= surface_pairs(*surface, label));
    pairs
}

/// The backdrop pairs: `data-state`, then `data-visible`.
pub fn dialog_backdrop_attributes(state: &str, visible: bool) -> (r: Vec<(String, String)>)
    ensures
        pairs_view(r@) == seq![("data-state"@, state@), ("data-visible"@, bool_text(visible))],
{
    let mut pairs: Vec<(String, String)> = Vec::new();
    push_attr_str(&mut pairs, "data-state", state);
    let v = bool_to_string(visible);
    push_attr_str(&mut pairs, "data-visible", v.as_str());
    assert(pairs_view(pairs@) =~= seq![("data-state"@, state@), ("data-visible"@, bool_text(visible))]);
    pairs
}

/// `<div class=".." surface pairs>child</div>`.
pub fn render_dialog_surface_html(surface: &DialogSurfaceSnapshot, aria_label: Option<&str>, class: &str, child: &str) -> (r:
    String)
    ensures
        r@ == element_text(
            "div"@,
            attrs_html(
                themed_pairs(
                    class@,
                    surface_pairs(
                        *surface,
                        match aria_label {
                            Some(l) => Some(l@),
                            None => None,
                        },
                    ),
                ),
            ),
            child@,
        ),
{
    let pairs = dialog_surface_attributes(surface, aria_label);
    render_element_html("div", class, &pairs, child)
}

/// Renders an open dialog's surface with the options applied; a closed
/// dialog renders nothing.
pub fn render(
    open: bool,
    surface: &DialogSurfaceSnapshot,
    options: &DialogSurfaceOptions,
    aria_label: Option<&str>,
    class: &str,
    children: &str,
) -> (r: String)
    ensures
        !open ==> r@ == Seq::<char>::empty(),
        open ==> exists|s: DialogSurfaceSnapshot|
            {
                &&& opt_text(s.id) == override_with(opt_text(surface.id), opt_text(options.id))
                &&& opt_text(s.labelled_by) == override_with(
                    opt_text(surface.labelled_by),
                    opt_text(options.labelled_by),
                )
                &&& opt_text(s.described_by) == override_with(
                    opt_text(surface.described_by),
                    opt_text(options.described_by),
                )
                &&& opt_text(s.analytics_id) == override_with(
                    opt_text(surface.analytics_id),
                    opt_text(options.analytics_id),
                )
                &&& s.role@ == surface.role@
                &&& s.aria_modal@ == surface.aria_modal@
                &&& s.state@ == surface.state@
                &&& opt_text(s.transition) == opt_text(surface.transition)
                &&& s.focus_trap@ == surface.focus_trap@
                &&& r@ == element_text(
                    "div"@,
                    attrs_html(
                        themed_pairs(
                            class@,
                            surface_pairs(
                                s,
                                match aria_label {
                                    Some(l) => Some(l@),
                                    None => None,
                                },
                            ),
                        ),
                    ),
                    children@,
                )
            },
{
    if !open {
        return String::new();
    }
    let applied = apply_surface_options(surface, options);
    render_dialog_surface_html(&applied, aria_label, class, children)
}

/// The keys a dialog surface element accepts.
pub open spec fn is_surface_key(key: Seq<char>) -> bool {
    key == "role"@ || key == "aria-modal"@ || key == "id"@ || key == "aria-labelledby"@ || key
        == "aria-describedby"@ || key == "aria-label"@ || key == "data-state"@ || key == "data-transition"@
        || key == "data-focus-trap"@ || key == "data-analytics-id"@
}

fn surface_key(key: &str) -> (r: bool)
    ensures
        r == is_surface_key(key@),
{
    str_eq(key, "role") || str_eq(key, "aria-modal") || str_eq(key, "id") || str_eq(key, "aria-labelledby")
        || str_eq(key, "aria-describedby") || str_eq(key, "aria-label") || str_eq(key, "data-state")
        || str_eq(key, "data-transition") || str_eq(key, "data-focus-trap") || str_eq(key, "data-analytics-id")
}

/// The attributes a component adapter sets on the surface element: every
/// pair, in order, each under one of the surface keys (any other key is a
/// programming error the adapter asserts against).
pub fn apply_surface_attributes(attrs: &Vec<(String, String)>) -> (r: Vec<(String, String)>)
    requires
        forall|i: int| 0 <= i < attrs@.len() ==> is_surface_key(#[trigger] attrs@[i].0@),
    ensures
        pairs_view(r@) == pairs_view(attrs@),
{
    let ghost pv = pairs_view(attrs@);
    let n = attrs.len();
    let mut out: Vec<(String, String)> = Vec::new();
    let mut i: usize = 0;
    while i < n
        invariant
            n == attrs@.len(),
            pv == pairs_view(attrs@),
            forall|j: int| 0 <= j < attrs@.len() ==> is_surface_key(#[trigger] attrs@[j].0@),
            i <= n,
            pairs_view(out@) == pv.subrange(0, i as int),
        decreases n - i,
    {
        let known = surface_key(attrs[i].0.as_str());
        assert(known);
        push_attr_str(&mut out, attrs[i].0.as_str(), attrs[i].1.as_str());
        assert(pv.subrange(0, i + 1) =~= pv.subrange(0, i as int).push(pv[i as int]));
        i = i + 1;
    }
    assert(pv.subrange(0, n as int) =~= pv);
    out
}

} // verus!
