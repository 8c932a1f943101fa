//! Click-away boundaries: the root attribute list and markup of an element
//! whose outside clicks dismiss an overlay, and the automation identifiers of
//! dialog and drawer boundaries.
//!
//! The controller, id and analytics pairs come from the headless click-away
//! state; this module appends the automation identifier and renders the
//! boundary.

use vstd::prelude::*;

use crate::attr_map::{clone_attrs, pairs_view, push_attr};
use crate::markup::{attrs_html, element_text, render_element_html, themed_pairs};
use crate::telemetry::{clone_opt, non_empty_or, non_empty_or_string, opt_text, TelemetryHooks};
use crate::text::to_owned_string;

verus! {

/// Overrides for the boundary element.
#[derive(Debug, Clone, Default)]
pub struct ClickAwayBoundaryOptions {
    /// DOM identifier of the boundary.
    pub id: Option<String>,
    /// Analytics marker.
    pub analytics_id: Option<String>,
    /// Automation identifier.
    pub automation_id: Option<String>,
}

/// Fills the analytics and automation identifiers the options lack from the
/// telemetry hooks; identifiers the options set are kept.
pub fn merge_boundary_options(options: &ClickAwayBoundaryOptions, telemetry: &TelemetryHooks) -> (r:
    ClickAwayBoundaryOptions)
    ensures
        opt_text(r.id) == opt_text(options.id),
        opt_text(r.analytics_id) == (if options.analytics_id is Some {
            opt_text(options.analytics_id)
        } else {
            opt_text(telemetry.analytics_id)
        }),
        opt_text(r.automation_id) == (if options.automation_id is Some {
            opt_text(options.automation_id)
        } else {
            opt_text(telemetry.automation_id)
        }),
{
    let analytics_id = if options.analytics_id.is_none() {
        clone_opt(&telemetry.analytics_id)
    } else {
        clone_opt(&options.analytics_id)
    };
    let automation_id = if options.automation_id.is_none() {
        clone_opt(&telemetry.automation_id)
    } else {
        clone_opt(&options.automation_id)
    };
    ClickAwayBoundaryOptions { id: clone_opt(&options.id), analytics_id, automation_id }
}

/// The automation identifier of the boundary: the options' identifier when it
/// is set and non-empty, otherwise `fallback`.
pub fn resolved_automation_id(options: &ClickAwayBoundaryOptions, fallback: &str) -> (r: String)
    ensures
        r@ == non_empty_or(opt_text(options.automation_id), fallback@),
{
    non_empty_or_string(&options.automation_id, fallback)
}

/// The boundary pairs: the headless root pairs (controller, id, analytics),
/// then `data-automation-id`.
pub open spec fn boundary_pairs(
    root: Seq<(Seq<char>, Seq<char>)>,
    options: ClickAwayBoundaryOptions,
    fallback: Seq<char>,
) -> Seq<(Seq<char>, Seq<char>)> {
    root.push(("data-automation-id"@, non_empty_or(opt_text(options.automation_id), fallback)))
}

/// The root attribute list of a boundary.
pub fn click_away_root_attributes(
    root: &Vec<(String, String)>,
    automation_fallback: &str,
    options: &ClickAwayBoundaryOptions,
) -> (r: Vec<(String, String)>)
    ensures
        pairs_view(r@) == boundary_pairs(pairs_view(root@), *options, automation_fallback@),
{
    let mut pairs = clone_attrs(root);
    push_attr(&mut pairs, to_owned_string("data-automation-id"), resolved_automation_id(options, automation_fallback));
    pairs
}

/// `<div class=".." pairs>children</div>` for a boundary.
pub fn render_click_away_boundary_html(
    root: &Vec<(String, String)>,
    options: &ClickAwayBoundaryOptions,
    automation_fallback: &str,
    class: &str,
    children: &str,
) -> (r: String)
    ensures
        r@ == element_text(
            "div"@,
            attrs_html(themed_pairs(class@, boundary_pairs(pairs_view(root@), *options, automation_fallback@))),
            children@,
        ),
{
    let pairs = click_away_root_attributes(root, automation_fallback, options);
    render_element_html("div", class, &pairs, children)
}

/// `<kind>::<id>::click-away` when an identifier is given, otherwise
/// `<kind>::click-away`.
pub open spec fn scoped_click_away(kind: Seq<char>, id: Option<Seq<char>>) -> Seq<char> {
    match id {
        Some(i) => kind + "::"@ + i + "::click-away"@,
        None => kind + "::click-away"@,
    }
}

fn scoped_click_away_id(kind: &str, id: Option<&str>) -> (r: String)
    ensures
        r@ == scoped_click_away(
            kind@,
            match id {
                Some(i) => Some(i@),
                None => None,
            },
        ),
{
    let mut out = to_owned_string(kind);
    match id {
        Some(i) => {
            out.append("::");
            out.append(i);
            out.append("::click-away");
        },
        None => {
            out.append("::click-away");
        },
    }
    out
}

/// Automation identifier of a dialog's click-away boundary, derived from the
/// surface's analytics identifier.
pub fn dialog_click_away_automation(surface: &crate::dialog::DialogSurfaceOptions) -> (r: String)
    ensures
        r@ == scoped_click_away("dialog"@, opt_text(surface.analytics_id)),
{
    match &surface.analytics_id {
        Some(id) => scoped_click_away_id("dialog", Some(id.as_str())),
        None => scoped_click_away_id("dialog", None),
    }
}

/// Automation identifier of a drawer's click-away boundary, derived from the
/// drawer's toggle event channel.
pub fn drawer_click_away_automation(on_toggle_event: Option<&str>) -> (r: String)
    ensures
        r@ == scoped_click_away(
            "drawer"@,
            match on_toggle_event {
                Some(e) => Some(e@),
                None => None,
            },
        ),
{
    scoped_click_away_id("drawer", on_toggle_event)
}

} // verus!
