//! Collapsible regions: the trigger and region attribute lists and markup.
//!
//! The headless collapsible state produces the trigger's and the region's
//! pairs (expansion, controls, id, analytics); this module appends the
//! automation identifier and renders the elements.

use vstd::prelude::*;

use crate::attr_map::{clone_attrs, pairs_view, push_attr};
use crate::markup::{attrs_html, element_text, render_element_html, themed_pairs};
use crate::telemetry::{non_empty_or, non_empty_or_string, opt_text};
use crate::text::to_owned_string;

verus! {

/// Overrides applied to the trigger.
#[derive(Debug, Clone, Default)]
pub struct CollapsibleTriggerOptions {
    /// Analytics identifier.
    pub analytics_id: Option<String>,
    /// Id of the controlled region (`aria-controls`).
    pub controls: Option<String>,
    /// Automation identifier; the fallback is used when absent or empty.
    pub automation_id: Option<String>,
}

/// Overrides applied to the region.
#[derive(Debug, Clone, Default)]
pub struct CollapsibleRegionOptions {
    /// DOM id of the region.
    pub id: Option<String>,
    /// Analytics identifier.
    pub analytics_id: Option<String>,
    /// Automation identifier; the fallback is used when absent or empty.
    pub automation_id: Option<String>,
}

/// The headless pairs followed by `data-automation-id`.
pub open spec fn with_automation(
    base: Seq<(Seq<char>, Seq<char>)>,
    automation: Option<Seq<char>>,
    fallback: Seq<char>,
) -> Seq<(Seq<char>, Seq<char>)> {
    base.push(("data-automation-id"@, non_empty_or(automation, fallback)))
}

fn automation_pairs(base: &Vec<(String, String)>, automation: &Option<String>, fallback: &str) -> (r: Vec<
    (String, String),
>)
    ensures
        pairs_view(r@) == with_automation(pairs_view(base@), opt_text(*automation), fallback@),
{
    let mut pairs = clone_attrs(base);
    push_attr(&mut pairs, to_owned_string("data-automation-id"), non_empty_or_string(automation, fallback));
    pairs
}

/// The trigger's attribute list.
pub fn collapsible_trigger_attributes(
    base: &Vec<(String, String)>,
    options: &CollapsibleTriggerOptions,
    automation_fallback: &str,
) -> (r: Vec<(String, String)>)
    ensures
        pairs_view(r@) == with_automation(
            pairs_view(base@),
            opt_text(options.automation_id),
            automation_fallback@,
        ),
{
    automation_pairs(base, &options.automation_id, automation_fallback)
}

/// The region's attribute list.
pub fn collapsible_region_attributes(
    base: &Vec<(String, String)>,
    options: &CollapsibleRegionOptions,
    automation_fallback: &str,
) -> (r: Vec<(String, String)>)
    ensures
        pairs_view(r@) == with_automation(
            pairs_view(base@),
            opt_text(options.automation_id),
            automation_fallback@,
        ),
{
    automation_pairs(base, &options.automation_id, automation_fallback)
}

/// `<button class=".." pairs>label</button>` for the trigger.
pub fn render_collapsible_trigger_html(
    base: &Vec<(String, String)>,
    options: &CollapsibleTriggerOptions,
    automation_fallback: &str,
    class: &str,
    label: &str,
) -> (r: String)
    ensures
        r@ == element_text(
            "button"@,
            attrs_html(
                themed_pairs(
                    class@,
                    with_automation(pairs_view(base@), opt_text(options.automation_id), automation_fallback@),
                ),
            ),
            label@,
        ),
{
    let pairs = collapsible_trigger_attributes(base, options, automation_fallback);
    render_element_html("button", class, &pairs, label)
}

/// `<div class=".." pairs>children</div>` for the region.
pub fn render_collapsible_region_html(
    base: &Vec<(String, String)>,
    options: &CollapsibleRegionOptions,
    automation_fallback: &str,
    class: &str,
    children: &str,
) -> (r: String)
    ensures
        r@ == element_text(
            "div"@,
            attrs_html(
                themed_pairs(
                    class@,
                    with_automation(pairs_view(base@), opt_text(options.automation_id), automation_fallback@),
                ),
            ),
            children@,
        ),
{
    let pairs = collapsible_region_attributes(base, options, automation_fallback);
    render_element_html("div", class, &pairs, children)
}

} // verus!
