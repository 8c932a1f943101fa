//! Focus-trap sentinels: the attribute list and markup of the hidden elements
//! that bookend a focus trap.
//!
//! The controller and analytics pairs come from the headless focus-trap state;
//! this module appends the sentinel's automation identifier
//! `<prefix>::focus-trap-start` or `<prefix>::focus-trap-end`.

use vstd::prelude::*;

use crate::attr_map::{clone_attrs, pairs_view, push_attr};
use crate::markup::{attrs_html, element_text, render_element_html, themed_pairs};
use crate::telemetry::{non_empty_or, non_empty_or_string, opt_text};
use crate::text::to_owned_string;

verus! {

/// The sentinel before or after the tabbable content.
#[derive(Debug, Clone, Copy, PartialEq, Eq, Structural)]
pub enum FocusTrapSentinelKind {
    Start,
    End,
}

/// `start` or `end`.
pub open spec fn suffix_text(kind: FocusTrapSentinelKind) -> Seq<char> {
    match kind {
        FocusTrapSentinelKind::Start => "start"@,
        FocusTrapSentinelKind::End => "end"@,
    }
}

impl FocusTrapSentinelKind {
    /// The suffix of the sentinel's automation identifier.
    pub fn automation_suffix(self) -> (r: &'static str)
        ensures
            r@ == suffix_text(self),
    {
        match self {
            FocusTrapSentinelKind::Start => "start",
            FocusTrapSentinelKind::End => "end",
        }
    }
}

/// Overrides shared by both sentinels.
#[derive(Debug, Clone, Default)]
pub struct FocusTrapSentinelOptions {
    /// Automation prefix; the fallback prefix is used when absent or empty.
    pub automation_prefix: Option<String>,
}

/// `<prefix>::focus-trap-<suffix>`.
pub open spec fn sentinel_automation_text(prefix: Seq<char>, kind: FocusTrapSentinelKind) -> Seq<char> {
    prefix + "::focus-trap-"@ + suffix_text(kind)
}

/// The sentinel pairs: the headless pairs, then `data-automation-id`.
pub open spec fn sentinel_pairs(
    base: Seq<(Seq<char>, Seq<char>)>,
    kind: FocusTrapSentinelKind,
    options: FocusTrapSentinelOptions,
    fallback_prefix: Seq<char>,
) -> Seq<(Seq<char>, Seq<char>)> {
    base.push(
        (
            "data-automation-id"@,
            sentinel_automation_text(non_empty_or(opt_text(options.automation_prefix), fallback_prefix), kind),
        ),
    )
}

/// The attribute list of a sentinel.
pub fn focus_trap_sentinel_attributes(
    base: &Vec<(String, String)>,
    kind: FocusTrapSentinelKind,
    options: &FocusTrapSentinelOptions,
    fallback_prefix: &str,
) -> (r: Vec<(String, String)>)
    ensures
        pairs_view(r@) == sentinel_pairs(pairs_view(base@), kind, *options, fallback_prefix@),
{
    let mut pairs = clone_attrs(base);
    let mut automation = non_empty_or_string(&options.automation_prefix, fallback_prefix);
    automation.append("::focus-trap-");
    automation.append(kind.automation_suffix());
    push_attr(&mut pairs, to_owned_string("data-automation-id"), automation);
    pairs
}

/// `<span class=".." pairs></span>` for a sentinel.
pub fn render_focus_trap_sentinel_html(
    base: &Vec<(String, String)>,
    kind: FocusTrapSentinelKind,
    options: &FocusTrapSentinelOptions,
    fallback_prefix: &str,
    class: &str,
) -> (r: String)
    ensures
        r@ == element_text(
            "span"@,
            attrs_html(themed_pairs(class@, sentinel_pairs(pairs_view(base@), kind, *options, fallback_prefix@))),
            Seq::empty(),
        ),
{
    let pairs = focus_trap_sentinel_attributes(base, kind, options, fallback_prefix);
    proof {
        reveal_strlit("");
    }
    render_element_html("span", class, &pairs, "")
}

/// The sentinel kind a token names.
pub open spec fn sentinel_named(token: Seq<char>) -> Option<FocusTrapSentinelKind> {
    if token == "start"@ {
        Some(FocusTrapSentinelKind::Start)
    } else if token == "end"@ {
        Some(FocusTrapSentinelKind::End)
    } else {
        None
    }
}

/// A sentinel kind's token reads back as that sentinel kind: `start` names Start, `end` names End.
pub proof fn law_sentinel_round_trip(value: FocusTrapSentinelKind)
    ensures
        sentinel_named(suffix_text(value)) == Some(value),
{
    let t0 = "start"@;
    let t1 = "end"@;
    reveal_strlit("start");
    reveal_strlit("end");
    assert(t0.len() != t1.len() || t0[0] != t1[0]);
}

/// Distinct sentinel kinds have distinct tokens.
pub proof fn law_sentinels_distinct(a: FocusTrapSentinelKind, b: FocusTrapSentinelKind)
    requires
        a != b,
    ensures
        suffix_text(a) != suffix_text(b),
{
    law_sentinel_round_trip(a);
    law_sentinel_round_trip(b);
}

} // verus!
