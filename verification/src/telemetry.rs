//! Telemetry identifiers carried by selection controls.
//!
//! Render lifecycles are decorated with an analytics identifier and an
//! automation identifier; both are optional. Spans and render/error callbacks
//! are runtime plumbing and live with the framework adapters.

use vstd::prelude::*;

use crate::text::to_owned_string;

verus! {

/// The abstract content of an optional string.
pub open spec fn opt_text(o: Option<String>) -> Option<Seq<char>> {
    match o {
        Some(s) => Some(s@),
        None => None,
    }
}

/// The first of two optional values that is present.
pub open spec fn or_else_text(primary: Option<Seq<char>>, fallback: Option<Seq<char>>) -> Option<
    Seq<char>,
> {
    match primary {
        Some(p) => Some(p),
        None => fallback,
    }
}

/// Analytics and automation identifiers attached to a control.
#[derive(Debug, Clone, Default)]
pub struct TelemetryHooks {
    /// Identifier mirrored to analytics sinks.
    pub analytics_id: Option<String>,
    /// Identifier mirrored to automation sinks.
    pub automation_id: Option<String>,
}

impl TelemetryHooks {
    /// Hooks with neither identifier.
    pub fn none() -> (r: Self)
        ensures
            r.analytics_id is None,
            r.automation_id is None,
    {
        TelemetryHooks { analytics_id: None, automation_id: None }
    }

    /// An independent copy of the hooks.
    pub fn duplicate(&self) -> (r: Self)
        ensures
            opt_text(r.analytics_id) == opt_text(self.analytics_id),
            opt_text(r.automation_id) == opt_text(self.automation_id),
    {
        TelemetryHooks {
            analytics_id: clone_opt(&self.analytics_id),
            automation_id: clone_opt(&self.automation_id),
        }
    }
}

/// Copies an optional string.
pub fn clone_opt(o: &Option<String>) -> (r: Option<String>)
    ensures
        opt_text(r) == opt_text(*o),
{
    match o {
        Some(s) => Some(s.clone()),
        None => None,
    }
}

/// Combines two sets of hooks: each identifier comes from `primary` when it
/// is set there, and from `fallback` otherwise.
pub fn merged_telemetry(primary: &TelemetryHooks, fallback: &TelemetryHooks) -> (r: TelemetryHooks)
    ensures
        opt_text(r.analytics_id) == or_else_text(
            opt_text(primary.analytics_id),
            opt_text(fallback.analytics_id),
        ),
        opt_text(r.automation_id) == or_else_text(
            opt_text(primary.automation_id),
            opt_text(fallback.automation_id),
        ),
{
    let analytics_id = match &primary.analytics_id {
        Some(a) => Some(a.clone()),
        None => clone_opt(&fallback.analytics_id),
    };
    let automation_id = match &primary.automation_id {
        Some(a) => Some(a.clone()),
        None => clone_opt(&fallback.automation_id),
    };
    TelemetryHooks { analytics_id, automation_id }
}

/// Merging with empty fallback hooks changes nothing, and merging empty
/// primary hooks yields the fallback.
pub proof fn lemma_merge_identity(a: Option<Seq<char>>)
    ensures
        or_else_text(a, None) == a,
        or_else_text(None, a) == a,
{
}

/// Merging is associative: `(a or b) or c == a or (b or c)`.
pub proof fn lemma_merge_associative(a: Option<Seq<char>>, b: Option<Seq<char>>, c: Option<Seq<char>>)
    ensures
        or_else_text(or_else_text(a, b), c) == or_else_text(a, or_else_text(b, c)),
{
}

/// The value when it is present and non-empty, otherwise the fallback.
pub open spec fn non_empty_or(value: Option<Seq<char>>, fallback: Seq<char>) -> Seq<char> {
    match value {
        Some(v) => if v.len() > 0 {
            v
        } else {
            fallback
        },
        None => fallback,
    }
}

/// Executable [`non_empty_or`].
pub fn non_empty_or_string(value: &Option<String>, fallback: &str) -> (r: String)
    ensures
        r@ == non_empty_or(opt_text(*value), fallback@),
{
    match value {
        Some(v) => {
            if v.as_str().unicode_len() > 0 {
                v.clone()
            } else {
                to_owned_string(fallback)
            }
        },
        None => to_owned_string(fallback),
    }
}

/// A non-empty fallback always yields a non-empty identifier.
pub proof fn lemma_non_empty_or_non_empty(value: Option<Seq<char>>, fallback: Seq<char>)
    requires
        fallback.len() > 0,
    ensures
        non_empty_or(value, fallback).len() > 0,
{
}

/// Metadata describing one render for telemetry sinks: the component path,
/// the identifiers, and the rendered descriptor's label and themed
/// attributes.
#[derive(Debug)]
pub struct TelemetryContext {
    pub component: String,
    pub analytics_id: Option<String>,
    pub automation_id: Option<String>,
    pub descriptor_label: Option<String>,
    pub descriptor_attributes: Vec<(String, String)>,
}

impl TelemetryContext {
    /// A context for `component` with no identifiers and no descriptor.
    pub fn new(component: &str) -> (r: Self)
        ensures
            r.component@ == component@,
            r.analytics_id is None,
            r.automation_id is None,
            r.descriptor_label is None,
            r.descriptor_attributes@.len() == 0,
    {
        TelemetryContext {
            component: to_owned_string(component),
            analytics_id: None,
            automation_id: None,
            descriptor_label: None,
            descriptor_attributes: Vec::new(),
        }
    }

    /// The context with its analytics identifier replaced.
    pub fn with_analytics(self, analytics_id: Option<String>) -> (r: Self)
        ensures
            r == (TelemetryContext { analytics_id, ..self }),
    {
        TelemetryContext { analytics_id, ..self }
    }

    /// The context with its automation identifier replaced.
    pub fn with_automation(self, automation_id: Option<String>) -> (r: Self)
        ensures
            r == (TelemetryContext { automation_id, ..self }),
    {
        TelemetryContext { automation_id, ..self }
    }

    /// The context with the rendered descriptor's label and attributes.
    pub fn with_descriptor_metadata(self, label: String, attributes: Vec<(String, String)>) -> (r: Self)
        ensures
            r == (TelemetryContext { descriptor_label: Some(label), descriptor_attributes: attributes, ..self }),
    {
        TelemetryContext { descriptor_label: Some(label), descriptor_attributes: attributes, ..self }
    }
}

} // verus!
