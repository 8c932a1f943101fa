//! Flat telemetry payloads: the `(key, value)` pairs an adapter copies into
//! the object it hands to a host's telemetry sink.

use vstd::prelude::*;

use crate::telemetry::opt_text;
use crate::text::to_owned_string;

verus! {

/// A payload value: a string or a flag.
#[derive(Debug, Clone)]
pub enum PayloadValue {
    Text(String),
    Flag(bool),
}

/// The abstract content of a payload value.
pub enum PayloadField {
    Text(Seq<char>),
    Flag(bool),
}

impl View for PayloadValue {
    type V = PayloadField;

    open spec fn view(&self) -> PayloadField {
        match self {
            PayloadValue::Text(s) => PayloadField::Text(s@),
            PayloadValue::Flag(b) => PayloadField::Flag(*b),
        }
    }
}

/// The abstract content of a payload.
pub open spec fn payload_view(v: Seq<(String, PayloadValue)>) -> Seq<(Seq<char>, PayloadField)> {
    Seq::new(v.len(), |i: int| (v[i].0@, v[i].1@))
}

/// A text entry under `key` when the value is present, nothing otherwise.
pub open spec fn optional_field(key: Seq<char>, value: Option<Seq<char>>) -> Seq<(Seq<char>, PayloadField)> {
    match value {
        Some(v) => seq![(key, PayloadField::Text(v))],
        None => Seq::empty(),
    }
}

/// Appends a text entry.
pub fn push_text(payload: &mut Vec<(String, PayloadValue)>, key: &str, value: String)
    ensures
        payload_view(final(payload)@) == payload_view(old(payload)@).push((key@, PayloadField::Text(value@))),
{
    let ghost v = value@;
    payload.push((to_owned_string(key), PayloadValue::Text(value)));
    assert(payload_view(payload@) =~= payload_view(old(payload)@).push((key@, PayloadField::Text(v))));
}

/// Appends a flag entry.
pub fn push_flag(payload: &mut Vec<(String, PayloadValue)>, key: &str, value: bool)
    ensures
        payload_view(final(payload)@) == payload_view(old(payload)@).push((key@, PayloadField::Flag(value))),
{
    payload.push((to_owned_string(key), PayloadValue::Flag(value)));
    assert(payload_view(payload@) =~= payload_view(old(payload)@).push((key@, PayloadField::Flag(value))));
}

/// Appends a text entry when the value is present; an absent identifier is
/// left out of the payload rather than sent empty.
pub fn push_optional_text(payload: &mut Vec<(String, PayloadValue)>, key: &str, value: &Option<String>)
    ensures
        payload_view(final(payload)@) == payload_view(old(payload)@) + optional_field(key@, opt_text(*value)),
{
    match value {
        Some(v) => {
            push_text(payload, key, v.clone());
            assert(payload_view(payload@) =~= payload_view(old(payload)@) + optional_field(key@, opt_text(*value)));
        },
        None => {
            assert(payload_view(payload@) =~= payload_view(old(payload)@) + optional_field(key@, opt_text(*value)));
        },
    }
}

/// The trailing entries every selection-control payload carries: the
/// identifiers that are present, then the label.
pub open spec fn identity_fields(
    analytics_id: Option<Seq<char>>,
    automation_id: Option<Seq<char>>,
    label: Seq<char>,
) -> Seq<(Seq<char>, PayloadField)> {
    optional_field("analyticsId"@, analytics_id) + optional_field("automationId"@, automation_id) + seq![
        ("label"@, PayloadField::Text(label)),
    ]
}

/// Appends the identifiers that are present and the label.
pub fn push_identity(
    payload: &mut Vec<(String, PayloadValue)>,
    analytics_id: &Option<String>,
    automation_id: &Option<String>,
    label: &String,
)
    ensures
        payload_view(final(payload)@) == payload_view(old(payload)@) + identity_fields(
            opt_text(*analytics_id),
            opt_text(*automation_id),
            label@,
        ),
{
    push_optional_text(payload, "analyticsId", analytics_id);
    push_optional_text(payload, "automationId", automation_id);
    push_text(payload, "label", label.clone());
    assert(payload_view(payload@) =~= payload_view(old(payload)@) + identity_fields(
        opt_text(*analytics_id),
        opt_text(*automation_id),
        label@,
    ));
}

} // verus!
