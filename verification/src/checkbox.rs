//! Material checkbox: event payloads, the toggle descriptor and its markup.
//!
//! The checked and disabled flags and the ARIA pairs come from the headless
//! checkbox state machine; this module turns them into telemetry payloads and
//! into the descriptor every adapter renders. Telemetry identifiers are added
//! as `data-rustic-analytics-id` and `data-automation-id` pairs.

use vstd::prelude::*;

use crate::attr_map::{clone_attrs, last_value, last_value_or, lookup_last, opt_seq, pairs_view, value_or};
use crate::descriptor::{
    analytics_key, apply_option_telemetry, automation_key, data_pairs, is_data_key, lemma_data_pairs_push,
    render_toggle_html, telemetry_merged, toggle_html, with_missing, ToggleControlDescriptor,
};
use crate::interaction::{control_key_from_str, control_key_of, control_key_text, control_key_to_str, ControlKey};
use crate::payload::{identity_fields, payload_view, push_flag, push_identity, push_text, PayloadField, PayloadValue};
use crate::telemetry::{clone_opt, opt_text, TelemetryContext, TelemetryHooks};
use crate::attr_map::has_key;
use crate::text::to_owned_string;

verus! {

/// Tri-state value of a checkbox.
#[derive(Debug, Clone, Copy, PartialEq, Eq, Structural)]
pub enum CheckboxValue {
    Off,
    On,
    Indeterminate,
}

/// The value a click requests: off becomes on, on becomes off, and an
/// indeterminate box becomes on.
pub open spec fn toggled(value: CheckboxValue) -> CheckboxValue {
    match value {
        CheckboxValue::Off => CheckboxValue::On,
        CheckboxValue::On => CheckboxValue::Off,
        CheckboxValue::Indeterminate => CheckboxValue::On,
    }
}

/// Executable [`toggled`].
pub fn toggled_value(value: CheckboxValue) -> (r: CheckboxValue)
    ensures
        r == toggled(value),
{
    match value {
        CheckboxValue::Off => CheckboxValue::On,
        CheckboxValue::On => CheckboxValue::Off,
        CheckboxValue::Indeterminate => CheckboxValue::On,
    }
}

/// Telemetry name of a value.
pub open spec fn checkbox_value_text(value: CheckboxValue) -> Seq<char> {
    match value {
        CheckboxValue::Off => "off"@,
        CheckboxValue::On => "on"@,
        CheckboxValue::Indeterminate => "indeterminate"@,
    }
}

/// The telemetry name of a value.
pub fn checkbox_value_to_str(value: CheckboxValue) -> (r: String)
    ensures
        r@ == checkbox_value_text(value),
{
    match value {
        CheckboxValue::Off => to_owned_string("off"),
        CheckboxValue::On => to_owned_string("on"),
        CheckboxValue::Indeterminate => to_owned_string("indeterminate"),
    }
}

/// What the renderer reads from the headless checkbox state.
#[derive(Debug, Clone, Copy, PartialEq, Eq, Structural)]
pub struct CheckboxSnapshot {
    /// Current value.
    pub checked: CheckboxValue,
    /// Whether interaction is disabled.
    pub disabled: bool,
    /// Whether the focus ring is shown.
    pub focus_visible: bool,
}

/// The value a change request resolves to: unchanged when disabled.
pub open spec fn requested(state: CheckboxSnapshot) -> CheckboxValue {
    if state.disabled {
        state.checked
    } else {
        toggled(state.checked)
    }
}

/// Props shared across all framework adapters.
#[derive(Debug, Clone)]
pub struct CheckboxProps {
    /// Visible label rendered alongside the checkbox indicator.
    pub label: String,
    /// Analytics and automation identifiers.
    pub telemetry: TelemetryHooks,
}

impl CheckboxProps {
    /// Props with the given label and no telemetry identifiers.
    pub fn new(label: &str) -> (r: Self)
        ensures
            r.label@ == label@,
            r.telemetry.analytics_id is None,
            r.telemetry.automation_id is None,
    {
        CheckboxProps { label: to_owned_string(label), telemetry: TelemetryHooks::none() }
    }
}

/// The analytics identifier of the props.
pub fn analytics_id(props: &CheckboxProps) -> (r: Option<String>)
    ensures
        opt_text(r) == opt_text(props.telemetry.analytics_id),
{
    clone_opt(&props.telemetry.analytics_id)
}

/// The automation identifier of the props.
pub fn automation_id(props: &CheckboxProps) -> (r: Option<String>)
    ensures
        opt_text(r) == opt_text(props.telemetry.automation_id),
{
    clone_opt(&props.telemetry.automation_id)
}

/// Payload emitted when the checked state changes.
#[derive(Debug, Clone)]
pub struct CheckboxChangeEvent {
    /// Value before the interaction.
    pub previous: CheckboxValue,
    /// Value requested by the interaction.
    pub next: CheckboxValue,
    /// Whether the checkbox was disabled.
    pub disabled: bool,
    /// Analytics identifier, if configured.
    pub analytics_id: Option<String>,
    /// Automation identifier, if configured.
    pub automation_id: Option<String>,
    /// Visible label.
    pub label: String,
}

/// Payload emitted when focus is gained or lost.
#[derive(Debug, Clone)]
pub struct CheckboxFocusEvent {
    /// Whether focus was gained.
    pub focused: bool,
    /// Value at the time of the transition.
    pub checked: CheckboxValue,
    /// Whether the checkbox was disabled.
    pub disabled: bool,
    /// Analytics identifier, if configured.
    pub analytics_id: Option<String>,
    /// Automation identifier, if configured.
    pub automation_id: Option<String>,
    /// Visible label.
    pub label: String,
}

/// Payload emitted for keyboard interactions.
#[derive(Debug, Clone)]
pub struct CheckboxKeyEvent {
    /// The key pressed.
    pub key: ControlKey,
    /// Value before the key press.
    pub previous: CheckboxValue,
    /// Value requested by the key press.
    pub next: CheckboxValue,
    /// Whether the checkbox was disabled.
    pub disabled: bool,
    /// Analytics identifier, if configured.
    pub analytics_id: Option<String>,
    /// Automation identifier, if configured.
    pub automation_id: Option<String>,
    /// Visible label.
    pub label: String,
}

/// Telemetry payloads surfaced across adapters.
#[derive(Debug, Clone)]
pub enum CheckboxTelemetryEvent {
    Change(CheckboxChangeEvent),
    Focus(CheckboxFocusEvent),
    Blur(CheckboxFocusEvent),
    Key(CheckboxKeyEvent),
}

/// The flat payload of a telemetry event, key by key, as handed to a host
/// sink: the event kind, its state fields, then the identifiers that are
/// present and the label.
pub open spec fn checkbox_payload(event: CheckboxTelemetryEvent) -> Seq<(Seq<char>, PayloadField)> {
    match event {
        CheckboxTelemetryEvent::Change(e) => seq![
            ("kind"@, PayloadField::Text("change"@)),
            ("previous"@, PayloadField::Text(checkbox_value_text(e.previous))),
            ("next"@, PayloadField::Text(checkbox_value_text(e.next))),
            ("disabled"@, PayloadField::Flag(e.disabled)),
        ] + identity_fields(opt_text(e.analytics_id), opt_text(e.automation_id), e.label@),
        CheckboxTelemetryEvent::Focus(e) => seq![
            ("kind"@, PayloadField::Text("focus"@)),
            ("focused"@, PayloadField::Flag(e.focused)),
            ("checked"@, PayloadField::Text(checkbox_value_text(e.checked))),
            ("disabled"@, PayloadField::Flag(e.disabled)),
        ] + identity_fields(opt_text(e.analytics_id), opt_text(e.automation_id), e.label@),
        CheckboxTelemetryEvent::Blur(e) => seq![
            ("kind"@, PayloadField::Text("blur"@)),
            ("focused"@, PayloadField::Flag(e.focused)),
            ("checked"@, PayloadField::Text(checkbox_value_text(e.checked))),
            ("disabled"@, PayloadField::Flag(e.disabled)),
        ] + identity_fields(opt_text(e.analytics_id), opt_text(e.automation_id), e.label@),
        CheckboxTelemetryEvent::Key(e) => seq![
            ("kind"@, PayloadField::Text("key"@)),
            ("key"@, PayloadField::Text(control_key_text(e.key))),
            ("previous"@, PayloadField::Text(checkbox_value_text(e.previous))),
            ("next"@, PayloadField::Text(checkbox_value_text(e.next))),
            ("disabled"@, PayloadField::Flag(e.disabled)),
        ] + identity_fields(opt_text(e.analytics_id), opt_text(e.automation_id), e.label@),
    }
}

/// Flattens a telemetry event into the keyed payload a host sink receives;
/// absent identifiers are left out.
pub fn telemetry_payload(event: &CheckboxTelemetryEvent) -> (r: Vec<(String, PayloadValue)>)
    ensures
        payload_view(r@) == checkbox_payload(*event),
{
    let mut p: Vec<(String, PayloadValue)> = Vec::new();
    match event {
        CheckboxTelemetryEvent::Change(e) => {
            push_text(&mut p, "kind", to_owned_string("change"));
            push_text(&mut p, "previous", checkbox_value_to_str(e.previous));
            push_text(&mut p, "next", checkbox_value_to_str(e.next));
            push_flag(&mut p, "disabled", e.disabled);
            push_identity(&mut p, &e.analytics_id, &e.automation_id, &e.label);
        },
        CheckboxTelemetryEvent::Focus(e) => {
            push_text(&mut p, "kind", to_owned_string("focus"));
            push_flag(&mut p, "focused", e.focused);
            push_text(&mut p, "checked", checkbox_value_to_str(e.checked));
            push_flag(&mut p, "disabled", e.disabled);
            push_identity(&mut p, &e.analytics_id, &e.automation_id, &e.label);
        },
        CheckboxTelemetryEvent::Blur(e) => {
            push_text(&mut p, "kind", to_owned_string("blur"));
            push_flag(&mut p, "focused", e.focused);
            push_text(&mut p, "checked", checkbox_value_to_str(e.checked));
            push_flag(&mut p, "disabled", e.disabled);
            push_identity(&mut p, &e.analytics_id, &e.automation_id, &e.label);
        },
        CheckboxTelemetryEvent::Key(e) => {
            push_text(&mut p, "kind", to_owned_string("key"));
            push_text(&mut p, "key", control_key_to_str(e.key));
            push_text(&mut p, "previous", checkbox_value_to_str(e.previous));
            push_text(&mut p, "next", checkbox_value_to_str(e.next));
            push_flag(&mut p, "disabled", e.disabled);
            push_identity(&mut p, &e.analytics_id, &e.automation_id, &e.label);
        },
    }
    assert(payload_view(p@) =~= checkbox_payload(*event));
    p
}

/// The change payload for a click on a checkbox in `state`.
pub fn build_change_event(props: &CheckboxProps, state: &CheckboxSnapshot) -> (r: CheckboxChangeEvent)
    ensures
        r.previous == state.checked,
        r.next == requested(*state),
        r.disabled == state.disabled,
        opt_text(r.analytics_id) == opt_text(props.telemetry.analytics_id),
        opt_text(r.automation_id) == opt_text(props.telemetry.automation_id),
        r.label@ == props.label@,
{
    let previous = state.checked;
    let next = if state.disabled {
        previous
    } else {
        toggled_value(previous)
    };
    CheckboxChangeEvent {
        previous,
        next,
        disabled: state.disabled,
        analytics_id: analytics_id(props),
        automation_id: automation_id(props),
        label: props.label.clone(),
    }
}

/// The focus payload for a focus (`focused`) or blur (`!focused`).
pub fn build_focus_event(props: &CheckboxProps, state: &CheckboxSnapshot, focused: bool) -> (r:
    CheckboxFocusEvent)
    ensures
        r.focused == focused,
        r.checked == state.checked,
        r.disabled == state.disabled,
        opt_text(r.analytics_id) == opt_text(props.telemetry.analytics_id),
        opt_text(r.automation_id) == opt_text(props.telemetry.automation_id),
        r.label@ == props.label@,
{
    CheckboxFocusEvent {
        focused,
        checked: state.checked,
        disabled: state.disabled,
        analytics_id: analytics_id(props),
        automation_id: automation_id(props),
        label: props.label.clone(),
    }
}

/// The key payload for `key` pressed on a checkbox in `state`.
pub fn build_key_event(props: &CheckboxProps, state: &CheckboxSnapshot, key: ControlKey) -> (r:
    CheckboxKeyEvent)
    ensures
        r.key == key,
        r.previous == state.checked,
        r.next == requested(*state),
        r.disabled == state.disabled,
        opt_text(r.analytics_id) == opt_text(props.telemetry.analytics_id),
        opt_text(r.automation_id) == opt_text(props.telemetry.automation_id),
        r.label@ == props.label@,
{
    let previous = state.checked;
    let next = if state.disabled {
        previous
    } else {
        toggled_value(previous)
    };
    CheckboxKeyEvent {
        key,
        previous,
        next,
        disabled: state.disabled,
        analytics_id: analytics_id(props),
        automation_id: automation_id(props),
        label: props.label.clone(),
    }
}

/// `pairs` followed by the analytics pair and then the automation pair, each
/// when its identifier is set.
pub open spec fn telemetry_appended(
    pairs: Seq<(Seq<char>, Seq<char>)>,
    analytics: Option<Seq<char>>,
    automation: Option<Seq<char>>,
) -> Seq<(Seq<char>, Seq<char>)> {
    let with_analytics = if analytics is Some {
        pairs.push((analytics_key(), analytics->0))
    } else {
        pairs
    };
    if automation is Some {
        with_analytics.push((automation_key(), automation->0))
    } else {
        with_analytics
    }
}

/// The descriptor of a checkbox: the label, the style's class, the state's
/// ARIA pairs, then the telemetry identifiers.
pub fn build_descriptor(props: &CheckboxProps, aria: &Vec<(String, String)>, class: &str) -> (r:
    ToggleControlDescriptor)
    ensures
        r.label_view() == props.label@,
        r.class_view() == class@,
        r.pairs() == telemetry_appended(
            pairs_view(aria@),
            opt_text(props.telemetry.analytics_id),
            opt_text(props.telemetry.automation_id),
        ),
{
    let descriptor = ToggleControlDescriptor::new(props.label.as_str(), class).with_attributes(aria);
    let descriptor = match &props.telemetry.analytics_id {
        Some(analytics) => descriptor.attribute("data-rustic-analytics-id", analytics.as_str()),
        None => descriptor,
    };
    match &props.telemetry.automation_id {
        Some(automation) => descriptor.attribute("data-automation-id", automation.as_str()),
        None => descriptor,
    }
}

/// Adds the telemetry identifiers the descriptor does not carry yet.
pub fn merge_descriptor_telemetry(descriptor: ToggleControlDescriptor, telemetry: &TelemetryHooks) -> (r:
    ToggleControlDescriptor)
    ensures
        r.label_view() == descriptor.label_view(),
        r.class_view() == descriptor.class_view(),
        r.pairs() == telemetry_merged(
            descriptor.pairs(),
            opt_text(telemetry.analytics_id),
            opt_text(telemetry.automation_id),
        ),
{
    apply_option_telemetry(descriptor, telemetry)
}

/// Merging the identifiers into a descriptor that already received them
/// from [`build_descriptor`] changes nothing: telemetry is never duplicated.
pub proof fn lemma_merge_after_build(
    pairs: Seq<(Seq<char>, Seq<char>)>,
    analytics: Option<Seq<char>>,
    automation: Option<Seq<char>>,
)
    ensures
        telemetry_merged(telemetry_appended(pairs, analytics, automation), analytics, automation)
            == telemetry_appended(pairs, analytics, automation),
{
    reveal_strlit("data-rustic-analytics-id");
    reveal_strlit("data-automation-id");
    reveal_strlit("data-");
    assert(analytics_key().subrange(0, 5) =~= "data-"@);
    assert(automation_key().subrange(0, 5) =~= "data-"@);
    assert(is_data_key(analytics_key()));
    assert(is_data_key(automation_key()));
    let with_analytics = if analytics is Some {
        pairs.push((analytics_key(), analytics->0))
    } else {
        pairs
    };
    let full = telemetry_appended(pairs, analytics, automation);
    if analytics is Some {
        lemma_data_pairs_push(pairs, (analytics_key(), analytics->0));
        let d = data_pairs(with_analytics);
        assert(d[d.len() - 1].0 == analytics_key());
        assert(has_key(d, analytics_key()));
        if automation is Some {
            lemma_data_pairs_push(with_analytics, (automation_key(), automation->0));
            let d2 = data_pairs(full);
            assert(d2[d.len() - 1].0 == analytics_key());
            assert(has_key(d2, analytics_key()));
        }
    }
    assert(with_missing(full, analytics_key(), analytics) == full);
    if automation is Some {
        lemma_data_pairs_push(with_analytics, (automation_key(), automation->0));
        let d3 = data_pairs(full);
        assert(d3[d3.len() - 1].0 == automation_key());
        assert(has_key(d3, automation_key()));
    }
}

/// Serialises the checkbox as `<span attrs>label</span>`, with the state's
/// ARIA pairs and the telemetry identifiers.
pub fn render_html(props: &CheckboxProps, aria: &Vec<(String, String)>, class: &str) -> (r: String)
    ensures
        r@ == toggle_html(
            class@,
            telemetry_appended(
                pairs_view(aria@),
                opt_text(props.telemetry.analytics_id),
                opt_text(props.telemetry.automation_id),
            ),
            props.label@,
        ),
{
    let descriptor = merge_descriptor_telemetry(build_descriptor(props, aria, class), &props.telemetry);
    proof {
        lemma_merge_after_build(
            pairs_view(aria@),
            opt_text(props.telemetry.analytics_id),
            opt_text(props.telemetry.automation_id),
        );
    }
    render_toggle_html(&descriptor)
}

/// Values an adapter reads off a checkbox descriptor; for each key the last
/// pair of the themed list wins, with a default where none is present.
#[derive(Debug, Clone)]
pub struct CheckboxDescriptorSnapshot {
    pub label: String,
    pub themed_attributes: Vec<(String, String)>,
    pub class: String,
    pub role: String,
    pub aria_checked: String,
    pub aria_disabled: Option<String>,
    pub tabindex: String,
    pub data_checked: String,
    pub data_focus_visible: String,
    pub data_indeterminate: String,
}

/// `r` is the snapshot of a descriptor with this label and themed list.
pub open spec fn checkbox_snapshot_of(
    r: CheckboxDescriptorSnapshot,
    label: Seq<char>,
    themed: Seq<(Seq<char>, Seq<char>)>,
) -> bool {
    &&& r.label@ == label
    &&& pairs_view(r.themed_attributes@) == themed
    &&& r.class@ == value_or(lookup_last(themed, "class"@), Seq::empty())
    &&& r.role@ == value_or(lookup_last(themed, "role"@), "checkbox"@)
    &&& r.aria_checked@ == value_or(lookup_last(themed, "aria-checked"@), "false"@)
    &&& opt_seq(r.aria_disabled) == lookup_last(themed, "aria-disabled"@)
    &&& r.tabindex@ == value_or(lookup_last(themed, "tabindex"@), "0"@)
    &&& r.data_checked@ == value_or(lookup_last(themed, "data-checked"@), "false"@)
    &&& r.data_focus_visible@ == value_or(lookup_last(themed, "data-focus-visible"@), "false"@)
    &&& r.data_indeterminate@ == value_or(lookup_last(themed, "data-indeterminate"@), "false"@)
}

impl CheckboxDescriptorSnapshot {
    /// Reads the snapshot off a descriptor: for each key the last pair of the
    /// themed list wins. Defaults: empty class, role `checkbox`,
    /// `aria-checked` `false`, tabindex `0`, data flags `false`.
    pub fn from_descriptor(descriptor: &ToggleControlDescriptor) -> (r: Self)
        ensures
            checkbox_snapshot_of(r, descriptor.label_view(), descriptor.themed()),
    {
        let themed = descriptor.themed_attributes();
        proof {
            reveal_strlit("");
        }
        assert(""@ =~= Seq::<char>::empty());
        let class = last_value_or(&themed, "class", "");
        let role = last_value_or(&themed, "role", "checkbox");
        let aria_checked = last_value_or(&themed, "aria-checked", "false");
        let aria_disabled = last_value(&themed, "aria-disabled");
        let tabindex = last_value_or(&themed, "tabindex", "0");
        let data_checked = last_value_or(&themed, "data-checked", "false");
        let data_focus_visible = last_value_or(&themed, "data-focus-visible", "false");
        let data_indeterminate = last_value_or(&themed, "data-indeterminate", "false");
        CheckboxDescriptorSnapshot {
            label: to_owned_string(descriptor.label()),
            themed_attributes: themed,
            class,
            role,
            aria_checked,
            aria_disabled,
            tabindex,
            data_checked,
            data_focus_visible,
            data_indeterminate,
        }
    }
}

/// Toggling never yields the indeterminate value, and toggling a determinate
/// value twice gives it back.
pub proof fn lemma_toggle_involution(value: CheckboxValue)
    ensures
        toggled(value) != CheckboxValue::Indeterminate,
        value != CheckboxValue::Indeterminate ==> toggled(toggled(value)) == value,
{
}

/// A disabled checkbox requests no change; an enabled one requests the
/// toggled value.
pub proof fn lemma_disabled_is_inert(state: CheckboxSnapshot)
    ensures
        state.disabled ==> requested(state) == state.checked,
        !state.disabled ==> requested(state) == toggled(state.checked),
{
}

/// Which callbacks an adapter was given.
#[derive(Debug, Clone, Copy)]
pub struct CheckboxCallbacks {
    pub on_change: bool,
    pub on_focus: bool,
    pub on_blur: bool,
    pub on_key: bool,
    /// Whether a telemetry delegate receives payloads.
    pub telemetry: bool,
}

/// Whether an adapter installs a click handler: only when someone listens.
pub fn installs_change_handler(c: &CheckboxCallbacks) -> (r: bool)
    ensures
        r == (c.on_change || c.telemetry),
{
    c.on_change || c.telemetry
}

/// Whether an adapter installs a focus handler.
pub fn installs_focus_handler(c: &CheckboxCallbacks) -> (r: bool)
    ensures
        r == (c.on_focus || c.telemetry),
{
    c.on_focus || c.telemetry
}

/// Whether an adapter installs a blur handler.
pub fn installs_blur_handler(c: &CheckboxCallbacks) -> (r: bool)
    ensures
        r == (c.on_blur || c.telemetry),
{
    c.on_blur || c.telemetry
}

/// Whether an adapter installs a key handler (keys may also change the
/// value, so change listeners count).
pub fn installs_key_handler(c: &CheckboxCallbacks) -> (r: bool)
    ensures
        r == (c.on_key || c.on_change || c.telemetry),
{
    c.on_key || c.on_change || c.telemetry
}

/// `e` is the change payload of a click on a checkbox in `state`.
pub open spec fn is_change_for(e: CheckboxChangeEvent, props: CheckboxProps, state: CheckboxSnapshot) -> bool {
    &&& e.previous == state.checked
    &&& e.next == requested(state)
    &&& e.disabled == state.disabled
    &&& opt_text(e.analytics_id) == opt_text(props.telemetry.analytics_id)
    &&& opt_text(e.automation_id) == opt_text(props.telemetry.automation_id)
    &&& e.label@ == props.label@
}

/// `e` is the focus payload of a focus (`focused`) or blur.
pub open spec fn is_focus_for(e: CheckboxFocusEvent, props: CheckboxProps, state: CheckboxSnapshot, focused: bool) -> bool {
    &&& e.focused == focused
    &&& e.checked == state.checked
    &&& e.disabled == state.disabled
    &&& opt_text(e.analytics_id) == opt_text(props.telemetry.analytics_id)
    &&& opt_text(e.automation_id) == opt_text(props.telemetry.automation_id)
    &&& e.label@ == props.label@
}

/// `e` is the key payload of `key` pressed on a checkbox in `state`.
pub open spec fn is_key_for(e: CheckboxKeyEvent, props: CheckboxProps, state: CheckboxSnapshot, key: ControlKey) -> bool {
    &&& e.key == key
    &&& e.previous == state.checked
    &&& e.next == requested(state)
    &&& e.disabled == state.disabled
    &&& opt_text(e.analytics_id) == opt_text(props.telemetry.analytics_id)
    &&& opt_text(e.automation_id) == opt_text(props.telemetry.automation_id)
    &&& e.label@ == props.label@
}

/// The state after a toggle request: the requested value for an
/// uncontrolled checkbox, unchanged for a controlled one (its owner decides).
pub open spec fn after_toggle(state: CheckboxSnapshot, controlled: bool) -> CheckboxSnapshot {
    if controlled {
        state
    } else {
        CheckboxSnapshot { checked: requested(state), ..state }
    }
}

/// One step of an adapter's answer to an interaction, in the order the
/// adapter performs it.
#[derive(Debug, Clone)]
pub enum CheckboxAction {
    /// Hand the payload to the telemetry delegate, when one is set.
    Telemetry(CheckboxTelemetryEvent),
    /// Call the change callback, when one is set.
    ChangeCallback(CheckboxChangeEvent),
    /// Call the focus callback, when one is set.
    FocusCallback(CheckboxFocusEvent),
    /// Call the blur callback, when one is set.
    BlurCallback(CheckboxFocusEvent),
    /// Call the key callback, when one is set.
    KeyCallback(CheckboxKeyEvent),
}

/// Dispatches a click. The actions are, in order: the `Change` payload to
/// telemetry, then the same payload to the change callback, so analytics
/// capture precedes business logic. Both payloads describe the state before
/// the click; an uncontrolled checkbox then moves to the requested value,
/// which the adapter publishes after performing the actions.
pub fn dispatch_change(props: &CheckboxProps, state: &mut CheckboxSnapshot, controlled: bool) -> (r: Vec<
    CheckboxAction,
>)
    ensures
        r@.len() == 2,
        r@[0] matches CheckboxAction::Telemetry(t) && (t matches CheckboxTelemetryEvent::Change(e) && is_change_for(
            e,
            *props,
            *old(state),
        )),
        r@[1] matches CheckboxAction::ChangeCallback(e) && is_change_for(e, *props, *old(state)),
        *final(state) == after_toggle(*old(state), controlled),
{
    let change = build_change_event(props, state);
    let callback_change = build_change_event(props, state);
    let mut actions: Vec<CheckboxAction> = Vec::new();
    actions.push(CheckboxAction::Telemetry(CheckboxTelemetryEvent::Change(change)));
    actions.push(CheckboxAction::ChangeCallback(callback_change));
    if !controlled {
        state.checked = if state.disabled {
            state.checked
        } else {
            toggled_value(state.checked)
        };
    }
    actions
}

/// Dispatches a focus (`focused`) or blur. The actions are, in order: the
/// `Focus` or `Blur` payload to telemetry, then the same payload to the focus
/// or blur callback. The focus ring then follows the focus.
pub fn dispatch_focus(props: &CheckboxProps, state: &mut CheckboxSnapshot, focused: bool) -> (r: Vec<
    CheckboxAction,
>)
    ensures
        r@.len() == 2,
        focused ==> (r@[0] matches CheckboxAction::Telemetry(t) && (t matches CheckboxTelemetryEvent::Focus(e)
            && is_focus_for(e, *props, *old(state), focused))),
        focused ==> (r@[1] matches CheckboxAction::FocusCallback(e) && is_focus_for(e, *props, *old(state), focused)),
        !focused ==> (r@[0] matches CheckboxAction::Telemetry(t) && (t matches CheckboxTelemetryEvent::Blur(e)
            && is_focus_for(e, *props, *old(state), focused))),
        !focused ==> (r@[1] matches CheckboxAction::BlurCallback(e) && is_focus_for(e, *props, *old(state), focused)),
        *final(state) == (CheckboxSnapshot { focus_visible: focused, ..*old(state) }),
{
    let focus = build_focus_event(props, state, focused);
    let callback_focus = build_focus_event(props, state, focused);
    let mut actions: Vec<CheckboxAction> = Vec::new();
    if focused {
        actions.push(CheckboxAction::Telemetry(CheckboxTelemetryEvent::Focus(focus)));
        actions.push(CheckboxAction::FocusCallback(callback_focus));
    } else {
        actions.push(CheckboxAction::Telemetry(CheckboxTelemetryEvent::Blur(focus)));
        actions.push(CheckboxAction::BlurCallback(callback_focus));
    }
    state.focus_visible = focused;
    actions
}

/// Dispatches a key press given as the browser's `key` value. Keys other
/// than Space and Enter are ignored (`None`: nothing is done, the default
/// action is kept). Otherwise the default action is prevented and the
/// actions are, in order: the `Key` and then the `Change` payloads to
/// telemetry, then the key payload to the key callback and the change
/// payload to the change callback. An uncontrolled checkbox then moves to
/// the requested value.
pub fn dispatch_key(props: &CheckboxProps, state: &mut CheckboxSnapshot, controlled: bool, key: &str) -> (r:
    Option<Vec<CheckboxAction>>)
    ensures
        control_key_of(key@) is None ==> r is None && *final(state) == *old(state),
        control_key_of(key@) is Some ==> {
            let k = control_key_of(key@)->0;
            &&& r is Some
            &&& r->0@.len() == 4
            &&& r->0@[0] matches CheckboxAction::Telemetry(t) && (t matches CheckboxTelemetryEvent::Key(e)
                && is_key_for(e, *props, *old(state), k))
            &&& r->0@[1] matches CheckboxAction::Telemetry(t) && (t matches CheckboxTelemetryEvent::Change(e)
                && is_change_for(e, *props, *old(state)))
            &&& r->0@[2] matches CheckboxAction::KeyCallback(e) && is_key_for(e, *props, *old(state), k)
            &&& r->0@[3] matches CheckboxAction::ChangeCallback(e) && is_change_for(e, *props, *old(state))
            &&& *final(state) == after_toggle(*old(state), controlled)
        },
{
    match control_key_from_str(key) {
        None => None,
        Some(k) => {
            let key_event = build_key_event(props, state, k);
            let change_event = build_change_event(props, state);
            let callback_key = build_key_event(props, state, k);
            let callback_change = build_change_event(props, state);
            let mut actions: Vec<CheckboxAction> = Vec::new();
            actions.push(CheckboxAction::Telemetry(CheckboxTelemetryEvent::Key(key_event)));
            actions.push(CheckboxAction::Telemetry(CheckboxTelemetryEvent::Change(change_event)));
            actions.push(CheckboxAction::KeyCallback(callback_key));
            actions.push(CheckboxAction::ChangeCallback(callback_change));
            if !controlled {
                state.checked = if state.disabled {
                    state.checked
                } else {
                    toggled_value(state.checked)
                };
            }
            Some(actions)
        },
    }
}

/// The merged descriptor, its snapshot and the telemetry context of one
/// render of `component`.
pub fn descriptor_with_context(
    component: &str,
    props: &CheckboxProps,
    aria: &Vec<(String, String)>,
    class: &str,
) -> (r: (TelemetryContext, ToggleControlDescriptor, CheckboxDescriptorSnapshot))
    ensures
        r.1.label_view() == props.label@,
        r.1.class_view() == class@,
        r.1.pairs() == telemetry_appended(
            pairs_view(aria@),
            opt_text(props.telemetry.analytics_id),
            opt_text(props.telemetry.automation_id),
        ),
        checkbox_snapshot_of(r.2, r.1.label_view(), r.1.themed()),
        r.0.component@ == component@,
        opt_text(r.0.analytics_id) == opt_text(props.telemetry.analytics_id),
        opt_text(r.0.automation_id) == opt_text(props.telemetry.automation_id),
        opt_text(r.0.descriptor_label) == Some(props.label@),
        pairs_view(r.0.descriptor_attributes@) == r.1.themed(),
{
    let descriptor = merge_descriptor_telemetry(build_descriptor(props, aria, class), &props.telemetry);
    proof {
        lemma_merge_after_build(
            pairs_view(aria@),
            opt_text(props.telemetry.analytics_id),
            opt_text(props.telemetry.automation_id),
        );
    }
    let snapshot = CheckboxDescriptorSnapshot::from_descriptor(&descriptor);
    let context = TelemetryContext::new(component).with_analytics(clone_opt(&props.telemetry.analytics_id)).with_automation(
        clone_opt(&props.telemetry.automation_id),
    ).with_descriptor_metadata(snapshot.label.clone(), clone_attrs(&snapshot.themed_attributes));
    (context, descriptor, snapshot)
}

/// The checkbox value a token names.
pub open spec fn checkbox_value_named(token: Seq<char>) -> Option<CheckboxValue> {
    if token == "off"@ {
        Some(CheckboxValue::Off)
    } else if token == "on"@ {
        Some(CheckboxValue::On)
    } else if token == "indeterminate"@ {
        Some(CheckboxValue::Indeterminate)
    } else {
        None
    }
}

/// A checkbox value's token reads back as that checkbox value: `off` names Off, `on` names On, `indeterminate` names Indeterminate.
pub proof fn law_checkbox_value_round_trip(value: CheckboxValue)
    ensures
        checkbox_value_named(checkbox_value_text(value)) == Some(value),
{
    let t0 = "off"@;
    let t1 = "on"@;
    let t2 = "indeterminate"@;
    reveal_strlit("off");
    reveal_strlit("on");
    reveal_strlit("indeterminate");
    assert(t0.len() != t1.len() || t0[0] != t1[0]);
    assert(t0.len() != t2.len() || t0[0] != t2[0]);
    assert(t1.len() != t2.len() || t1[0] != t2[0]);
}

/// Distinct checkbox values have distinct tokens.
pub proof fn law_checkbox_values_distinct(a: CheckboxValue, b: CheckboxValue)
    requires
        a != b,
    ensures
        checkbox_value_text(a) != checkbox_value_text(b),
{
    law_checkbox_value_round_trip(a);
    law_checkbox_value_round_trip(b);
}

} // verus!
