//! Material switch: event payloads, dispatch decisions, the toggle descriptor
//! and its markup.
//!
//! The on, disabled and focus-visible flags and the ARIA pairs come from the
//! headless switch state machine. Dispatching an interaction decides which
//! telemetry payloads are emitted, in which order, and which state the switch
//! moves to; adapters deliver the payloads to their callbacks.

use vstd::prelude::*;

use crate::attr_map::{clone_attrs, last_value, last_value_or, lookup_last, opt_seq, pairs_view, value_or};

use crate::descriptor::{apply_option_telemetry, render_toggle_html, telemetry_merged, toggle_html, ToggleControlDescriptor};
use crate::interaction::{control_key_text, control_key_to_str, ControlKey};
use crate::payload::{identity_fields, payload_view, push_flag, push_identity, push_text, PayloadField, PayloadValue};
use crate::telemetry::{clone_opt, opt_text, TelemetryContext, TelemetryHooks};
use crate::text::to_owned_string;

verus! {

/// Props shared across all framework adapters.
#[derive(Debug, Clone)]
pub struct SwitchProps {
    /// Label rendered next to the switch track.
    pub label: String,
    /// Analytics and automation identifiers.
    pub telemetry: TelemetryHooks,
}

impl SwitchProps {
    /// Props with the given label and no telemetry identifiers.
    pub fn new(label: &str) -> (r: Self)
        ensures
            r.label@ == label@,
            r.telemetry.analytics_id is None,
            r.telemetry.automation_id is None,
    {
        SwitchProps { label: to_owned_string(label), telemetry: TelemetryHooks::none() }
    }
}

/// What the renderer reads from the headless switch state.
#[derive(Debug, Clone, Copy, PartialEq, Eq, Structural)]
pub struct SwitchSnapshot {
    /// Whether the switch is on.
    pub on: bool,
    /// Whether interaction is disabled.
    pub disabled: bool,
    /// Whether the focus ring is shown.
    pub focus_visible: bool,
}

/// The on state a change request resolves to: flipped unless disabled.
pub open spec fn requested_on(state: SwitchSnapshot) -> bool {
    if state.disabled {
        state.on
    } else {
        !state.on
    }
}

/// Payload emitted when the switch state changes.
#[derive(Debug, Clone)]
pub struct SwitchChangeEvent {
    pub previous: bool,
    pub next: bool,
    pub disabled: bool,
    pub analytics_id: Option<String>,
    pub automation_id: Option<String>,
    pub label: String,
}

/// Payload emitted when focus is gained or lost.
#[derive(Debug, Clone)]
pub struct SwitchFocusEvent {
    pub focused: bool,
    pub on: bool,
    pub disabled: bool,
    pub analytics_id: Option<String>,
    pub automation_id: Option<String>,
    pub label: String,
}

/// Payload emitted for keyboard interactions.
#[derive(Debug, Clone)]
pub struct SwitchKeyEvent {
    pub key: ControlKey,
    pub previous: bool,
    pub next: bool,
    pub disabled: bool,
    pub analytics_id: Option<String>,
    pub automation_id: Option<String>,
    pub label: String,
}

/// Telemetry payloads surfaced across adapters.
#[derive(Debug, Clone)]
pub enum SwitchTelemetryEvent {
    Change(SwitchChangeEvent),
    Focus(SwitchFocusEvent),
    Blur(SwitchFocusEvent),
    Key(SwitchKeyEvent),
}

/// The flat payload of a telemetry event, key by key, as handed to a host
/// sink: the event kind, its state fields, then the identifiers that are
/// present and the label.
pub open spec fn switch_payload(event: SwitchTelemetryEvent) -> Seq<(Seq<char>, PayloadField)> {
    match event {
        SwitchTelemetryEvent::Change(e) => seq![
            ("kind"@, PayloadField::Text("change"@)),
            ("previous"@, PayloadField::Flag(e.previous)),
            ("next"@, PayloadField::Flag(e.next)),
            ("disabled"@, PayloadField::Flag(e.disabled)),
        ] + identity_fields(opt_text(e.analytics_id), opt_text(e.automation_id), e.label@),
        SwitchTelemetryEvent::Focus(e) => seq![
            ("kind"@, PayloadField::Text("focus"@)),
            ("focused"@, PayloadField::Flag(e.focused)),
            ("on"@, PayloadField::Flag(e.on)),
            ("disabled"@, PayloadField::Flag(e.disabled)),
        ] + identity_fields(opt_text(e.analytics_id), opt_text(e.automation_id), e.label@),
        SwitchTelemetryEvent::Blur(e) => seq![
            ("kind"@, PayloadField::Text("blur"@)),
            ("focused"@, PayloadField::Flag(e.focused)),
            ("on"@, PayloadField::Flag(e.on)),
            ("disabled"@, PayloadField::Flag(e.disabled)),
        ] + identity_fields(opt_text(e.analytics_id), opt_text(e.automation_id), e.label@),
        SwitchTelemetryEvent::Key(e) => seq![
            ("kind"@, PayloadField::Text("key"@)),
            ("key"@, PayloadField::Text(control_key_text(e.key))),
            ("previous"@, PayloadField::Flag(e.previous)),
            ("next"@, PayloadField::Flag(e.next)),
            ("disabled"@, PayloadField::Flag(e.disabled)),
        ] + identity_fields(opt_text(e.analytics_id), opt_text(e.automation_id), e.label@),
    }
}

/// Flattens a telemetry event into the keyed payload a host sink receives;
/// absent identifiers are left out.
pub fn telemetry_payload(event: &SwitchTelemetryEvent) -> (r: Vec<(String, PayloadValue)>)
    ensures
        payload_view(r@) == switch_payload(*event),
{
    let mut p: Vec<(String, PayloadValue)> = Vec::new();
    match event {
        SwitchTelemetryEvent::Change(e) => {
            push_text(&mut p, "kind", to_owned_string("change"));
            push_flag(&mut p, "previous", e.previous);
            push_flag(&mut p, "next", e.next);
            push_flag(&mut p, "disabled", e.disabled);
            push_identity(&mut p, &e.analytics_id, &e.automation_id, &e.label);
        },
        SwitchTelemetryEvent::Focus(e) => {
            push_text(&mut p, "kind", to_owned_string("focus"));
            push_flag(&mut p, "focused", e.focused);
            push_flag(&mut p, "on", e.on);
            push_flag(&mut p, "disabled", e.disabled);
            push_identity(&mut p, &e.analytics_id, &e.automation_id, &e.label);
        },
        SwitchTelemetryEvent::Blur(e) => {
            push_text(&mut p, "kind", to_owned_string("blur"));
            push_flag(&mut p, "focused", e.focused);
            push_flag(&mut p, "on", e.on);
            push_flag(&mut p, "disabled", e.disabled);
            push_identity(&mut p, &e.analytics_id, &e.automation_id, &e.label);
        },
        SwitchTelemetryEvent::Key(e) => {
            push_text(&mut p, "kind", to_owned_string("key"));
            push_text(&mut p, "key", control_key_to_str(e.key));
            push_flag(&mut p, "previous", e.previous);
            push_flag(&mut p, "next", e.next);
            push_flag(&mut p, "disabled", e.disabled);
            push_identity(&mut p, &e.analytics_id, &e.automation_id, &e.label);
        },
    }
    assert(payload_view(p@) =~= switch_payload(*event));
    p
}

/// `e` is the change payload of a click on a switch in `state`.
pub open spec fn is_change_for(e: SwitchChangeEvent, props: SwitchProps, state: SwitchSnapshot) -> bool {
    &&& e.previous == state.on
    &&& e.next == requested_on(state)
    &&& e.disabled == state.disabled
    &&& opt_text(e.analytics_id) == opt_text(props.telemetry.analytics_id)
    &&& opt_text(e.automation_id) == opt_text(props.telemetry.automation_id)
    &&& e.label@ == props.label@
}

/// `e` is the focus payload of a focus (`focused`) or blur on a switch in
/// `state`.
pub open spec fn is_focus_for(
    e: SwitchFocusEvent,
    props: SwitchProps,
    state: SwitchSnapshot,
    focused: bool,
) -> bool {
    &&& e.focused == focused
    &&& e.on == state.on
    &&& e.disabled == state.disabled
    &&& opt_text(e.analytics_id) == opt_text(props.telemetry.analytics_id)
    &&& opt_text(e.automation_id) == opt_text(props.telemetry.automation_id)
    &&& e.label@ == props.label@
}

/// `e` is the key payload of `key` pressed on a switch in `state`.
pub open spec fn is_key_for(e: SwitchKeyEvent, props: SwitchProps, state: SwitchSnapshot, key: ControlKey) -> bool {
    &&& e.key == key
    &&& e.previous == state.on
    &&& e.next == requested_on(state)
    &&& e.disabled == state.disabled
    &&& opt_text(e.analytics_id) == opt_text(props.telemetry.analytics_id)
    &&& opt_text(e.automation_id) == opt_text(props.telemetry.automation_id)
    &&& e.label@ == props.label@
}

/// The analytics identifier of the props.
pub fn analytics_id(props: &SwitchProps) -> (r: Option<String>)
    ensures
        opt_text(r) == opt_text(props.telemetry.analytics_id),
{
    clone_opt(&props.telemetry.analytics_id)
}

/// The automation identifier of the props.
pub fn automation_id(props: &SwitchProps) -> (r: Option<String>)
    ensures
        opt_text(r) == opt_text(props.telemetry.automation_id),
{
    clone_opt(&props.telemetry.automation_id)
}

/// The change payload for a click on a switch in `state`.
pub fn build_change_event(props: &SwitchProps, state: &SwitchSnapshot) -> (r: SwitchChangeEvent)
    ensures
        is_change_for(r, *props, *state),
{
    let previous = state.on;
    let next = if state.disabled {
        previous
    } else {
        !previous
    };
    SwitchChangeEvent {
        previous,
        next,
        disabled: state.disabled,
        analytics_id: analytics_id(props),
        automation_id: automation_id(props),
        label: props.label.clone(),
    }
}

/// The focus payload for a focus (`focused`) or blur.
pub fn build_focus_event(props: &SwitchProps, state: &SwitchSnapshot, focused: bool) -> (r: SwitchFocusEvent)
    ensures
        is_focus_for(r, *props, *state, focused),
{
    SwitchFocusEvent {
        focused,
        on: state.on,
        disabled: state.disabled,
        analytics_id: analytics_id(props),
        automation_id: automation_id(props),
        label: props.label.clone(),
    }
}

/// The key payload for `key` pressed on a switch in `state`.
pub fn build_key_event(props: &SwitchProps, state: &SwitchSnapshot, key: ControlKey) -> (r: SwitchKeyEvent)
    ensures
        is_key_for(r, *props, *state, key),
{
    let previous = state.on;
    let next = if state.disabled {
        previous
    } else {
        !previous
    };
    SwitchKeyEvent {
        key,
        previous,
        next,
        disabled: state.disabled,
        analytics_id: analytics_id(props),
        automation_id: automation_id(props),
        label: props.label.clone(),
    }
}

/// One step of an adapter's answer to an interaction, in the order the
/// adapter performs it.
#[derive(Debug, Clone)]
pub enum SwitchAction {
    /// Hand the payload to the telemetry delegate, when one is set.
    Telemetry(SwitchTelemetryEvent),
    /// Call the change callback, when one is set.
    ChangeCallback(SwitchChangeEvent),
    /// Call the focus (or, for a blur, the blur) callback, when one is set.
    FocusCallback(SwitchFocusEvent),
    /// Call the key callback, when one is set.
    KeyCallback(SwitchKeyEvent),
}

/// What a dispatched change does: the ordered actions, and the change
/// payload the dispatch returns to its caller.
#[derive(Debug)]
pub struct SwitchChangeDispatch {
    pub actions: Vec<SwitchAction>,
    pub change: SwitchChangeEvent,
}

/// Dispatches a click. The actions are, in order: one `Change` payload to
/// telemetry, then the same payload to the change callback, so analytics
/// capture precedes business logic. The payloads describe the state before
/// the click; the switch then moves to the requested state.
pub fn dispatch_change_event(props: &SwitchProps, state: &mut SwitchSnapshot) -> (r: SwitchChangeDispatch)
    ensures
        is_change_for(r.change, *props, *old(state)),
        r.actions@.len() == 2,
        r.actions@[0] matches SwitchAction::Telemetry(t) && (t matches SwitchTelemetryEvent::Change(e)
            && is_change_for(e, *props, *old(state))),
        r.actions@[1] matches SwitchAction::ChangeCallback(e) && is_change_for(e, *props, *old(state)),
        *final(state) == (SwitchSnapshot { on: requested_on(*old(state)), ..*old(state) }),
{
    let telemetry_change = build_change_event(props, state);
    let callback_change = build_change_event(props, state);
    let change = build_change_event(props, state);
    let mut actions: Vec<SwitchAction> = Vec::new();
    actions.push(SwitchAction::Telemetry(SwitchTelemetryEvent::Change(telemetry_change)));
    actions.push(SwitchAction::ChangeCallback(callback_change));
    state.on = change.next;
    SwitchChangeDispatch { actions, change }
}

/// What a dispatched focus transition does.
#[derive(Debug)]
pub struct SwitchFocusDispatch {
    pub actions: Vec<SwitchAction>,
    pub focus: SwitchFocusEvent,
}

/// Dispatches a focus (`focused`) or blur. The actions are, in order: one
/// `Focus` or `Blur` payload to telemetry, then the same payload to the focus
/// (or blur) callback. The focus ring then shows exactly when focused.
pub fn dispatch_focus_event(props: &SwitchProps, state: &mut SwitchSnapshot, focused: bool) -> (r:
    SwitchFocusDispatch)
    ensures
        is_focus_for(r.focus, *props, *old(state), focused),
        r.actions@.len() == 2,
        focused ==> (r.actions@[0] matches SwitchAction::Telemetry(t) && (t matches SwitchTelemetryEvent::Focus(e)
            && is_focus_for(e, *props, *old(state), focused))),
        !focused ==> (r.actions@[0] matches SwitchAction::Telemetry(t) && (t matches SwitchTelemetryEvent::Blur(e)
            && is_focus_for(e, *props, *old(state), focused))),
        r.actions@[1] matches SwitchAction::FocusCallback(e) && is_focus_for(e, *props, *old(state), focused),
        *final(state) == (SwitchSnapshot { focus_visible: focused, ..*old(state) }),
{
    let telemetry_focus = build_focus_event(props, state, focused);
    let callback_focus = build_focus_event(props, state, focused);
    let focus = build_focus_event(props, state, focused);
    let mut actions: Vec<SwitchAction> = Vec::new();
    if focused {
        actions.push(SwitchAction::Telemetry(SwitchTelemetryEvent::Focus(telemetry_focus)));
    } else {
        actions.push(SwitchAction::Telemetry(SwitchTelemetryEvent::Blur(telemetry_focus)));
    }
    actions.push(SwitchAction::FocusCallback(callback_focus));
    state.focus_visible = focused;
    SwitchFocusDispatch { actions, focus }
}

/// What a dispatched key press does.
#[derive(Debug)]
pub struct SwitchKeyDispatch {
    pub actions: Vec<SwitchAction>,
    pub key: SwitchKeyEvent,
    pub change: SwitchChangeEvent,
}

/// Whether a key toggles the switch.
pub open spec fn toggles(key: ControlKey) -> bool {
    key == ControlKey::Space || key == ControlKey::Enter
}

/// Dispatches a key press. The actions are, in order: a `Key` then a
/// `Change` payload to telemetry, then the key payload to the key callback
/// and the change payload to the change callback. The switch then moves to
/// the requested state when the key is Space or Enter.
pub fn dispatch_key_event(props: &SwitchProps, state: &mut SwitchSnapshot, key: ControlKey) -> (r:
    SwitchKeyDispatch)
    ensures
        is_key_for(r.key, *props, *old(state), key),
        is_change_for(r.change, *props, *old(state)),
        r.actions@.len() == 4,
        r.actions@[0] matches SwitchAction::Telemetry(t) && (t matches SwitchTelemetryEvent::Key(e) && is_key_for(
            e,
            *props,
            *old(state),
            key,
        )),
        r.actions@[1] matches SwitchAction::Telemetry(t) && (t matches SwitchTelemetryEvent::Change(e)
            && is_change_for(e, *props, *old(state))),
        r.actions@[2] matches SwitchAction::KeyCallback(e) && is_key_for(e, *props, *old(state), key),
        r.actions@[3] matches SwitchAction::ChangeCallback(e) && is_change_for(e, *props, *old(state)),
        *final(state) == (if toggles(key) {
            SwitchSnapshot { on: requested_on(*old(state)), ..*old(state) }
        } else {
            *old(state)
        }),
{
    let key_event = build_key_event(props, state, key);
    let change_event = build_change_event(props, state);
    let mut actions: Vec<SwitchAction> = Vec::new();
    actions.push(SwitchAction::Telemetry(SwitchTelemetryEvent::Key(build_key_event(props, state, key))));
    actions.push(SwitchAction::Telemetry(SwitchTelemetryEvent::Change(build_change_event(props, state))));
    actions.push(SwitchAction::KeyCallback(build_key_event(props, state, key)));
    actions.push(SwitchAction::ChangeCallback(build_change_event(props, state)));
    match key {
        ControlKey::Space | ControlKey::Enter => {
            state.on = change_event.next;
        },
        _ => {},
    }
    SwitchKeyDispatch { actions, key: key_event, change: change_event }
}

/// The descriptor of a switch: the label, the style's class, the state's ARIA
/// pairs, then the telemetry identifiers not already present.
pub fn build_descriptor(props: &SwitchProps, aria: &Vec<(String, String)>, class: &str) -> (r:
    ToggleControlDescriptor)
    ensures
        r.label_view() == props.label@,
        r.class_view() == class@,
        r.pairs() == telemetry_merged(
            pairs_view(aria@),
            opt_text(props.telemetry.analytics_id),
            opt_text(props.telemetry.automation_id),
        ),
{
    let descriptor = ToggleControlDescriptor::new(props.label.as_str(), class).with_attributes(aria);
    merge_descriptor_telemetry(descriptor, &props.telemetry)
}

/// Adds the telemetry identifiers the descriptor does not carry yet.
pub fn merge_descriptor_telemetry(descriptor: ToggleControlDescriptor, telemetry: &TelemetryHooks) -> (r:
    ToggleControlDescriptor)
    ensures
        r.label_view() == descriptor.label_view(),
        r.class_view() == descriptor.class_view(),
        r.pairs() == telemetry_merged(
            descriptor.pairs(),
            opt_text(telemetry.analytics_id),
            opt_text(telemetry.automation_id),
        ),
{
    apply_option_telemetry(descriptor, telemetry)
}

/// Serialises the switch as `<span attrs>label</span>`.
pub fn render_html(props: &SwitchProps, aria: &Vec<(String, String)>, class: &str) -> (r: String)
    ensures
        r@ == toggle_html(
            class@,
            telemetry_merged(
                pairs_view(aria@),
                opt_text(props.telemetry.analytics_id),
                opt_text(props.telemetry.automation_id),
            ),
            props.label@,
        ),
{
    let built = build_descriptor(props, aria, class);
    let descriptor = merge_descriptor_telemetry(built, &props.telemetry);
    proof {
        crate::descriptor::lemma_merge_idempotent(
            pairs_view(aria@),
            opt_text(props.telemetry.analytics_id),
            opt_text(props.telemetry.automation_id),
        );
    }
    render_toggle_html(&descriptor)
}

/// Values an adapter reads off a switch descriptor; for each key the last pair
/// of the themed list wins, with a default where none is present.
#[derive(Debug, Clone)]
pub struct SwitchDescriptorSnapshot {
    pub label: String,
    pub themed_attributes: Vec<(String, String)>,
    pub class: String,
    pub role: String,
    pub aria_checked: String,
    pub aria_disabled: Option<String>,
    pub tabindex: String,
    pub data_on: String,
    pub data_focus_visible: String,
}

/// `r` is the snapshot of a descriptor with this label and themed list.
pub open spec fn switch_snapshot_of(
    r: SwitchDescriptorSnapshot,
    label: Seq<char>,
    themed: Seq<(Seq<char>, Seq<char>)>,
) -> bool {
    &&& r.label@ == label
    &&& pairs_view(r.themed_attributes@) == themed
    &&& r.class@ == value_or(lookup_last(themed, "class"@), Seq::empty())
    &&& r.role@ == value_or(lookup_last(themed, "role"@), "switch"@)
    &&& r.aria_checked@ == value_or(lookup_last(themed, "aria-checked"@), "false"@)
    &&& opt_seq(r.aria_disabled) == lookup_last(themed, "aria-disabled"@)
    &&& r.tabindex@ == value_or(lookup_last(themed, "tabindex"@), "0"@)
    &&& r.data_on@ == value_or(lookup_last(themed, "data-on"@), "false"@)
    &&& r.data_focus_visible@ == value_or(lookup_last(themed, "data-focus-visible"@), "false"@)
}

impl SwitchDescriptorSnapshot {
    /// Reads the snapshot off a descriptor: for each key the last pair of the
    /// themed list wins. Defaults: empty class, role `switch`,
    /// `aria-checked` `false`, tabindex `0`, data flags `false`.
    pub fn from_descriptor(descriptor: &ToggleControlDescriptor) -> (r: Self)
        ensures
            switch_snapshot_of(r, descriptor.label_view(), descriptor.themed()),
    {
        let themed = descriptor.themed_attributes();
        proof {
            reveal_strlit("");
        }
        assert(""@ =~= Seq::<char>::empty());
        SwitchDescriptorSnapshot {
            label: to_owned_string(descriptor.label()),
            class: last_value_or(&themed, "class", ""),
            role: last_value_or(&themed, "role", "switch"),
            aria_checked: last_value_or(&themed, "aria-checked", "false"),
            aria_disabled: last_value(&themed, "aria-disabled"),
            tabindex: last_value_or(&themed, "tabindex", "0"),
            data_on: last_value_or(&themed, "data-on", "false"),
            data_focus_visible: last_value_or(&themed, "data-focus-visible", "false"),
            themed_attributes: themed,
        }
    }
}

/// Two clicks on an enabled switch return it to its starting state; a
/// disabled switch never moves.
pub proof fn lemma_double_click_restores(state: SwitchSnapshot)
    ensures
        ({
            let once = SwitchSnapshot { on: requested_on(state), ..state };
            SwitchSnapshot { on: requested_on(once), ..once }
        }) == state,
        state.disabled ==> requested_on(state) == state.on,
{
}

/// The merged descriptor, its snapshot and the telemetry context of one
/// render of `component`.
pub fn descriptor_with_context(
    component: &str,
    props: &SwitchProps,
    aria: &Vec<(String, String)>,
    class: &str,
) -> (r: (TelemetryContext, ToggleControlDescriptor, SwitchDescriptorSnapshot))
    ensures
        r.1.label_view() == props.label@,
        r.1.class_view() == class@,
        r.1.pairs() == telemetry_merged(
            pairs_view(aria@),
            opt_text(props.telemetry.analytics_id),
            opt_text(props.telemetry.automation_id),
        ),
        switch_snapshot_of(r.2, r.1.label_view(), r.1.themed()),
        r.0.component@ == component@,
        opt_text(r.0.analytics_id) == opt_text(props.telemetry.analytics_id),
        opt_text(r.0.automation_id) == opt_text(props.telemetry.automation_id),
        opt_text(r.0.descriptor_label) == Some(props.label@),
        pairs_view(r.0.descriptor_attributes@) == r.1.themed(),
{
    let descriptor = merge_descriptor_telemetry(build_descriptor(props, aria, class), &props.telemetry);
    proof {
        crate::descriptor::lemma_merge_idempotent(
            pairs_view(aria@),
            opt_text(props.telemetry.analytics_id),
            opt_text(props.telemetry.automation_id),
        );
    }
    let snapshot = SwitchDescriptorSnapshot::from_descriptor(&descriptor);
    let context = TelemetryContext::new(component).with_analytics(clone_opt(&props.telemetry.analytics_id)).with_automation(
        clone_opt(&props.telemetry.automation_id),
    ).with_descriptor_metadata(snapshot.label.clone(), clone_attrs(&snapshot.themed_attributes));
    (context, descriptor, snapshot)
}

} // verus!
