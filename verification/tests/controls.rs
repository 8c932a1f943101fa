use rustic_ui_material::checkbox::{
    analytics_id as checkbox_analytics_id, build_change_event, build_descriptor as build_checkbox_descriptor,
    build_focus_event, build_key_event, checkbox_value_to_str, dispatch_change, dispatch_focus, dispatch_key,
    installs_change_handler, installs_key_handler, merge_descriptor_telemetry, CheckboxAction, CheckboxCallbacks,
    CheckboxTelemetryEvent,
    render_html as render_checkbox_html, toggled_value, CheckboxDescriptorSnapshot, CheckboxProps, CheckboxSnapshot,
    CheckboxValue,
};
use rustic_ui_material::descriptor::{render_toggle_html, ToggleControlDescriptor};
use rustic_ui_material::interaction::{control_key_from_str, control_key_to_str, ControlKey};
use rustic_ui_material::radio::{
    build_descriptor as build_radio_descriptor, render_html as render_radio_html, RadioGroupDescriptorSnapshot,
    RadioGroupProps, RadioGroupSnapshot, RadioOptionSnapshot, RadioOptionState, RadioOrientation,
};
use rustic_ui_material::switch::{
    build_descriptor as build_switch_descriptor, dispatch_change_event, dispatch_focus_event, dispatch_key_event,
    render_html as render_switch_html, SwitchAction, SwitchDescriptorSnapshot, SwitchProps, SwitchSnapshot,
    SwitchTelemetryEvent,
};
use rustic_ui_material::telemetry::{merged_telemetry, TelemetryHooks};

fn pairs(items: &[(&str, &str)]) -> Vec<(String, String)> {
    items.iter().map(|(k, v)| (k.to_string(), v.to_string())).collect()
}

fn checkbox_aria(checked: &str, disabled: bool) -> Vec<(String, String)> {
    let mut v = pairs(&[
        ("role", "checkbox"),
        ("aria-checked", checked),
        ("tabindex", "0"),
        ("data-checked", checked),
        ("data-focus-visible", "false"),
    ]);
    if disabled {
        v.push(("aria-disabled".into(), "true".into()));
    }
    v
}

#[test]
fn themed_attributes_include_role() {
    let attrs = build_checkbox_descriptor(&CheckboxProps::new("Accept"), &checkbox_aria("false", true), "cb");
    assert!(attrs.aria_attributes().iter().any(|(k, v)| k == "role" && v == "checkbox"));
    assert_eq!(attrs.themed_attributes()[0], ("class".to_string(), "cb".to_string()));
}

#[test]
fn render_html_includes_label() {
    let props = CheckboxProps::new("Accept");
    let html = render_checkbox_html(&props, &checkbox_aria("false", false), "cb");
    assert!(html.contains(">Accept<"));
    assert!(html.contains("aria-checked"));
    assert!(html.starts_with("<span class=\"cb\""));
    assert!(html.ends_with("</span>"));
}

#[test]
fn telemetry_attributes_are_applied_when_provided() {
    let mut props = CheckboxProps::new("Instrumented");
    props.telemetry.analytics_id = Some("analytics-42".into());
    props.telemetry.automation_id = Some("automation-42".into());
    let descriptor = build_checkbox_descriptor(&props, &checkbox_aria("false", false), "cb");
    let data_attrs = descriptor.data_state_attributes();
    assert!(data_attrs.iter().any(|(key, value)| key == "data-rustic-analytics-id" && value == "analytics-42"));
    assert!(data_attrs.iter().any(|(key, value)| key == "data-automation-id" && value == "automation-42"));
    assert!(!descriptor.aria_attributes().iter().any(|(k, _)| k.starts_with("data-")));
}

#[test]
fn merge_never_duplicates_identifiers() {
    let mut props = CheckboxProps::new("Once");
    props.telemetry.analytics_id = Some("a".into());
    props.telemetry.automation_id = Some("b".into());
    let built = build_checkbox_descriptor(&props, &checkbox_aria("true", false), "cb");
    let before = built.attributes().len();
    let merged = merge_descriptor_telemetry(built, &props.telemetry);
    assert_eq!(merged.attributes().len(), before);
    let html = render_checkbox_html(&props, &checkbox_aria("true", false), "cb");
    assert_eq!(html.matches("data-rustic-analytics-id").count(), 1);
    assert_eq!(html.matches("data-automation-id").count(), 1);
}

#[test]
fn merge_keeps_existing_identifiers() {
    let descriptor = ToggleControlDescriptor::new("Kept", "cb").attribute("data-automation-id", "preset");
    let telemetry = TelemetryHooks { analytics_id: Some("new-a".into()), automation_id: Some("new-b".into()) };
    let merged = merge_descriptor_telemetry(descriptor, &telemetry);
    assert_eq!(
        merged.attributes().clone(),
        pairs(&[("data-automation-id", "preset"), ("data-rustic-analytics-id", "new-a")])
    );
}

#[test]
fn checkbox_toggle_cycle_and_events() {
    assert_eq!(toggled_value(CheckboxValue::Off), CheckboxValue::On);
    assert_eq!(toggled_value(CheckboxValue::On), CheckboxValue::Off);
    assert_eq!(toggled_value(CheckboxValue::Indeterminate), CheckboxValue::On);
    assert_eq!(checkbox_value_to_str(CheckboxValue::Indeterminate), "indeterminate");
    let mut props = CheckboxProps::new("Terms");
    props.telemetry.analytics_id = Some("terms".into());
    let enabled = CheckboxSnapshot { checked: CheckboxValue::Indeterminate, disabled: false, focus_visible: false };
    let change = build_change_event(&props, &enabled);
    assert_eq!(change.previous, CheckboxValue::Indeterminate);
    assert_eq!(change.next, CheckboxValue::On);
    assert_eq!(change.analytics_id.as_deref(), Some("terms"));
    assert_eq!(change.label, "Terms");
    let disabled = CheckboxSnapshot { checked: CheckboxValue::Off, disabled: true, focus_visible: false };
    let key = build_key_event(&props, &disabled, ControlKey::Space);
    assert_eq!(key.next, CheckboxValue::Off);
    assert!(key.disabled);
    let focus = build_focus_event(&props, &disabled, true);
    assert!(focus.focused);
    assert_eq!(checkbox_analytics_id(&props).as_deref(), Some("terms"));
}

#[test]
fn checkbox_snapshot_reads_last_values_with_defaults() {
    let descriptor = ToggleControlDescriptor::new("Accept", "cb")
        .attribute("aria-checked", "false")
        .attribute("aria-checked", "mixed")
        .attribute("data-indeterminate", "true");
    let snapshot = CheckboxDescriptorSnapshot::from_descriptor(&descriptor);
    assert_eq!(snapshot.label, "Accept");
    assert_eq!(snapshot.class, "cb");
    assert_eq!(snapshot.role, "checkbox");
    assert_eq!(snapshot.aria_checked, "mixed");
    assert_eq!(snapshot.aria_disabled, None);
    assert_eq!(snapshot.tabindex, "0");
    assert_eq!(snapshot.data_indeterminate, "true");
    assert_eq!(snapshot.themed_attributes.len(), 4);
}

#[test]
fn control_keys_map_from_browser_names() {
    assert_eq!(control_key_from_str(" "), Some(ControlKey::Space));
    assert_eq!(control_key_from_str("Spacebar"), Some(ControlKey::Space));
    assert_eq!(control_key_from_str("Enter"), Some(ControlKey::Enter));
    assert_eq!(control_key_from_str("Escape"), None);
    assert_eq!(control_key_to_str(ControlKey::ArrowLeft), "arrow-left");
}

fn switch_aria(on: bool) -> Vec<(String, String)> {
    let flag = if on { "true" } else { "false" };
    pairs(&[("role", "switch"), ("aria-checked", flag), ("data-on", flag)])
}

#[test]
fn dispatch_change_updates_state_and_telemetry() {
    let mut props = SwitchProps::new("Notifications");
    props.telemetry.analytics_id = Some("switch.analytics".into());
    let mut state = SwitchSnapshot { on: false, disabled: false, focus_visible: false };
    let dispatched = dispatch_change_event(&props, &mut state);
    assert!(state.on);
    assert_eq!(dispatched.actions.len(), 2);
    assert!(matches!(&dispatched.actions[1], SwitchAction::ChangeCallback(c) if c.next && !c.previous));
    match &dispatched.actions[0] {
        SwitchAction::Telemetry(SwitchTelemetryEvent::Change(change)) => {
            assert!(!change.previous);
            assert!(change.next);
            assert_eq!(change.analytics_id.as_deref(), Some("switch.analytics"));
        },
        other => panic!("unexpected telemetry event: {other:?}"),
    }
    assert!(dispatched.change.next);
}

#[test]
fn dispatch_focus_tracks_focus_visibility_and_telemetry() {
    let props = SwitchProps::new("Notifications");
    let mut state = SwitchSnapshot { on: false, disabled: false, focus_visible: false };
    let dispatched = dispatch_focus_event(&props, &mut state, true);
    assert!(state.focus_visible);
    assert_eq!(dispatched.actions.len(), 2);
    assert!(matches!(dispatched.actions[0], SwitchAction::Telemetry(SwitchTelemetryEvent::Focus(_))));
    assert!(matches!(&dispatched.actions[1], SwitchAction::FocusCallback(f) if f.focused));
    assert!(dispatched.focus.focused);
    let blurred = dispatch_focus_event(&props, &mut state, false);
    assert!(!state.focus_visible);
    assert!(matches!(blurred.actions[0], SwitchAction::Telemetry(SwitchTelemetryEvent::Blur(_))));
    assert!(matches!(&blurred.actions[1], SwitchAction::FocusCallback(f) if !f.focused));
}

#[test]
fn dispatch_key_emits_key_and_change_telemetry() {
    let props = SwitchProps::new("Notifications");
    let mut state = SwitchSnapshot { on: false, disabled: false, focus_visible: false };
    let dispatched = dispatch_key_event(&props, &mut state, ControlKey::Space);
    assert!(state.on);
    assert_eq!(dispatched.actions.len(), 4);
    assert!(matches!(dispatched.actions[0], SwitchAction::Telemetry(SwitchTelemetryEvent::Key(_))));
    assert!(matches!(dispatched.actions[1], SwitchAction::Telemetry(SwitchTelemetryEvent::Change(_))));
    assert!(matches!(&dispatched.actions[2], SwitchAction::KeyCallback(k) if k.key == ControlKey::Space));
    assert!(matches!(&dispatched.actions[3], SwitchAction::ChangeCallback(c) if c.next));
    assert_eq!(dispatched.key.key, ControlKey::Space);
    assert!(dispatched.change.next);
}

#[test]
fn disabled_switch_and_other_keys_do_not_toggle() {
    let props = SwitchProps::new("Locked");
    let mut locked = SwitchSnapshot { on: true, disabled: true, focus_visible: false };
    let dispatched = dispatch_change_event(&props, &mut locked);
    assert!(locked.on);
    assert!(dispatched.change.next);
    let mut state = SwitchSnapshot { on: false, disabled: false, focus_visible: false };
    dispatch_key_event(&props, &mut state, ControlKey::Home);
    assert!(!state.on);
    dispatch_change_event(&props, &mut state);
    dispatch_change_event(&props, &mut state);
    assert!(!state.on);
}

#[test]
fn render_html_contains_label_and_data_state() {
    let props = SwitchProps::new("Notifications");
    let html = render_switch_html(&props, &switch_aria(false), "sw");
    assert!(html.contains(">Notifications<"));
    assert!(html.contains("data-on"));
    let descriptor = build_switch_descriptor(&props, &switch_aria(true), "sw");
    let snapshot = SwitchDescriptorSnapshot::from_descriptor(&descriptor);
    assert_eq!(snapshot.data_on, "true");
    assert_eq!(snapshot.role, "switch");
    assert_eq!(snapshot.data_focus_visible, "false");
    assert_eq!(render_toggle_html(&descriptor), "<span class=\"sw\" role=\"switch\" aria-checked=\"true\" data-on=\"true\">Notifications</span>");
}

fn radio_state() -> RadioGroupSnapshot {
    RadioGroupSnapshot {
        options: vec![
            RadioOptionState {
                name: "A".into(),
                aria: pairs(&[("role", "radio"), ("aria-checked", "true"), ("tabindex", "0")]),
            },
            RadioOptionState {
                name: "B".into(),
                aria: pairs(&[("role", "radio"), ("aria-checked", "false"), ("tabindex", "-1")]),
            },
        ],
        orientation: RadioOrientation::Horizontal,
        group_aria: pairs(&[("role", "radiogroup"), ("aria-orientation", "horizontal")]),
    }
}

#[test]
fn render_html_includes_all_options() {
    let props = RadioGroupProps::new(vec!["A".to_string(), "B".to_string()]);
    let html = render_radio_html(&props, &radio_state(), "group", "option");
    assert!(html.contains("data-index=\"0\""));
    assert!(html.contains("data-index=\"1\""));
    assert!(html.starts_with("<div class=\"group\""));
    assert!(html.contains("data-orientation=\"horizontal\""));
}

#[test]
fn descriptor_exposes_aria_metadata() {
    let props = RadioGroupProps::new(vec!["A".to_string(), "B".to_string()]);
    let descriptor = build_radio_descriptor(&props, &props.telemetry, &radio_state(), "group", "option");
    assert!(descriptor.aria_attributes().iter().any(|(k, _)| k == "role"));
    assert!(descriptor
        .options()
        .iter()
        .any(|option| option.aria_attributes().iter().any(|(k, v)| k == "aria-checked" && v == "true")));
}

#[test]
fn radio_labels_fall_back_to_option_names_and_telemetry_reaches_options() {
    let telemetry = TelemetryHooks { analytics_id: Some("poll".into()), automation_id: None };
    let props = RadioGroupProps::new(vec!["First".to_string()]).with_telemetry(telemetry.clone());
    let descriptor = build_radio_descriptor(&props, &telemetry, &radio_state(), "group", "option");
    assert_eq!(descriptor.options()[0].label(), "First");
    assert_eq!(descriptor.options()[1].label(), "B");
    let snapshot = RadioGroupDescriptorSnapshot::from_descriptor(&descriptor);
    assert_eq!(snapshot.label, "radio-group::2-options");
    assert_eq!(snapshot.role, "radiogroup");
    assert_eq!(snapshot.data_orientation, "horizontal");
    assert_eq!(snapshot.analytics_id.as_deref(), Some("poll"));
    assert_eq!(snapshot.options.len(), 2);
    let option = RadioOptionSnapshot::from_descriptor(&descriptor.options()[1]);
    assert_eq!(option.data_index, "1");
    assert_eq!(option.aria_checked, "false");
    assert_eq!(option.analytics_id.as_deref(), Some("poll"));
    assert_eq!(option.automation_id, None);
    let from_state = RadioGroupProps::from_state(&radio_state());
    assert_eq!(from_state.option_labels, vec!["A".to_string(), "B".to_string()]);
}

#[test]
fn merged_telemetry_prefers_primary() {
    let primary = TelemetryHooks { analytics_id: Some("p".into()), automation_id: None };
    let fallback = TelemetryHooks { analytics_id: Some("f".into()), automation_id: Some("fa".into()) };
    let merged = merged_telemetry(&primary, &fallback);
    assert_eq!(merged.analytics_id.as_deref(), Some("p"));
    assert_eq!(merged.automation_id.as_deref(), Some("fa"));
    let empty = merged_telemetry(&TelemetryHooks::none(), &TelemetryHooks::none());
    assert_eq!(empty.analytics_id, None);
}

#[test]
fn checkbox_dispatch_toggles_only_uncontrolled_state() {
    let props = CheckboxProps::new("Terms");
    let mut state = CheckboxSnapshot { checked: CheckboxValue::Off, disabled: false, focus_visible: false };
    let actions = dispatch_change(&props, &mut state, false);
    assert_eq!(state.checked, CheckboxValue::On);
    assert_eq!(actions.len(), 2);
    assert!(matches!(&actions[0], CheckboxAction::Telemetry(CheckboxTelemetryEvent::Change(c)) if c.next == CheckboxValue::On));
    assert!(matches!(&actions[1], CheckboxAction::ChangeCallback(c) if c.previous == CheckboxValue::Off && c.next == CheckboxValue::On));
    dispatch_change(&props, &mut state, true);
    assert_eq!(state.checked, CheckboxValue::On);
    let ignored = dispatch_key(&props, &mut state, false, "a");
    assert!(ignored.is_none());
    assert_eq!(state.checked, CheckboxValue::On);
    let actions = dispatch_key(&props, &mut state, false, "Enter").expect("enter toggles");
    assert_eq!(actions.len(), 4);
    assert!(matches!(&actions[0], CheckboxAction::Telemetry(CheckboxTelemetryEvent::Key(k)) if k.key == ControlKey::Enter));
    assert!(matches!(&actions[1], CheckboxAction::Telemetry(CheckboxTelemetryEvent::Change(_))));
    assert!(matches!(&actions[2], CheckboxAction::KeyCallback(k) if k.key == ControlKey::Enter));
    assert!(matches!(&actions[3], CheckboxAction::ChangeCallback(c) if c.next == CheckboxValue::Off));
    assert_eq!(state.checked, CheckboxValue::Off);
    let focus = dispatch_focus(&props, &mut state, true);
    assert!(state.focus_visible);
    assert!(matches!(&focus[0], CheckboxAction::Telemetry(CheckboxTelemetryEvent::Focus(_))));
    assert!(matches!(&focus[1], CheckboxAction::FocusCallback(f) if f.focused));
    let blur = dispatch_focus(&props, &mut state, false);
    assert!(!state.focus_visible);
    assert!(matches!(&blur[0], CheckboxAction::Telemetry(CheckboxTelemetryEvent::Blur(_))));
    assert!(matches!(&blur[1], CheckboxAction::BlurCallback(f) if !f.focused));
    let callbacks = CheckboxCallbacks { on_change: false, on_focus: false, on_blur: false, on_key: false, telemetry: false };
    assert!(!installs_change_handler(&callbacks));
    assert!(installs_key_handler(&CheckboxCallbacks { on_change: true, ..callbacks }));
}

#[test]
fn render_context_mirrors_descriptor_metadata() {
    let mut props = CheckboxProps::new("Accept");
    props.telemetry.automation_id = Some("accept".into());
    let (context, descriptor, snapshot) = rustic_ui_material::checkbox::descriptor_with_context(
        "rustic_ui_material::checkbox::render_html",
        &props,
        &checkbox_aria("true", false),
        "cb",
    );
    assert_eq!(context.component, "rustic_ui_material::checkbox::render_html");
    assert_eq!(context.automation_id.as_deref(), Some("accept"));
    assert_eq!(context.analytics_id, None);
    assert_eq!(context.descriptor_label.as_deref(), Some("Accept"));
    assert_eq!(context.descriptor_attributes, descriptor.themed_attributes());
    assert_eq!(snapshot.aria_checked, "true");

    let switch_props = SwitchProps::new("Wifi");
    let (switch_context, _, switch_snapshot) =
        rustic_ui_material::switch::descriptor_with_context("switch", &switch_props, &switch_aria(true), "sw");
    assert_eq!(switch_context.descriptor_label.as_deref(), Some("Wifi"));
    assert_eq!(switch_snapshot.data_on, "true");

    let radio_props = RadioGroupProps::new(vec![]);
    let (radio_context, radio_descriptor, radio_snapshot) = rustic_ui_material::radio::descriptor_with_context(
        "radio",
        &radio_props,
        &radio_props.telemetry,
        &radio_state(),
        "group",
        "option",
    );
    assert_eq!(radio_context.descriptor_label.as_deref(), Some("radio-group::2-options"));
    assert_eq!(radio_context.descriptor_attributes, radio_descriptor.group_thematic_attributes());
    assert_eq!(radio_snapshot.options[0].label, "A");
    assert_eq!(radio_snapshot.options[0].aria_checked, "true");
}
