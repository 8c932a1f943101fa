use rustic_ui_material::checkbox::{
    telemetry_payload as checkbox_payload, CheckboxChangeEvent, CheckboxFocusEvent, CheckboxKeyEvent,
    CheckboxTelemetryEvent, CheckboxValue,
};
use rustic_ui_material::input_events::{decide_input_event, InputDomEvent, InputStateAction};
use rustic_ui_material::interaction::ControlKey;
use rustic_ui_material::payload::PayloadValue;
use rustic_ui_material::switch::{
    telemetry_payload as switch_payload, SwitchChangeEvent, SwitchFocusEvent, SwitchTelemetryEvent,
};

fn render(payload: &[(String, PayloadValue)]) -> Vec<String> {
    payload
        .iter()
        .map(|(k, v)| match v {
            PayloadValue::Text(t) => format!("{k}={t}"),
            PayloadValue::Flag(b) => format!("{k}:{b}"),
        })
        .collect()
}

#[test]
fn checkbox_change_payload_lists_fields_in_order() {
    let event = CheckboxTelemetryEvent::Change(CheckboxChangeEvent {
        previous: CheckboxValue::Indeterminate,
        next: CheckboxValue::On,
        disabled: false,
        analytics_id: Some("terms".into()),
        automation_id: None,
        label: "Accept".into(),
    });
    let payload = checkbox_payload(&event);
    assert_eq!(
        render(&payload),
        vec!["kind=change", "previous=indeterminate", "next=on", "disabled:false", "analyticsId=terms", "label=Accept"]
    );
    assert!(matches!(&payload[0].1, PayloadValue::Text(t) if t == "change"));
}

#[test]
fn checkbox_focus_and_key_payloads() {
    let focus = CheckboxFocusEvent {
        focused: true,
        checked: CheckboxValue::Off,
        disabled: true,
        analytics_id: None,
        automation_id: Some("rustic-checkbox".into()),
        label: "L".into(),
    };
    assert_eq!(
        render(&checkbox_payload(&CheckboxTelemetryEvent::Blur(focus.clone()))),
        vec!["kind=blur", "focused:true", "checked=off", "disabled:true", "automationId=rustic-checkbox", "label=L"]
    );
    assert_eq!(render(&checkbox_payload(&CheckboxTelemetryEvent::Focus(focus)))[0], "kind=focus");
    let key = CheckboxKeyEvent {
        key: ControlKey::Space,
        previous: CheckboxValue::Off,
        next: CheckboxValue::On,
        disabled: false,
        analytics_id: None,
        automation_id: None,
        label: String::new(),
    };
    assert_eq!(
        render(&checkbox_payload(&CheckboxTelemetryEvent::Key(key))),
        vec!["kind=key", "key=space", "previous=off", "next=on", "disabled:false", "label="]
    );
}

#[test]
fn switch_payloads_carry_flags() {
    let change = SwitchTelemetryEvent::Change(SwitchChangeEvent {
        previous: false,
        next: true,
        disabled: false,
        analytics_id: Some("a".into()),
        automation_id: Some("b".into()),
        label: "Wifi".into(),
    });
    assert_eq!(
        render(&switch_payload(&change)),
        vec!["kind=change", "previous:false", "next:true", "disabled:false", "analyticsId=a", "automationId=b", "label=Wifi"]
    );
    let blur = SwitchTelemetryEvent::Blur(SwitchFocusEvent {
        focused: false,
        on: true,
        disabled: false,
        analytics_id: None,
        automation_id: None,
        label: "Wifi".into(),
    });
    assert_eq!(render(&switch_payload(&blur)), vec!["kind=blur", "focused:false", "on:true", "disabled:false", "label=Wifi"]);
}

#[test]
fn input_events_commit_reset_or_ignore() {
    let blur = decide_input_event(&InputDomEvent::Blur);
    assert_eq!(blur.action, InputStateAction::Commit);
    assert!(!blur.prevent_default);
    assert!(blur.refresh);
    let enter = decide_input_event(&InputDomEvent::KeyDown("Enter".into()));
    assert_eq!(enter.action, InputStateAction::Commit);
    assert!(enter.prevent_default && enter.refresh);
    let escape = decide_input_event(&InputDomEvent::KeyDown("Escape".into()));
    assert_eq!(escape.action, InputStateAction::Reset);
    assert!(escape.prevent_default && escape.refresh);
    let other = decide_input_event(&InputDomEvent::KeyDown("enter".into()));
    assert_eq!(other.action, InputStateAction::Ignore);
    assert!(!other.prevent_default && !other.refresh);
}
