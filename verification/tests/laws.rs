use rustic_ui_material::attr_map::AttrMap;
use rustic_ui_material::list::{item_attributes, root_attributes, ListItem, ListProps, ListSnapshot, SelectionMode};
use rustic_ui_material::rating::{
    render_controlled, render_uncontrolled, RatingAdapterProps, RatingClasses, RatingControlMode, RatingItemSnapshot,
    RatingSnapshot,
};
use rustic_ui_material::select::{list_attributes, option_attributes, trigger_attributes, PortalSnapshot, SelectOption, SelectProps, SelectSnapshot};
use rustic_ui_material::selection_control::SelectionControlAttributes;
use rustic_ui_material::style_helpers::automation_id;
use rustic_ui_material::telemetry::{merged_telemetry, TelemetryHooks};

fn pairs(items: &[(&str, &str)]) -> Vec<(String, String)> {
    items.iter().map(|(k, v)| (k.to_string(), v.to_string())).collect()
}

fn lookup(attrs: &[(String, String)], key: &str) -> Option<String> {
    attrs.iter().find(|(k, _)| k == key).map(|(_, v)| v.clone())
}

#[test]
fn attr_map_order_depends_only_on_contents() {
    let mut a = AttrMap::new();
    a.insert_str("--b", "2");
    a.insert_str("--a", "1");
    a.insert_str("--c", "3");
    let mut b = AttrMap::new();
    b.insert_str("--c", "3");
    b.insert_str("--a", "0");
    b.insert_str("--b", "2");
    b.insert_str("--a", "1");
    assert_eq!(a.entries(), b.entries());
    assert_eq!(a.entries().clone(), pairs(&[("--a", "1"), ("--b", "2"), ("--c", "3")]));
    assert_eq!(b.get("--a").map(String::as_str), Some("1"));
    assert_eq!(b.len(), 3);
    assert!(b.get("--d").is_none());
}

#[test]
fn merged_telemetry_is_associative() {
    let a = TelemetryHooks { analytics_id: None, automation_id: Some("a".into()) };
    let b = TelemetryHooks { analytics_id: Some("b".into()), automation_id: None };
    let c = TelemetryHooks { analytics_id: Some("c".into()), automation_id: Some("c".into()) };
    let left = merged_telemetry(&merged_telemetry(&a, &b), &c);
    let right = merged_telemetry(&a, &merged_telemetry(&b, &c));
    assert_eq!(left.analytics_id, right.analytics_id);
    assert_eq!(left.automation_id, right.automation_id);
    let same = merged_telemetry(&a, &TelemetryHooks::none());
    assert_eq!(same.automation_id.as_deref(), Some("a"));
    assert_eq!(same.analytics_id, None);
}

#[test]
fn list_active_descendant_matches_row_id() {
    let props = ListProps::new(vec![ListItem::new("One"), ListItem::new("Two"), ListItem::new("Three")])
        .with_selection_mode(SelectionMode::Multiple)
        .with_automation_id("files");
    let state = ListSnapshot { highlighted: Some(2), selected: vec![0, 2] };
    let root = root_attributes(&props, &state);
    let row = item_attributes(&props, &state, &props.items[2], 2);
    assert_eq!(lookup(&root, "aria-activedescendant"), lookup(&row, "id"));
    assert_eq!(lookup(&row, "id").as_deref(), Some("files-option-2"));
    assert_eq!(lookup(&root, "aria-multiselectable").as_deref(), Some("true"));
}

#[test]
fn list_row_ids_sanitise_the_list_id() {
    let props = ListProps::new(vec![ListItem::new("One")])
        .with_selection_mode(SelectionMode::Single)
        .with_automation_id("Sample List");
    let state = ListSnapshot { highlighted: Some(0), selected: vec![] };
    let root = root_attributes(&props, &state);
    let row = item_attributes(&props, &state, &props.items[0], 0);
    assert_eq!(lookup(&row, "id").as_deref(), Some("sample-list-option-0"));
    assert_eq!(lookup(&root, "aria-activedescendant").as_deref(), Some("sample-list-option-0"));
}

#[test]
fn select_trigger_and_list_are_linked() {
    let props = SelectProps::new("Choose", vec![SelectOption::new("One", "1"), SelectOption::new("Two", "2")]);
    let state = SelectSnapshot {
        open: true,
        trigger_role: "button".into(),
        trigger_haspopup: ("aria-haspopup".into(), "listbox".into()),
        trigger_expanded: ("aria-expanded".into(), "true".into()),
        list_role: "listbox".into(),
        highlighted: Some(0),
        selected: Some(0),
        option_accessibility: vec![pairs(&[]), pairs(&[])],
    };
    let portal = PortalSnapshot {
        layer: "popover".into(),
        anchor_id: "a".into(),
        container_id: "p".into(),
        anchor_html: String::new(),
    };
    let trigger = trigger_attributes(&props, &state, &portal);
    let list = list_attributes(&props, &state, &portal);
    let option = option_attributes(&props, &state, 0);
    assert_eq!(lookup(&trigger, "aria-controls"), lookup(&list, "id"));
    assert_eq!(lookup(&list, "aria-activedescendant"), lookup(&option, "id"));
    assert_eq!(lookup(&option, "aria-selected").as_deref(), Some("true"));
    assert_eq!(lookup(&list, "aria-hidden").as_deref(), Some("false"));
}

#[test]
fn automation_ids_always_start_with_prefix() {
    for (component, user) in [("Stepper", Some("Ops Flow")), ("!!", None), ("tab", Some(""))] {
        let id = automation_id(component, user, &["Step 1"]);
        assert!(id.starts_with("rustic-"));
        assert!(!id.contains("--"));
        assert!(!id.ends_with('-'));
        assert!(id.chars().all(|c| c.is_ascii_lowercase() || c.is_ascii_digit() || c == '-'));
    }
}

#[test]
fn rating_mode_helpers_set_the_controlled_flag() {
    let state = RatingSnapshot {
        root_pairs: pairs(&[("role", "radiogroup")]),
        max: 1,
        precision_text: "1.00".into(),
        items: vec![RatingItemSnapshot {
            index: 0,
            pairs: pairs(&[]),
            value_text: "1".into(),
            singular: true,
            fill_percent_text: "100".into(),
        }],
    };
    let classes = RatingClasses { root: "r".into(), item: "i".into(), icon: "c".into() };
    let props = RatingAdapterProps {
        state: &state,
        id: None,
        label: None,
        automation_id: None,
        control: RatingControlMode::Uncontrolled,
        classes: &classes,
    };
    assert!(render_controlled(&props).contains("data-controlled=\"true\""));
    assert!(render_uncontrolled(&props).contains("data-controlled=\"false\""));
    assert!(render_uncontrolled(&props).contains("--rustic-rating-fill: 100%;"));
}

#[test]
fn class_normalisation_ignores_insertion_order() {
    let first = SelectionControlAttributes::builder("L", "s").class("zeta").class("alpha").class("mid").build();
    let second = SelectionControlAttributes::builder("L", "s")
        .class("mid")
        .class("zeta")
        .class("alpha")
        .class("zeta")
        .build();
    assert_eq!(first.classes(), second.classes());
    assert_eq!(first.to_ssr_html(), second.to_ssr_html());
    assert!(first.to_ssr_html().contains("class=\"alpha mid zeta\""));
}

#[test]
fn automation_ids_ignore_case_and_separator_spelling() {
    let a = automation_id("Menu Button", Some("Team Menu"), &["Row 3"]);
    let b = automation_id("menu_button", Some("team_menu"), &["row--3"]);
    let c = automation_id("MENU-BUTTON", Some("TEAM-MENU"), &["ROW_ _3"]);
    assert_eq!(a, "rustic-menu-button-team-menu-row-3");
    assert_eq!(a, b);
    assert_eq!(a, c);
}
