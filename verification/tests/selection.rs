use rustic_ui_material::list::{
    item_attributes, item_markup, render_html as render_list_html_full, root_attributes as list_root_attributes,
    ListDensity, ListItem, ListProps, ListSnapshot, SelectionMode,
};
use rustic_ui_material::markup::{
    attributes_to_html, render_backdrop_html, render_element_html, themed_attributes, themed_attributes_html,
};
use rustic_ui_material::rating::{
    render_rating, render_rating_html, RatingAdapterProps, RatingClasses, RatingControlMode, RatingItemSnapshot,
    RatingSnapshot,
};
use rustic_ui_material::select::{
    automation_base, list_attributes, list_id, option_id, render_html as render_select_html, render_list_html,
    trigger_attributes, PortalSnapshot, SelectClasses, SelectOption, SelectProps, SelectSnapshot,
};
use rustic_ui_material::selection_control::{RadioGroupAttributes, RadioOptionAttributes, SelectionControlAttributes};
use rustic_ui_material::style_helpers::component_marker;

fn pairs(items: &[(&str, &str)]) -> Vec<(String, String)> {
    items.iter().map(|(k, v)| (k.to_string(), v.to_string())).collect()
}

fn sample_list_props() -> ListProps {
    ListProps::new(vec![ListItem::new("Inbox").with_secondary("23 new"), ListItem::new("Archive").with_meta("2 GB")])
        .with_selection_mode(SelectionMode::Single)
        .with_automation_id("sample-list")
}

#[test]
fn root_attributes_include_aria_contract() {
    let props = sample_list_props();
    let state = ListSnapshot { highlighted: Some(0), selected: vec![] };
    let attrs = list_root_attributes(&props, &state);
    assert!(attrs.iter().any(|(k, v)| k == "role" && v == "listbox"));
    assert!(attrs.iter().any(|(k, v)| k == "aria-activedescendant" && v.starts_with("sample-list")));
}

#[test]
fn item_attributes_toggle_selected_flags() {
    let props = sample_list_props();
    let state = ListSnapshot { highlighted: Some(0), selected: vec![1] };
    let attrs = item_attributes(&props, &state, &props.items[1], 1);
    assert!(attrs.iter().any(|(k, v)| k == "data-selected" && v == "true"));
    assert!(attrs.iter().any(|(k, v)| k == "data-rustic-list-item" && v.contains("rustic-list-sample-list")));
    let first = item_attributes(&props, &state, &props.items[0], 0);
    assert!(first.iter().any(|(k, v)| k == "data-selected" && v == "false"));
    assert!(first.iter().any(|(k, v)| k == "data-highlighted" && v == "true"));
}

#[test]
fn render_html_emits_expected_markup() {
    let props = sample_list_props();
    let state = ListSnapshot { highlighted: Some(0), selected: vec![] };
    let html = render_list_html_full(&props, &state, "list-root", "list-item");
    assert!(html.contains("data-component=\"rustic-list\""));
    assert!(html.contains("class=\"rustic_ui_list_primary\""));
    assert!(html.contains("data-rustic-list-item"));
    assert!(html.contains("<ul"));
    assert_eq!(html.matches("<li").count(), 2);
}

#[test]
fn list_without_selection_is_a_plain_list() {
    let props = ListProps::new(vec![ListItem::new("One")]).with_selection_mode(SelectionMode::Off);
    let state = ListSnapshot { highlighted: Some(0), selected: vec![] };
    let attrs = list_root_attributes(&props, &state);
    assert!(attrs.iter().any(|(k, v)| k == "role" && v == "list"));
    assert!(!attrs.iter().any(|(k, _)| k == "aria-activedescendant"));
    assert!(attrs.iter().any(|(k, v)| k == "data-selection-mode" && v == "none"));
}

#[test]
fn list_density_tokens() {
    assert_eq!(ListDensity::Compact.data_value(), "compact");
    assert!(ListDensity::Compact.vertical_padding() < ListDensity::Comfortable.vertical_padding());
    let markup = item_markup(&ListItem::new("Plain"));
    assert!(markup.contains("Plain"));
}

fn sample_select_props() -> SelectProps {
    SelectProps::new("Choose", vec![SelectOption::new("One", "1"), SelectOption::new("Two", "2")])
        .with_automation_id("sample")
}

fn select_state(highlighted: Option<usize>) -> SelectSnapshot {
    SelectSnapshot {
        open: false,
        trigger_role: "button".into(),
        trigger_haspopup: ("aria-haspopup".into(), "listbox".into()),
        trigger_expanded: ("aria-expanded".into(), "false".into()),
        list_role: "listbox".into(),
        highlighted,
        selected: None,
        option_accessibility: vec![pairs(&[("role", "option")]), pairs(&[("role", "option")])],
    }
}

fn portal() -> PortalSnapshot {
    PortalSnapshot {
        layer: "popover".into(),
        anchor_id: "sample-popover-anchor".into(),
        container_id: "sample-popover-portal".into(),
        anchor_html: "<span data-portal-anchor=\"sample-popover-anchor\"></span>".into(),
    }
}

fn select_classes() -> SelectClasses {
    SelectClasses { root: "sel".into(), trigger: "sel-trigger".into(), list: "sel-list".into(), option: "sel-option".into() }
}

fn popover_markup(props: &SelectProps, state: &SelectSnapshot, portal: &PortalSnapshot, classes: &SelectClasses) -> String {
    format!(
        "<div id=\"{}\" data-portal-root=\"{}\">{}</div>",
        portal.container_id,
        portal.container_id,
        render_list_html(props, state, portal, classes)
    )
}

#[test]
fn trigger_attributes_include_aria_contract() {
    let props = sample_select_props();
    let state = select_state(None);
    let attrs = trigger_attributes(&props, &state, &portal());
    assert!(attrs.iter().any(|(k, v)| k == "aria-haspopup" && v == "listbox"));
    assert!(attrs.iter().any(|(k, _)| k == "aria-controls"));
    assert!(attrs.iter().any(|(k, v)| k == "data-portal-root" && v.ends_with("-portal")));
}

#[test]
fn list_attributes_link_to_highlight() {
    let props = sample_select_props();
    let state = select_state(Some(1));
    let attrs = list_attributes(&props, &state, &portal());
    assert!(attrs.iter().any(|(k, v)| k == "aria-activedescendant" && v.ends_with("-option-1")));
    assert!(attrs.iter().any(|(k, v)| k == "data-portal-anchor" && v.ends_with("-anchor")));
}

#[test]
fn render_html_emits_data_hooks() {
    let props = sample_select_props();
    let state = select_state(None);
    let p = portal();
    let classes = select_classes();
    let html = render_select_html(&props, &state, &p, &classes, &popover_markup(&props, &state, &p, &classes));
    assert!(html.contains("data-automation-id=\"sample\""));
    assert!(html.contains("data-value=\"1\""));
    assert!(html.contains("data-portal-root"));
    assert!(html.contains("data-portal-anchor"));
}

#[test]
fn render_html_appends_portal_container_once() {
    let props = sample_select_props();
    let state = select_state(None);
    let p = portal();
    let classes = select_classes();
    let html = render_select_html(&props, &state, &p, &classes, &popover_markup(&props, &state, &p, &classes));
    let anchor_count = html.matches("data-portal-anchor").count();
    let root_count = html.matches("data-portal-root").count();
    assert!(anchor_count >= 2, "expected anchor metadata on trigger/list/placeholder");
    assert!(root_count >= 2, "expected root metadata across markup");
    assert_eq!(html.matches("<ul").count(), 1, "list markup should only render once");
}

#[test]
fn select_ids_derive_from_automation_base() {
    let props = sample_select_props();
    assert_eq!(automation_base(&props), "sample");
    assert_eq!(list_id(&props), "sample-list");
    assert_eq!(option_id(&props, 3), "sample-option-3");
    let anonymous = SelectProps::new("Choose", vec![]);
    assert_eq!(automation_base(&anonymous), "mui-select");
}

#[test]
fn root_attributes_include_component_marker() {
    let state = RatingSnapshot {
        root_pairs: pairs(&[("role", "radiogroup")]),
        max: 2,
        precision_text: "1.00".into(),
        items: vec![
            RatingItemSnapshot {
                index: 0,
                pairs: pairs(&[("role", "radio"), ("aria-checked", "false")]),
                value_text: "1".into(),
                singular: true,
                fill_percent_text: "0".into(),
            },
            RatingItemSnapshot {
                index: 1,
                pairs: pairs(&[("role", "radio"), ("aria-checked", "false")]),
                value_text: "2".into(),
                singular: false,
                fill_percent_text: "0".into(),
            },
        ],
    };
    let classes = RatingClasses { root: "rating".into(), item: "star".into(), icon: "icon".into() };
    let props = RatingAdapterProps {
        state: &state,
        id: Some("rating"),
        label: Some("Rate experience"),
        automation_id: Some("feedback"),
        control: RatingControlMode::Uncontrolled,
        classes: &classes,
    };
    let rendered = render_rating(&props);
    assert!(rendered.root_attributes().iter().any(|(k, v)| k == "data-component" && *v == component_marker("rating")));
    assert!(rendered.html().contains("<button"));
    assert!(rendered.html().contains("aria-label=\"1 star\""));
    assert!(rendered.html().contains("aria-label=\"2 stars\""));
    assert_eq!(render_rating_html(&props), rendered.html());
}

#[test]
fn render_element_generates_wrapped_markup() {
    let html = render_element_html("span", "css-red", &pairs(&[("role", "note")]), "Hello");
    assert!(html.starts_with("<span class=\""));
    assert!(html.contains("role=\"note\""));
    assert!(html.ends_with("Hello</span>"));
}

#[test]
fn render_backdrop_produces_div_wrapper() {
    let html = render_backdrop_html("css-fade", &pairs(&[("data-open", "true")]));
    assert!(html.starts_with("<div class=\""));
    assert!(html.contains("data-open=\"true\""));
    assert!(html.ends_with("></div>"));
}

#[test]
fn themed_attributes_include_class_and_custom_pairs() {
    let attrs = themed_attributes("css-red", &pairs(&[("role", "button")]));
    assert_eq!(attrs[0].0, "class");
    assert!(attrs.iter().any(|(k, v)| k == "role" && v == "button"));
}

#[test]
fn themed_attributes_html_serializes_pairs() {
    let html = themed_attributes_html("css-red", &pairs(&[("aria-label", "Save")]));
    assert!(html.contains("class=\""));
    assert!(html.contains("aria-label=\"Save\""));
    assert_eq!(html, "class=\"css-red\" aria-label=\"Save\"");
    assert_eq!(attributes_to_html(&Vec::new()), "");
}

#[test]
fn selection_control_ssr_contains_expected_attributes() {
    let descriptor = SelectionControlAttributes::builder("Toggle", "css-inherit")
        .class("root")
        .aria("role", "switch")
        .data("state", "on")
        .automation_id("qa", "toggle-1")
        .build();
    let html = descriptor.to_ssr_html();
    assert!(html.contains("role=\"switch\""));
    assert!(html.contains("data-state=\"on\""));
    assert!(html.contains("data-automation-qa=\"toggle-1\""));
    assert!(html.contains("Toggle"));
}

#[test]
fn radio_group_ssr_contains_option_markup() {
    let option = RadioOptionAttributes::builder("A", "css-inherit")
        .aria("role", "radio")
        .automation_id("qa", "radio-a")
        .build();
    let group = RadioGroupAttributes::builder("css-inherit").aria("role", "radiogroup").option(option).build();
    let html = group.to_ssr_html();
    assert!(html.contains("role=\"radiogroup\""));
    assert!(html.contains("radio-a"));
    assert_eq!(group.options().len(), 1);
}

#[test]
fn selection_control_classes_are_sorted_and_deduplicated() {
    let descriptor = SelectionControlAttributes::builder("Toggle", "css-x")
        .class("b")
        .class("a")
        .class("b")
        .build();
    let classes: Vec<&str> = descriptor.classes().iter().map(String::as_str).collect();
    assert_eq!(classes, vec!["a", "b"]);
}
