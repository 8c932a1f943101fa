use rustic_ui_material::bottom_navigation::{
    render_bottom_navigation, render_bottom_navigation_html, BottomNavigationAdapterProps,
    BottomNavigationClasses, BottomNavigationItemDescriptor,
};
use rustic_ui_material::breadcrumbs::{
    render_breadcrumbs, render_breadcrumbs_html, BreadcrumbClasses, BreadcrumbItemDescriptor,
    BreadcrumbsAdapterProps,
};
use rustic_ui_material::landmark::LandmarkAttributes;
use rustic_ui_material::link::{render_link, render_link_html, LinkAdapterProps};
use rustic_ui_material::pagination::{
    render_pagination, render_pagination_html, PaginationAdapterProps, PaginationClasses,
    PaginationItemDescriptor,
};
use rustic_ui_material::speed_dial::{
    render_speed_dial, render_speed_dial_html, SpeedDialActionDescriptor, SpeedDialAdapterProps,
    SpeedDialClasses, SpeedDialTriggerDescriptor,
};
use rustic_ui_material::style_helpers::{automation_data_attr, component_marker, EMPTY_SEGMENTS};

fn pairs(items: &[(&str, &str)]) -> Vec<(String, String)> {
    items.iter().map(|(k, v)| (k.to_string(), v.to_string())).collect()
}

fn has(attrs: &[(String, String)], key: &str, value: &str) -> bool {
    attrs.iter().any(|(k, v)| k == key && v == value)
}

fn landmark(role: &str, label: Option<&str>) -> LandmarkAttributes {
    LandmarkAttributes {
        role: role.into(),
        id: None,
        aria_label: label.map(|l| ("aria-label".to_string(), l.to_string())),
        labelledby: None,
        analytics: None,
    }
}

fn nav_classes() -> BottomNavigationClasses {
    BottomNavigationClasses { root: "bn-root".into(), item: "bn-item".into() }
}

fn nav_items() -> Vec<BottomNavigationItemDescriptor<'static>> {
    vec![
        BottomNavigationItemDescriptor {
            id: Some("home"),
            controls: None,
            content: "<span>Home</span>",
            state_pairs: pairs(&[("role", "tab"), ("aria-selected", "true"), ("id", "home")]),
        },
        BottomNavigationItemDescriptor {
            id: Some("files"),
            controls: None,
            content: "<span>Files</span>",
            state_pairs: pairs(&[("role", "tab"), ("aria-selected", "false"), ("id", "files")]),
        },
        BottomNavigationItemDescriptor {
            id: Some("settings"),
            controls: None,
            content: "<span>Settings</span>",
            state_pairs: pairs(&[("role", "tab"), ("aria-selected", "false"), ("id", "settings")]),
        },
    ]
}

#[test]
fn root_attributes_include_automation_hooks() {
    let attrs = landmark("tablist", Some("Primary"));
    let items = nav_items();
    let classes = nav_classes();
    let rendered = render_bottom_navigation(&BottomNavigationAdapterProps {
        attributes: &attrs,
        selected: Some(0),
        items: &items,
        on_select_event: Some("nav-select"),
        classes: &classes,
    });
    assert!(rendered
        .root_attributes()
        .iter()
        .any(|(k, v)| k == "data-component" && *v == component_marker("bottom-navigation")));
    assert!(has(rendered.root_attributes(), "data-on-select", "nav-select"));
    assert!(has(rendered.root_attributes(), "data-selected-index", "0"));
}

#[test]
fn html_renderer_emits_buttons_for_each_item() {
    let attrs = landmark("tablist", None);
    let items = nav_items();
    let classes = nav_classes();
    let html = render_bottom_navigation_html(&BottomNavigationAdapterProps {
        attributes: &attrs,
        selected: None,
        items: &items,
        on_select_event: Some("nav-select"),
        classes: &classes,
    });
    assert!(html.contains("<nav"));
    assert!(html.contains("role=\"tablist\""));
    assert!(html.matches("<button").count() >= 3);
}

fn crumb_items() -> Vec<BreadcrumbItemDescriptor<'static>> {
    vec![
        BreadcrumbItemDescriptor {
            id: Some("home"),
            href: Some("/"),
            content: "<span>Home</span>",
            separator: "/",
            link_pairs: pairs(&[("href", "/")]),
        },
        BreadcrumbItemDescriptor {
            id: Some("library"),
            href: Some("/library"),
            content: "<span>Library</span>",
            separator: "/",
            link_pairs: pairs(&[("href", "/library")]),
        },
        BreadcrumbItemDescriptor {
            id: Some("current"),
            href: None,
            content: "<span>Current</span>",
            separator: "",
            link_pairs: pairs(&[("aria-current", "page")]),
        },
    ]
}

fn crumb_classes() -> BreadcrumbClasses {
    BreadcrumbClasses {
        root: "bc-root".into(),
        list: "bc-list".into(),
        item: "bc-item".into(),
        link: "bc-link".into(),
        separator: "bc-sep".into(),
    }
}

#[test]
fn breadcrumbs_root_attributes_include_event_channel() {
    let root = landmark("navigation", Some("Breadcrumb"));
    let list = landmark("list", None);
    let items = crumb_items();
    let separator_pairs = pairs(&[("aria-hidden", "true")]);
    let classes = crumb_classes();
    let rendered = render_breadcrumbs(&BreadcrumbsAdapterProps {
        root_attributes: &root,
        list_attributes: &list,
        items: &items,
        separator_pairs: &separator_pairs,
        on_activate_event: Some("breadcrumb-activate"),
        classes: &classes,
    });
    assert!(has(rendered.root_attributes(), "data-on-activate", "breadcrumb-activate"));
    let list_hook = automation_data_attr("breadcrumbs", &["list"]);
    assert!(rendered.list_attributes().iter().any(|(k, _)| *k == list_hook));
}

#[test]
fn html_renderer_includes_ordered_list() {
    let root = landmark("navigation", Some("Breadcrumb"));
    let list = landmark("list", None);
    let items = crumb_items();
    let separator_pairs = pairs(&[("aria-hidden", "true")]);
    let classes = crumb_classes();
    let html = render_breadcrumbs_html(&BreadcrumbsAdapterProps {
        root_attributes: &root,
        list_attributes: &list,
        items: &items,
        separator_pairs: &separator_pairs,
        on_activate_event: Some("breadcrumb-activate"),
        classes: &classes,
    });
    assert!(html.contains("<nav"));
    assert!(html.contains("<ol"));
    assert!(html.contains(&format!("data-component=\"{}\"", component_marker("breadcrumbs-item"))));
}

fn page_items() -> Vec<PaginationItemDescriptor<'static>> {
    vec![
        PaginationItemDescriptor { kind: "first", id: Some("first"), aria_label: Some("First"), content: "&laquo;", control_pairs: pairs(&[("type", "button")]) },
        PaginationItemDescriptor { kind: "previous", id: Some("prev"), aria_label: Some("Previous"), content: "&lsaquo;", control_pairs: pairs(&[("type", "button")]) },
        PaginationItemDescriptor { kind: "page", id: Some("page-1"), aria_label: None, content: "1", control_pairs: pairs(&[("type", "button")]) },
        PaginationItemDescriptor { kind: "page", id: Some("page-2"), aria_label: None, content: "2", control_pairs: pairs(&[("type", "button")]) },
        PaginationItemDescriptor { kind: "page", id: Some("page-3"), aria_label: None, content: "3", control_pairs: pairs(&[("type", "button")]) },
        PaginationItemDescriptor { kind: "next", id: Some("next"), aria_label: Some("Next"), content: "&rsaquo;", control_pairs: pairs(&[("type", "button")]) },
        PaginationItemDescriptor { kind: "last", id: Some("last"), aria_label: Some("Last"), content: "&raquo;", control_pairs: pairs(&[("type", "button")]) },
    ]
}

fn page_classes() -> PaginationClasses {
    PaginationClasses { root: "pg-root".into(), list: "pg-list".into(), item: "pg-item".into(), button: "pg-btn".into() }
}

#[test]
fn pagination_root_attributes_include_event_channel() {
    let root = landmark("navigation", Some("Pagination"));
    let list = landmark("list", None);
    let items = page_items();
    let classes = page_classes();
    let rendered = render_pagination(&PaginationAdapterProps {
        root_attributes: &root,
        list_attributes: &list,
        items: &items,
        on_select_event: Some("paginate"),
        classes: &classes,
    });
    assert!(has(rendered.root_attributes(), "data-on-select", "paginate"));
    assert_eq!(rendered.items().len(), 7);
}

#[test]
fn html_renderer_emits_buttons_for_each_control() {
    let root = landmark("navigation", Some("Pagination"));
    let list = landmark("list", None);
    let items = page_items();
    let classes = page_classes();
    let html = render_pagination_html(&PaginationAdapterProps {
        root_attributes: &root,
        list_attributes: &list,
        items: &items,
        on_select_event: Some("paginate"),
        classes: &classes,
    });
    assert!(html.contains("<nav"));
    assert!(html.matches("<button").count() >= 7);
}

fn dial_actions() -> Vec<SpeedDialActionDescriptor<'static>> {
    vec![
        SpeedDialActionDescriptor {
            index: 0,
            id: Some("action-0"),
            analytics_tag: Some("create"),
            aria_label: Some("Create document"),
            content: "<span>D</span>",
            button_pairs: pairs(&[("role", "menuitem")]),
        },
        SpeedDialActionDescriptor {
            index: 1,
            id: Some("action-1"),
            analytics_tag: Some("upload"),
            aria_label: Some("Upload"),
            content: "<span>U</span>",
            button_pairs: pairs(&[("role", "menuitem")]),
        },
        SpeedDialActionDescriptor {
            index: 2,
            id: Some("action-2"),
            analytics_tag: Some("share"),
            aria_label: Some("Share"),
            content: "<span>S</span>",
            button_pairs: pairs(&[("role", "menuitem")]),
        },
    ]
}

fn dial_classes() -> SpeedDialClasses {
    SpeedDialClasses {
        container: "sd".into(),
        trigger: "sd-trigger".into(),
        list: "sd-list".into(),
        item: "sd-item".into(),
        action: "sd-action".into(),
    }
}

#[test]
fn container_attributes_include_toggle_channel() {
    let trigger_pairs = pairs(&[("aria-expanded", "false"), ("aria-haspopup", "true")]);
    let list_pairs = pairs(&[("role", "menu")]);
    let actions = dial_actions();
    let classes = dial_classes();
    let rendered = render_speed_dial(&SpeedDialAdapterProps {
        open: false,
        trigger_pairs: &trigger_pairs,
        list_pairs: &list_pairs,
        trigger: SpeedDialTriggerDescriptor { id: Some("fab"), analytics_tag: Some("primary"), content: "<span>+</span>" },
        actions: &actions,
        on_action_event: Some("speed-dial-action"),
        on_toggle_event: Some("speed-dial-toggle"),
        classes: &classes,
    });
    assert!(has(rendered.container_attributes(), "data-on-toggle", "speed-dial-toggle"));
    assert_eq!(rendered.actions().len(), 3);
}

#[test]
fn html_renderer_emits_trigger_and_actions() {
    let trigger_pairs = pairs(&[("aria-expanded", "true")]);
    let list_pairs = pairs(&[("role", "menu")]);
    let actions = dial_actions();
    let classes = dial_classes();
    let html = render_speed_dial_html(&SpeedDialAdapterProps {
        open: true,
        trigger_pairs: &trigger_pairs,
        list_pairs: &list_pairs,
        trigger: SpeedDialTriggerDescriptor { id: Some("fab"), analytics_tag: Some("primary"), content: "<span>+</span>" },
        actions: &actions,
        on_action_event: Some("speed-dial-action"),
        on_toggle_event: Some("speed-dial-toggle"),
        classes: &classes,
    });
    assert!(html.contains("<button"));
    assert!(html.matches("<li").count() >= 3);
}

#[test]
fn link_attributes_expose_automation_marker() {
    let anchor = pairs(&[
        ("href", "/docs"),
        ("id", "docs-link"),
        ("target", "_blank"),
        ("rel", "noopener noreferrer"),
        ("data-analytics-channel", "nav"),
        ("data-analytics-tag", "primary"),
    ]);
    let output = render_link(&LinkAdapterProps { attributes: &anchor, class: "link", content: "Docs" });
    let marker = automation_data_attr("link", &EMPTY_SEGMENTS);
    assert!(output.attributes().iter().any(|(k, _)| *k == marker));
    assert_eq!(output.content(), "Docs");
}

#[test]
fn html_renderer_includes_anchor_markup() {
    let anchor = pairs(&[("href", "/")]);
    let html = render_link_html(&LinkAdapterProps { attributes: &anchor, class: "link", content: "Home" });
    assert!(html.contains("<a"));
    assert!(html.contains("data-component=\"rustic_ui_link\""));
    assert_eq!(
        html,
        "<a class=\"link\" href=\"/\" data-component=\"rustic_ui_link\" data-rustic-link=\"true\">Home</a>"
    );
}
