use rustic_ui_material::style_helpers::{automation_data_attr, automation_id, component_marker, sanitise};

#[test]
fn automation_id_sanitises_segments() {
    let id = automation_id("Select", Some("Team Menu"), &["Trigger", "Primary"]);
    assert_eq!(id, "rustic-select-team-menu-trigger-primary");
}

#[test]
fn automation_data_attr_excludes_user_segment() {
    let attr = automation_data_attr("tooltip", &["surface"]);
    assert_eq!(attr, "data-rustic-tooltip-surface");
}

#[test]
fn sanitise_collapses_and_trims_separators() {
    assert_eq!(sanitise("  Hello__World!! "), "hello-world");
    assert_eq!(sanitise("---"), "component");
    assert_eq!(sanitise(""), "component");
    assert_eq!(sanitise("Row 3"), "row-3");
}

#[test]
fn sanitise_is_idempotent_on_examples() {
    for input in ["Team Menu", "a--b", "-x-", "ÄÖ", "snake_case_name"] {
        let once = sanitise(input);
        assert_eq!(sanitise(&once), once);
    }
}

#[test]
fn component_marker_is_prefixed() {
    assert_eq!(component_marker("link"), "rustic_ui_link");
}
