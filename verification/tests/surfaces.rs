use rustic_ui_material::accordion::{
    render_accordion, AccordionAdapterProps, AccordionClasses, AccordionItemAccessibility,
    AccordionItemDescriptor,
};
use rustic_ui_material::alert::{render_alert, AlertAdapterProps};
use rustic_ui_material::avatar::{render_avatar, AvatarSnapshot};
use rustic_ui_material::backdrop::{render_backdrop, BackdropAdapterProps};
use rustic_ui_material::badge::{render_badge, BadgeSnapshot};
use rustic_ui_material::card::{render as render_card, CardProps};
use rustic_ui_material::paper::{render_paper, PaperSnapshot};

fn pairs(items: &[(&str, &str)]) -> Vec<(String, String)> {
    items.iter().map(|(k, v)| (k.to_string(), v.to_string())).collect()
}

fn has(attrs: &[(String, String)], key: &str, value: &str) -> bool {
    attrs.iter().any(|(k, v)| k == key && v == value)
}

#[test]
fn summary_attributes_include_theme_class_and_aria_metadata() {
    let items = [AccordionItemDescriptor {
        summary_id: "summary",
        panel_id: "panel",
        accessibility: AccordionItemAccessibility {
            summary: pairs(&[("aria-expanded", "true"), ("aria-controls", "panel")]),
            details: pairs(&[("role", "region"), ("aria-labelledby", "summary")]),
        },
    }];
    let classes = AccordionClasses {
        root: "acc-root".into(),
        summary: "acc-summary".into(),
        details: "acc-details".into(),
    };
    let output = render_accordion(&AccordionAdapterProps { items: &items, classes: &classes });
    let summary_attrs = output.items()[0].summary_attributes();
    assert!(summary_attrs.iter().any(|(k, _)| k == "class"));
    assert!(has(summary_attrs, "aria-controls", "panel"));
}

#[test]
fn accordion_items_carry_indexed_hooks_and_ids() {
    let empty = || AccordionItemAccessibility { summary: pairs(&[]), details: pairs(&[]) };
    let items = [
        AccordionItemDescriptor { summary_id: "s0", panel_id: "p0", accessibility: empty() },
        AccordionItemDescriptor { summary_id: "s1", panel_id: "p1", accessibility: empty() },
    ];
    let classes = AccordionClasses { root: "r".into(), summary: "s".into(), details: "d".into() };
    let output = render_accordion(&AccordionAdapterProps { items: &items, classes: &classes });
    assert_eq!(output.root_class(), "r");
    assert_eq!(output.items().len(), 2);
    assert_eq!(
        output.items()[1].summary_attributes().to_vec(),
        pairs(&[("class", "s"), ("id", "s1"), ("data-rustic-accordion-summary-1", "true")])
    );
    assert_eq!(
        output.items()[0].details_attributes().to_vec(),
        pairs(&[("class", "d"), ("id", "p0"), ("data-rustic-accordion-panel-0", "true")])
    );
}

#[test]
fn render_alert_includes_severity_attribute() {
    let aria = pairs(&[("role", "status"), ("data-severity", "success")]);
    let html = render_alert(&AlertAdapterProps::new("Synced successfully", &aria, "alert-class")).html;
    assert!(html.contains("data-severity=\"success\""));
    assert!(html.contains("Synced successfully"));
}

#[test]
fn render_includes_accessibility_metadata() {
    let state = AvatarSnapshot {
        accessibility: pairs(&[("role", "img"), ("aria-label", "Team")]),
        alt: Some("User".into()),
        fallback_initials: Some("JD".into()),
    };
    let render = render_avatar(&state, "avatar", "media");
    assert!(has(render.container_attributes(), "aria-label", "Team"));
    assert!(has(render.media_attributes(), "data-avatar-fallback", "JD"));
    assert_eq!(
        render.media_attributes().to_vec(),
        pairs(&[("class", "media"), ("alt", "User"), ("data-avatar-fallback", "JD")])
    );
}

#[test]
fn render_backdrop_injects_animation_frame() {
    let aria = pairs(&[("aria-hidden", "false"), ("data-open", "true"), ("data-animation-frame", "0")]);
    let html = render_backdrop(&BackdropAdapterProps::new(&aria, "bd")).html;
    assert!(html.contains("data-animation-frame"));
    assert_eq!(
        html,
        "<div class=\"bd\" aria-hidden=\"false\" data-open=\"true\" data-animation-frame=\"0\"></div>"
    );
}

#[test]
fn badge_attributes_surface_display_value() {
    let state = BadgeSnapshot {
        accessibility: pairs(&[("aria-label", "5 notifications")]),
        display_value: Some("5".into()),
    };
    let render = render_badge(&state, "badge-root", "badge-pill");
    assert!(render.badge_attributes().iter().any(|(k, _)| k == "class"));
    assert!(has(render.badge_attributes(), "data-badge-content", "5"));
    assert!(has(render.badge_attributes(), "data-rustic-badge-layer", "surface"));
    assert_eq!(render.container_class(), "badge-root");
}

#[test]
fn attributes_include_data_tokens_and_class() {
    let state = PaperSnapshot {
        accessibility: pairs(&[("role", "region")]),
        tokens: pairs(&[("variant", "elevated"), ("elevation", "6")]),
    };
    let render = render_paper(&state, "paper");
    let attrs = render.attributes();
    assert!(attrs.iter().any(|(k, _)| k == "class"));
    assert!(has(attrs, "data-paper-elevation", "6"));
}

#[test]
fn card_wraps_children_in_classed_div() {
    let html = render_card(&CardProps { children: "<p>Body</p>".into() }, "card-1");
    assert_eq!(html, "<div class=\"card-1\"><p>Body</p></div>");
}
