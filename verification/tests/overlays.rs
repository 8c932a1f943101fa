use rustic_ui_material::app_bar::{
    app_bar_height, automation_dom_id, render as render_app_bar, sanitized_aria_label, AppBarColor, AppBarProps,
    AppBarSize,
};
use rustic_ui_material::circular_progress::{render_circular_progress, CircularProgressAdapterProps};
use rustic_ui_material::click_away::{
    click_away_root_attributes, dialog_click_away_automation, drawer_click_away_automation, merge_boundary_options,
    render_click_away_boundary_html, resolved_automation_id, ClickAwayBoundaryOptions,
};
use rustic_ui_material::collapsible::{
    collapsible_region_attributes, render_collapsible_trigger_html, CollapsibleRegionOptions,
    CollapsibleTriggerOptions,
};
use rustic_ui_material::dialog::{
    apply_surface_attributes, apply_surface_options, dialog_backdrop_attributes, dialog_surface_attributes,
    render as render_dialog, render_dialog_surface_html, DialogSurfaceOptions, DialogSurfaceSnapshot,
};
use rustic_ui_material::focus_trap::{
    focus_trap_sentinel_attributes, render_focus_trap_sentinel_html, FocusTrapSentinelKind, FocusTrapSentinelOptions,
};
use rustic_ui_material::form_control::{render_form_control, FormControlAdapterProps};
use rustic_ui_material::input_adornment::{render_input_adornment, InputAdornmentAdapterProps};
use rustic_ui_material::input_base::{
    analytics_attributes, attr_lookup, bool_token, input_attribute_pairs, join_messages, render_input_base,
    InputBaseRenderConfig, InputSelection, InputSnapshot,
};
use rustic_ui_material::linear_progress::{render_linear_progress, LinearProgressAdapterProps};
use rustic_ui_material::modal::themed_surface_attributes as modal_surface_attributes;
use rustic_ui_material::popper::{placement_to_str, themed_surface_attributes as popper_surface_attributes, PopperPlacement};
use rustic_ui_material::skeleton::{animation_css, render_skeleton, SkeletonAdapterProps, SkeletonAnimation};
use rustic_ui_material::slider::{render_slider, slider_root_attributes, SliderAdapterProps, SliderOrientation};
use rustic_ui_material::stepper::{
    render_stepper, step_status_token, StepSnapshot, StepStatus, StepperAdapterProps, StepperClasses, StepperSnapshot,
};
use rustic_ui_material::popover::{
    themed_anchor_attributes, themed_surface_attributes as popover_surface_attributes, PopoverAnchorSnapshot,
    PopoverSurfaceSnapshot,
};
use rustic_ui_material::style_helpers::{automation_data_attr, automation_id, COMPONENT_PREFIX, EMPTY_SEGMENTS};
use rustic_ui_material::telemetry::TelemetryHooks;

fn pairs(items: &[(&str, &str)]) -> Vec<(String, String)> {
    items.iter().map(|(k, v)| (k.to_string(), v.to_string())).collect()
}

fn lookup<'a>(attrs: &'a [(String, String)], key: &str) -> Option<&'a str> {
    attrs.iter().find(|(k, _)| k == key).map(|(_, v)| v.as_str())
}

fn open_surface() -> DialogSurfaceSnapshot {
    DialogSurfaceSnapshot {
        role: "dialog".into(),
        aria_modal: "true".into(),
        id: None,
        labelled_by: None,
        described_by: None,
        state: "open".into(),
        transition: None,
        focus_trap: "active".into(),
        analytics_id: None,
    }
}

#[test]
fn surface_attribute_pairs_capture_state_metadata() {
    let surface = apply_surface_options(&open_surface(), &DialogSurfaceOptions::default());
    let attrs = dialog_surface_attributes(&surface, None);
    assert_eq!(lookup(&attrs, "role"), Some("dialog"));
    assert_eq!(lookup(&attrs, "aria-modal"), Some("true"));
    assert_eq!(lookup(&attrs, "data-state"), Some("open"));
    assert_eq!(lookup(&attrs, "data-focus-trap"), Some("active"));
    assert_eq!(attrs.len(), 4);
}

#[test]
fn render_html_includes_custom_surface_overrides() {
    let mut options = DialogSurfaceOptions::default();
    options.id = Some("checkout-dialog".into());
    options.labelled_by = Some("checkout-title".into());
    options.described_by = Some("checkout-copy".into());
    options.analytics_id = Some("dialog-analytics".into());
    let label = Some("Review your order");
    let surface = apply_surface_options(&open_surface(), &options);
    let attrs = dialog_surface_attributes(&surface, label);
    let html = render_dialog_surface_html(&surface, label, "dlg", "<p>Contents</p>");
    for (key, value) in attrs {
        let needle = format!("{key}=\"{value}\"");
        assert!(html.contains(&needle), "missing `{needle}` in `{html}`");
    }
    assert!(html.contains("aria-label=\"Review your order\""));
}

#[test]
fn dialog_render_is_empty_when_closed_and_skips_blank_labels() {
    let options = DialogSurfaceOptions::default();
    assert_eq!(render_dialog(false, &open_surface(), &options, Some("x"), "dlg", "c"), "");
    let html = render_dialog(true, &open_surface(), &options, Some(""), "dlg", "c");
    assert!(!html.contains("aria-label"));
    assert_eq!(
        dialog_backdrop_attributes("open", true),
        pairs(&[("data-state", "open"), ("data-visible", "true")])
    );
    let known = apply_surface_attributes(&pairs(&[("role", "dialog"), ("data-state", "open"), ("aria-label", "L")]));
    assert_eq!(known, pairs(&[("role", "dialog"), ("data-state", "open"), ("aria-label", "L")]));
}

#[test]
fn click_away_boundary_resolves_automation_ids() {
    let options = ClickAwayBoundaryOptions { id: None, analytics_id: None, automation_id: Some(String::new()) };
    assert_eq!(resolved_automation_id(&options, "rustic-ui::click-away"), "rustic-ui::click-away");
    let telemetry = TelemetryHooks { analytics_id: Some("a".into()), automation_id: Some("b".into()) };
    let merged = merge_boundary_options(&options, &telemetry);
    assert_eq!(merged.analytics_id.as_deref(), Some("a"));
    assert_eq!(merged.automation_id.as_deref(), Some(""));
    let root = pairs(&[("data-rustic-click-away", "active")]);
    let attrs = click_away_root_attributes(&root, "fallback", &ClickAwayBoundaryOptions::default());
    assert_eq!(attrs, pairs(&[("data-rustic-click-away", "active"), ("data-automation-id", "fallback")]));
    let html = render_click_away_boundary_html(&root, &ClickAwayBoundaryOptions::default(), "fallback", "ca", "<p/>");
    assert_eq!(html, "<div class=\"ca\" data-rustic-click-away=\"active\" data-automation-id=\"fallback\"><p/></div>");
    let mut surface = DialogSurfaceOptions::default();
    assert_eq!(dialog_click_away_automation(&surface), "dialog::click-away");
    surface.analytics_id = Some("checkout".into());
    assert_eq!(dialog_click_away_automation(&surface), "dialog::checkout::click-away");
    assert_eq!(drawer_click_away_automation(Some("nav-toggle")), "drawer::nav-toggle::click-away");
    assert_eq!(drawer_click_away_automation(None), "drawer::click-away");
}

#[test]
fn focus_trap_sentinels_carry_kind_suffix() {
    let base = pairs(&[("data-focus-trap", "sentinel")]);
    let attrs = focus_trap_sentinel_attributes(&base, FocusTrapSentinelKind::Start, &FocusTrapSentinelOptions::default(), "dialog");
    assert_eq!(lookup(&attrs, "data-automation-id"), Some("dialog::focus-trap-start"));
    let options = FocusTrapSentinelOptions { automation_prefix: Some("checkout".into()) };
    let html = render_focus_trap_sentinel_html(&base, FocusTrapSentinelKind::End, &options, "dialog", "ft");
    assert_eq!(html, "<span class=\"ft\" data-focus-trap=\"sentinel\" data-automation-id=\"checkout::focus-trap-end\"></span>");
}

#[test]
fn collapsible_pairs_append_automation_id() {
    let base = pairs(&[("aria-expanded", "false"), ("aria-controls", "region")]);
    let html = render_collapsible_trigger_html(&base, &CollapsibleTriggerOptions::default(), "rustic-ui::collapsible-trigger", "tr", "Details");
    assert!(html.starts_with("<button class=\"tr\""));
    assert!(html.contains("data-automation-id=\"rustic-ui::collapsible-trigger\""));
    let options = CollapsibleRegionOptions { id: None, analytics_id: None, automation_id: Some("faq".into()) };
    let region = collapsible_region_attributes(&pairs(&[("data-hidden", "true")]), &options, "fallback");
    assert_eq!(region, pairs(&[("data-hidden", "true"), ("data-automation-id", "faq")]));
}

#[test]
fn render_form_control_merges_helper_markup() {
    let aria = pairs(&[("role", "group")]);
    let html = render_form_control(&FormControlAdapterProps::new(&aria, "fc", "<input />").with_helper_markup("<span>Helper</span>")).html;
    assert!(html.contains("Helper"));
    assert_eq!(html, "<div class=\"fc\" role=\"group\"><input /><span>Helper</span></div>");
}

#[test]
fn render_includes_position_attribute() {
    let aria = pairs(&[("data-adornment-position", "end")]);
    let html = render_input_adornment(&InputAdornmentAdapterProps::new(&aria, "adorn", "$")).html;
    assert!(html.contains("data-adornment-position=\"end\""));
    assert!(html.ends_with(">$</span>"));
}

#[test]
fn render_skeleton_respects_animation() {
    let aria = pairs(&[("aria-busy", "true"), ("data-skeleton-animation", "pulse")]);
    let html = render_skeleton(&SkeletonAdapterProps { aria: &aria, class: "sk" }).html;
    assert!(html.contains("data-skeleton-animation=\"pulse\""));
    assert_eq!(animation_css(SkeletonAnimation::Off), "none");
}

#[test]
fn determinate_mode_updates_dash_offset() {
    let aria = pairs(&[("role", "progressbar"), ("aria-valuenow", "50")]);
    let html = render_circular_progress(&CircularProgressAdapterProps {
        aria: &aria,
        dash_offset: "62.832",
        container_class: "cp",
        indicator_class: "cp-ind",
    })
    .html;
    assert!(html.contains("stroke-dashoffset"));
    assert!(html.contains("stroke-dashoffset: 62.832;"));
    assert!(html.contains("viewBox=\"0 0 48 48\""));
}

#[test]
fn buffer_mode_emits_buffer_variable() {
    let aria = pairs(&[("role", "progressbar")]);
    let html = render_linear_progress(&LinearProgressAdapterProps {
        aria: &aria,
        primary_style: "transform: scaleX(0.25);",
        buffer_style: "--progress-buffer: 75%;",
        container_class: "lp",
        indicator_class: "lp-bar",
        buffer_class: "lp-buffer",
    })
    .html;
    assert!(html.contains("--progress-buffer"));
    assert!(html.contains("data-track=\"primary\""));
    assert!(html.contains("data-track=\"buffer\""));
}

#[test]
fn render_slider_emits_orientation_attribute() {
    let thumb = pairs(&[("role", "slider"), ("aria-valuemin", "0"), ("aria-valuemax", "100"), ("aria-valuenow", "50")]);
    let html = render_slider(&SliderAdapterProps {
        orientation: SliderOrientation::Horizontal,
        value: "50.000",
        disabled: false,
        thumb_aria: &thumb,
        thumb_position: "left: 50.000%; top: 50%;",
        root_class: "sl",
        track_class: "sl-track",
        thumb_class: "sl-thumb",
    })
    .html;
    assert!(html.contains("data-orientation=\"horizontal\""));
    assert!(html.contains("data-role=\"track\""));
    assert!(!html.contains("data-disabled"));
    let disabled = slider_root_attributes(SliderOrientation::Vertical, "1.000", true);
    assert_eq!(disabled, pairs(&[("data-orientation", "vertical"), ("data-value", "1.000"), ("data-disabled", "true")]));
}

fn stepper_classes() -> StepperClasses {
    StepperClasses {
        root: "st".into(),
        container: "st-step".into(),
        trigger_base: "st-trigger".into(),
        label_base: "st-label".into(),
        trigger_pending: "t-pending".into(),
        trigger_active: "t-active".into(),
        trigger_completed: "t-completed".into(),
        trigger_disabled: "t-disabled".into(),
        label_pending: "l-pending".into(),
        label_active: "l-active".into(),
        label_completed: "l-completed".into(),
        label_disabled: "l-disabled".into(),
    }
}

fn stepper_state(statuses: Vec<StepStatus>) -> StepperSnapshot {
    StepperSnapshot {
        steps: statuses
            .into_iter()
            .map(|status| StepSnapshot { status, button_attributes: pairs(&[("type", "button")]) })
            .collect(),
    }
}

#[test]
fn root_attributes_include_automation_and_aria_metadata() {
    let state = stepper_state(vec![StepStatus::Active, StepStatus::Pending, StepStatus::Pending]);
    let classes = stepper_classes();
    let render = render_stepper(&StepperAdapterProps::new(&state, &classes).with_aria_label("Checkout flow"));
    assert!(!render.root_class.is_empty(), "root class should be generated");
    assert_eq!(lookup(&render.root_attributes, "aria-label"), Some("Checkout flow"));
    assert_eq!(lookup(&render.root_attributes, "role"), Some("group"));
    assert_eq!(lookup(&render.root_attributes, "data-step-count"), Some("3"));
    assert_eq!(lookup(&render.root_attributes, "aria-activedescendant"), Some("rustic-stepper-step-0"));
}

#[test]
fn step_triggers_include_status_and_automation_ids() {
    let state = stepper_state(vec![StepStatus::Completed, StepStatus::Active]);
    let classes = stepper_classes();
    let render = render_stepper(&StepperAdapterProps::new(&state, &classes).with_automation_id("provisioning"));
    assert_eq!(render.step_count(), 2);
    let first = &render.steps[0];
    assert_eq!(first.status, StepStatus::Completed);
    assert!(first.automation_id.starts_with("rustic-stepper-provisioning"));
    assert!(first.trigger_attributes.iter().any(|(k, _)| k.starts_with("data-rustic-stepper-step")));
    assert!(first.trigger_attributes.iter().any(|(k, v)| k == "data-status" && v == "completed"));
    assert_eq!(first.trigger_classes, vec!["st-trigger".to_string(), "t-completed".to_string()]);
    assert_eq!(first.automation_data_attribute, automation_data_attr("stepper", &["step", "step-0"]));
}

#[test]
fn adapter_parity_matches_direct_renderer() {
    let state = stepper_state(vec![StepStatus::Completed, StepStatus::Active, StepStatus::Pending]);
    let classes = stepper_classes();
    let base = render_stepper(&StepperAdapterProps::new(&state, &classes));
    let again = render_stepper(&StepperAdapterProps::new(&state, &classes));
    assert_eq!(base.root_attributes, again.root_attributes);
    assert_eq!(base.steps.len(), again.steps.len());
    for (a, b) in base.steps.iter().zip(again.steps.iter()) {
        assert_eq!(a.trigger_attributes, b.trigger_attributes);
        assert_eq!(a.automation_id, b.automation_id);
    }
}

#[test]
fn linear_progression_updates_active_dom_reference() {
    let classes = stepper_classes();
    let initial_state = stepper_state(vec![StepStatus::Active, StepStatus::Pending, StepStatus::Pending]);
    let initial = render_stepper(&StepperAdapterProps::new(&initial_state, &classes));
    let first_active = lookup(&initial.root_attributes, "aria-activedescendant").map(str::to_string).expect("active descendant present");
    let next_state = stepper_state(vec![StepStatus::Completed, StepStatus::Active, StepStatus::Pending]);
    let second = render_stepper(&StepperAdapterProps::new(&next_state, &classes));
    let second_active = lookup(&second.root_attributes, "aria-activedescendant").map(str::to_string).expect("active descendant present");
    assert_ne!(first_active, second_active);
    let done = stepper_state(vec![StepStatus::Completed, StepStatus::Completed]);
    let finished = render_stepper(&StepperAdapterProps::new(&done, &classes));
    assert_eq!(lookup(&finished.root_attributes, "aria-activedescendant"), None);
    assert_eq!(step_status_token(StepStatus::Disabled), "disabled");
}

fn input_state() -> InputSnapshot {
    InputSnapshot {
        value: "updated".into(),
        dirty: true,
        visited: true,
        focused: false,
        errors: vec!["Required".into(), "Unique".into()],
        selection: Some(InputSelection { start: 7, end: 7 }),
    }
}

#[test]
fn analytics_attributes_include_selection_and_status() {
    let state = input_state();
    let attrs = input_attribute_pairs(&state, Some("status"), Some("analytics-1"), "text", "Placeholder", "Label");
    assert_eq!(attr_lookup(&attrs, "data-dirty"), Some("true".into()));
    assert_eq!(attr_lookup(&attrs, "data-visited"), Some("true".into()));
    assert_eq!(attr_lookup(&attrs, "aria-describedby"), Some("status".into()));
    assert_eq!(attr_lookup(&attrs, "data-status-message"), Some("Required\nUnique".into()));
    assert_eq!(attr_lookup(&attrs, "data-selection-start"), Some("7".into()));
    let automation_attr = automation_data_attr("input-base", &["analytics", "id"]);
    assert_eq!(attr_lookup(&attrs, &automation_attr), Some("analytics-1".into()));
    assert_eq!(attr_lookup(&attrs, "aria-invalid"), Some("true".into()));
}

#[test]
fn render_output_produces_html_fragment() {
    let state = InputSnapshot { value: "seed".into(), dirty: false, visited: false, focused: false, errors: vec![], selection: None };
    let config = InputBaseRenderConfig::new(&state, "ib");
    let html = render_input_base(&config).html;
    assert!(html.starts_with("<input"));
    assert!(html.contains("data-component=\""));
    assert!(html.ends_with(" />"));
    assert!(!html.contains("aria-invalid"));
    let analytics = analytics_attributes(&state, None);
    assert_eq!(analytics.len(), 5);
    assert_eq!(bool_token(false), "false");
    assert_eq!(join_messages(&vec!["a".to_string()]), "a");
}

#[test]
fn app_bar_label_height_and_markup() {
    assert_eq!(sanitized_aria_label("Dashboard", "   "), "Dashboard");
    assert_eq!(sanitized_aria_label("Dashboard", "Main"), "Main");
    assert_eq!(app_bar_height(AppBarSize::Large), "80px");
    assert_eq!(automation_dom_id(Some("Top Bar")).as_deref(), Some("rustic-app-bar-top-bar"));
    let props = AppBarProps {
        title: "Home".into(),
        aria_label: "Main".into(),
        color: AppBarColor::Secondary,
        size: AppBarSize::Small,
        automation_id: Some("top".into()),
        analytics_view_id: None,
        analytics_interaction_id: None,
        svg_title_id: None,
    };
    let html = render_app_bar(&props, &pairs(&[("role", "banner"), ("aria-label", "Main")]), "ab");
    assert_eq!(
        html,
        "<header class=\"ab\" role=\"banner\" aria-label=\"Main\" data-component=\"rustic_ui_app-bar\" data-color=\"secondary\" data-size=\"small\" id=\"rustic-app-bar-top\">Home</header>"
    );
}

#[test]
fn popper_and_modal_surface_attributes() {
    let transition = pairs(&[("data-transition", "entering")]);
    let attrs = popper_surface_attributes(PopperPlacement::Top, &transition, &pairs(&[("role", "tooltip")]), "pp");
    assert_eq!(
        attrs,
        pairs(&[("class", "pp"), ("data-placement", "top"), ("data-transition", "entering"), ("role", "tooltip")])
    );
    assert_eq!(placement_to_str(PopperPlacement::End), "end");
    let modal = modal_surface_attributes(&transition, &pairs(&[("aria-modal", "true")]), "md");
    assert_eq!(modal, pairs(&[("class", "md"), ("data-transition", "entering"), ("aria-modal", "true")]));
}

#[test]
fn surface_attributes_include_open_flag() {
    let surface = PopoverSurfaceSnapshot { open: "true".into(), preferred: "bottom".into(), resolved: "bottom".into() };
    let attrs = popover_surface_attributes(&surface, None, "pop");
    assert!(attrs.iter().any(|(k, v)| k == "data-open" && v == "true"));
    let tagged = popover_surface_attributes(&surface, Some("menu"), "pop");
    assert_eq!(lookup(&tagged, "data-analytics-id"), Some("menu"));
    let anchor = themed_anchor_attributes(&PopoverAnchorSnapshot { id: None, placement: "bottom".into() }, "anchor");
    assert_eq!(anchor, pairs(&[("class", "anchor"), ("data-placement", "bottom")]));
}

#[test]
fn themed_anchor_includes_class() {
    let id = automation_id("tooltip", None, &EMPTY_SEGMENTS);
    let attrs = themed_anchor_attributes(&PopoverAnchorSnapshot { id: Some(id), placement: "bottom".into() }, "anchor");
    assert!(attrs.iter().any(|(k, _)| k == "class"));
    assert_eq!(attrs[1], ("id".to_string(), "rustic-tooltip".to_string()));
}

#[test]
fn automation_prefix_is_applied() {
    let id = automation_id("dialog", Some("primary"), &EMPTY_SEGMENTS);
    assert!(id.starts_with(COMPONENT_PREFIX));
    assert_eq!(id, "rustic-dialog-primary");
}

#[test]
fn popper_automation_id_is_namespaced() {
    let id = automation_id("tooltip", Some("primary"), &EMPTY_SEGMENTS);
    assert!(id.starts_with(COMPONENT_PREFIX));
}

#[test]
fn portal_automation_id_is_namespaced() {
    let id = automation_id("menu", Some("primary"), &EMPTY_SEGMENTS);
    assert!(id.starts_with(COMPONENT_PREFIX));
    assert_eq!(id, "rustic-menu-primary");
}
