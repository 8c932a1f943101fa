use rustic_ui_material::container::{render_container, ContainerEvaluation};
use rustic_ui_material::divider::{render_divider, DividerEvaluation};
use rustic_ui_material::grid::{render_grid, GridEvaluation};
use rustic_ui_material::hidden::{render_hidden, HiddenEvaluation};
use rustic_ui_material::image_list::{render_image_list, ImageListEvaluation};
use rustic_ui_material::render_helpers::{
    bool_to_css_flag, css_var, grid_template, normalise_css_token, normalise_spacing_token,
    visibility_to_display, visibility_to_visibility, Breakpoint,
};
use rustic_ui_material::stack::{render_stack, StackEvaluation};

fn container(max: &str, pad: &str) -> ContainerEvaluation {
    ContainerEvaluation { max_width: max.into(), padding_inline: pad.into(), role: "region".into(), fixed: false }
}

#[test]
fn container_renderer_emits_breakpoint_specific_tokens() {
    let evaluations = vec![
        (Breakpoint::Base, container("600px", "16px")),
        (Breakpoint::Sm, container("600px", "16px")),
        (Breakpoint::Md, container("900px", "16px")),
    ];
    let output = render_container(&evaluations);
    assert!(output.css_variables().contains_key("--rustic_ui_container_max_width"));
    assert!(output.css_variables().contains_key("--rustic_ui_container_max_width-md"));
    assert!(output.inline_style().contains("--rustic_ui_container_fixed"));
    assert_eq!(
        output.css_variables().get("--rustic_ui_container_max_width-md").map(String::as_str),
        Some("900px")
    );
}

#[test]
fn container_adapter_delegates_to_shared_renderer() {
    let evaluations = vec![(Breakpoint::Base, container("1200px", "24px"))];
    let base = render_container(&evaluations);
    let again = render_container(&evaluations);
    assert_eq!(base.inline_style(), again.inline_style());
    assert!(base.inline_style().contains("1200px"));
    assert!(base.inline_style().contains("24px"));
}

fn divider(bp: Breakpoint, token: &str, orientation: &str, thickness: &str, inset: &str) -> DividerEvaluation {
    DividerEvaluation {
        breakpoint: bp,
        breakpoint_token: token.into(),
        orientation: orientation.into(),
        thickness: thickness.into(),
        inset: inset.into(),
        role: "separator".into(),
    }
}

#[test]
fn divider_renderer_emits_orientation_and_thickness() {
    let evaluations = vec![
        (Breakpoint::Base, divider(Breakpoint::Base, "xs", "horizontal", "2px", "8px")),
        (Breakpoint::Lg, divider(Breakpoint::Lg, "lg", "vertical", "2px", "8px")),
    ];
    let output = render_divider(&evaluations);
    assert_eq!(
        output.css_variables().get("--rustic_ui_divider_orientation").map(String::as_str),
        Some("horizontal"),
    );
    assert!(output.css_variables().contains_key("--rustic_ui_divider_orientation-lg"));
    assert!(output.inline_style().contains("--rustic_ui_divider_thickness"));
}

#[test]
fn divider_variables_keep_insertion_order() {
    let evaluations = vec![
        (Breakpoint::Base, divider(Breakpoint::Base, "xs", "horizontal", " ", "")),
        (Breakpoint::Lg, divider(Breakpoint::Lg, "lg", "vertical", "3px", "4px")),
    ];
    let output = render_divider(&evaluations);
    let names: Vec<&str> = output.css_variables().entries().iter().map(|(k, _)| k.as_str()).collect();
    assert_eq!(
        names,
        vec![
            "--rustic_ui_divider_orientation",
            "--rustic_ui_divider_thickness",
            "--rustic_ui_divider_inset",
            "--rustic_ui_divider_role",
            "--rustic_ui_divider_active_breakpoint",
            "--rustic_ui_divider_orientation-lg",
            "--rustic_ui_divider_thickness-lg",
            "--rustic_ui_divider_inset-lg",
            "--rustic_ui_divider_role-lg",
        ]
    );
    assert_eq!(output.css_variables().get("--rustic_ui_divider_thickness").map(String::as_str), Some("1px"));
    assert_eq!(output.css_variables().get("--rustic_ui_divider_inset").map(String::as_str), Some("0px"));
    assert!(output
        .inline_style()
        .starts_with("--rustic_ui_divider_orientation: horizontal; --rustic_ui_divider_thickness: 1px;"));
}

#[test]
fn divider_repeated_breakpoint_keeps_first_position() {
    let evaluations = vec![
        (Breakpoint::Base, divider(Breakpoint::Base, "xs", "horizontal", "1px", "0px")),
        (Breakpoint::Base, divider(Breakpoint::Base, "xs", "vertical", "2px", "0px")),
    ];
    let output = render_divider(&evaluations);
    assert_eq!(output.css_variables().len(), 5);
    assert_eq!(output.css_variables().entries()[0].0, "--rustic_ui_divider_orientation");
    assert_eq!(output.css_variables().entries()[0].1, "vertical");
}

#[test]
fn divider_adapter_delegates_to_renderer() {
    let evaluations = vec![(Breakpoint::Base, divider(Breakpoint::Base, "xs", "horizontal", "1px", "0px"))];
    let base = render_divider(&evaluations);
    let again = render_divider(&evaluations);
    assert_eq!(base.inline_style(), again.inline_style());
    assert!(base.inline_style().contains("1px"));
}

fn grid(columns: u16, column_gap: &str, row_gap: &str) -> GridEvaluation {
    GridEvaluation { columns, column_gap: column_gap.into(), row_gap: row_gap.into(), role: "grid".into(), dense: false }
}

#[test]
fn grid_renderer_populates_template_and_gaps() {
    let evaluations = vec![(Breakpoint::Base, grid(2, "1rem", "2rem")), (Breakpoint::Lg, grid(4, "1rem", "2rem"))];
    let output = render_grid(&evaluations);
    assert_eq!(
        output.css_variables().get("--rustic_ui_grid_template").map(String::as_str),
        Some("repeat(2, minmax(0, 1fr))")
    );
    assert!(output.css_variables().contains_key("--rustic_ui_grid_template-lg"));
    assert!(output.inline_style().contains("--rustic_ui_grid_auto_flow"));
}

#[test]
fn adapter_mirrors_shared_renderer() {
    let evaluations = vec![(Breakpoint::Base, grid(3, "8px", "12px"))];
    let base = render_grid(&evaluations);
    let again = render_grid(&evaluations);
    assert_eq!(base.inline_style(), again.inline_style());
    assert!(base.inline_style().contains("8px"));
    assert!(base.inline_style().contains("12px"));
}

fn hidden(bp: Breakpoint, token: &str, is_hidden: bool) -> HiddenEvaluation {
    HiddenEvaluation { breakpoint: bp, breakpoint_token: token.into(), hidden: is_hidden, inert: true, role: "group".into() }
}

#[test]
fn hidden_renderer_serialises_visibility_flags() {
    let evaluations = vec![
        (Breakpoint::Base, hidden(Breakpoint::Base, "xs", false)),
        (Breakpoint::Md, hidden(Breakpoint::Md, "md", true)),
        (Breakpoint::Xl, hidden(Breakpoint::Xl, "xl", false)),
    ];
    let output = render_hidden(&evaluations);
    assert_eq!(
        output.css_variables().get("--rustic_ui_hidden_visibility").map(String::as_str),
        Some("visible"),
    );
    assert!(output.css_variables().contains_key("--rustic_ui_hidden_visibility-md"));
    assert!(output.inline_style().contains("--rustic_ui_hidden_aria_hidden"));
    assert_eq!(
        output.css_variables().get("--rustic_ui_hidden_visibility-md").map(String::as_str),
        Some("hidden"),
    );
}

#[test]
fn hidden_adapter_delegates_to_shared_renderer() {
    let evaluations = vec![(Breakpoint::Base, hidden(Breakpoint::Base, "xs", true))];
    let base = render_hidden(&evaluations);
    let again = render_hidden(&evaluations);
    assert_eq!(base.inline_style(), again.inline_style());
}

fn image_list(bp: Breakpoint, token: &str, columns: u16, gap: &str, row_height: u32) -> ImageListEvaluation {
    ImageListEvaluation {
        breakpoint: bp,
        breakpoint_token: token.into(),
        columns,
        gap: gap.into(),
        row_height,
        role: "list".into(),
        variant: "masonry".into(),
    }
}

#[test]
fn image_list_renderer_emits_columns_and_gap() {
    let evaluations = vec![
        (Breakpoint::Base, image_list(Breakpoint::Base, "xs", 2, "24px", 320)),
        (Breakpoint::Lg, image_list(Breakpoint::Lg, "lg", 6, "24px", 320)),
    ];
    let output = render_image_list(&evaluations);
    assert_eq!(
        output.css_variables().get("--rustic_ui_image_list_columns").map(String::as_str),
        Some("2"),
    );
    assert!(output.css_variables().contains_key("--rustic_ui_image_list_template-lg"));
    assert!(output.inline_style().contains("--rustic_ui_image_list_row_height"));
    assert_eq!(
        output.css_variables().get("--rustic_ui_image_list_row_height").map(String::as_str),
        Some("320px"),
    );
}

#[test]
fn image_list_adapter_delegates_to_renderer() {
    let evaluations = vec![(Breakpoint::Base, image_list(Breakpoint::Base, "xs", 3, "8px", 240))];
    let base = render_image_list(&evaluations);
    let again = render_image_list(&evaluations);
    assert_eq!(base.inline_style(), again.inline_style());
    assert!(base.inline_style().contains("240"));
    assert!(base.inline_style().contains("8px"));
}

#[test]
fn stack_renderer_emits_direction_tokens() {
    let evaluations = vec![
        (
            Breakpoint::Base,
            StackEvaluation {
                direction: "column".into(),
                gap: "8px".into(),
                role: "group".into(),
                divider: Some("1px solid var(--border)".into()),
            },
        ),
        (
            Breakpoint::Md,
            StackEvaluation {
                direction: "row".into(),
                gap: "8px".into(),
                role: "group".into(),
                divider: Some("1px solid var(--border)".into()),
            },
        ),
    ];
    let output = render_stack(&evaluations);
    assert!(output.css_variables().contains_key("--rustic_ui_stack_direction"));
    assert!(output.css_variables().contains_key("--rustic_ui_stack_direction-md"));
    assert!(output.inline_style().contains("--rustic_ui_stack_gap"));
}

#[test]
fn render_helper_tokens_and_flags() {
    assert_eq!(css_var("grid", "row_gap", Breakpoint::Base), "--rustic_ui_grid_row_gap");
    assert_eq!(css_var("grid", "row_gap", Breakpoint::Xxl), "--rustic_ui_grid_row_gap-xxl");
    assert_eq!(normalise_spacing_token("   "), "0px");
    assert_eq!(normalise_spacing_token("4px"), "4px");
    assert_eq!(normalise_css_token("", "100%"), "100%");
    assert_eq!(bool_to_css_flag(true), "true");
    assert_eq!(visibility_to_display(true), "none");
    assert_eq!(visibility_to_visibility(false), "visible");
    assert_eq!(grid_template(3), "repeat(3, minmax(0, 1fr))");
}

#[test]
fn stack_has_every_variable_at_every_breakpoint_with_a_gap() {
    let evaluations = vec![
        (Breakpoint::Base, StackEvaluation { direction: "column".into(), gap: "  ".into(), role: "list".into(), divider: Some(" ".into()) }),
        (Breakpoint::Md, StackEvaluation { direction: "row".into(), gap: "8px".into(), role: "list".into(), divider: None }),
        (Breakpoint::Xl, StackEvaluation { direction: "row".into(), gap: "".into(), role: "list".into(), divider: Some("1px solid".into()) }),
    ];
    let output = render_stack(&evaluations);
    let vars = output.css_variables();
    for suffix in ["", "-md", "-xl"] {
        for token in ["direction", "gap", "role", "divider"] {
            assert!(vars.contains_key(&format!("--rustic_ui_stack_{token}{suffix}")));
        }
        let gap = vars.get(&format!("--rustic_ui_stack_gap{suffix}")).unwrap();
        assert!(!gap.trim().is_empty());
    }
    assert_eq!(vars.get("--rustic_ui_stack_gap").map(String::as_str), Some("0px"));
    assert_eq!(vars.get("--rustic_ui_stack_divider").map(String::as_str), Some("none"));
    assert_eq!(vars.get("--rustic_ui_stack_divider-md").map(String::as_str), Some("none"));
    assert_eq!(vars.get("--rustic_ui_stack_divider-xl").map(String::as_str), Some("1px solid"));
}

#[test]
fn grid_columns_agree_with_template_flow_and_gaps() {
    let mut dense = grid(3, "", " ");
    dense.dense = true;
    let evaluations = vec![(Breakpoint::Base, grid(2, "1rem", "2rem")), (Breakpoint::Sm, dense)];
    let output = render_grid(&evaluations);
    let vars = output.css_variables();
    assert_eq!(vars.get("--rustic_ui_grid_columns").map(String::as_str), Some("2"));
    assert_eq!(vars.get("--rustic_ui_grid_template").map(String::as_str), Some("repeat(2, minmax(0, 1fr))"));
    assert_eq!(vars.get("--rustic_ui_grid_auto_flow").map(String::as_str), Some("row"));
    assert_eq!(vars.get("--rustic_ui_grid_columns-sm").map(String::as_str), Some("3"));
    assert_eq!(vars.get("--rustic_ui_grid_template-sm").map(String::as_str), Some("repeat(3, minmax(0, 1fr))"));
    assert_eq!(vars.get("--rustic_ui_grid_auto_flow-sm").map(String::as_str), Some("row dense"));
    assert_eq!(vars.get("--rustic_ui_grid_column_gap-sm").map(String::as_str), Some("0px"));
    assert_eq!(vars.get("--rustic_ui_grid_row_gap-sm").map(String::as_str), Some("0px"));
}

#[test]
fn hidden_display_visibility_and_aria_agree() {
    let evaluations = vec![
        (Breakpoint::Base, hidden(Breakpoint::Base, "xs", false)),
        (Breakpoint::Md, hidden(Breakpoint::Md, "md", true)),
    ];
    let output = render_hidden(&evaluations);
    let vars = output.css_variables();
    let get = |k: &str| vars.get(k).map(String::as_str);
    assert_eq!(get("--rustic_ui_hidden_display"), Some("revert-layer"));
    assert_eq!(get("--rustic_ui_hidden_visibility"), Some("visible"));
    assert_eq!(get("--rustic_ui_hidden_aria_hidden"), Some("false"));
    assert_eq!(get("--rustic_ui_hidden_display-md"), Some("none"));
    assert_eq!(get("--rustic_ui_hidden_visibility-md"), Some("hidden"));
    assert_eq!(get("--rustic_ui_hidden_aria_hidden-md"), Some("true"));
}
