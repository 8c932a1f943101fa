//! Material Design rendering logic: automation selectors, attribute maps and
//! deterministic markup for themed components.

pub mod text;
pub mod attr_map;
pub mod insertion_map;
pub mod style_helpers;
pub mod selector_equivalence;
pub mod markup;
pub mod render_helpers;
pub mod responsive_lookup;
pub mod stack;
pub mod grid;
pub mod container;
pub mod divider;
pub mod hidden;
pub mod image_list;
pub mod accordion;
pub mod avatar;
pub mod badge;
pub mod paper;
pub mod landmark;
pub mod link;
pub mod alert;
pub mod backdrop;
pub mod bottom_navigation;
pub mod breadcrumbs;
pub mod pagination;
pub mod speed_dial;
pub mod list;
pub mod select;
pub mod rating;
pub mod selection_control;
pub mod telemetry;
pub mod payload;
pub mod descriptor;
pub mod interaction;
pub mod checkbox;
pub mod switch;
pub mod radio;
pub mod dialog;
pub mod click_away;
pub mod focus_trap;
pub mod collapsible;
pub mod form_control;
pub mod input_adornment;
pub mod skeleton;
pub mod circular_progress;
pub mod linear_progress;
pub mod slider;
pub mod stepper;
pub mod input_base;
pub mod input_events;
pub mod app_bar;
pub mod card;
pub mod popper;
pub mod modal;
pub mod popover;
