//! Material radio group: the group descriptor built from the headless radio
//! state, its snapshots and its markup.
//!
//! The option names, orientation and ARIA pairs come from the headless radio
//! group state. Every option carries its position as `data-index`; the group
//! carries `data-orientation`; telemetry identifiers are added to the group
//! and to every option where they are not present yet.

use vstd::prelude::*;

use crate::attr_map::{clone_attrs, last_value, last_value_or, lookup_last, opt_seq, pairs_view, value_or};
use crate::descriptor::{
    apply_group_telemetry, apply_option_telemetry, option_parts, radio_group_html,
    render_radio_group_html, telemetry_merged, OptionParts, RadioGroupDescriptor,
    RadioOptionDescriptor, ToggleControlDescriptor,
};
use crate::markup::themed_pairs;
use crate::telemetry::{clone_opt, opt_text, TelemetryContext, TelemetryHooks};
use crate::text::{decimal, to_owned_string, usize_to_string};

verus! {

/// Layout direction of a radio group.
#[derive(Debug, Clone, Copy, PartialEq, Eq, Structural)]
pub enum RadioOrientation {
    Horizontal,
    Vertical,
}

/// `horizontal` or `vertical`.
pub open spec fn orientation_text(o: RadioOrientation) -> Seq<char> {
    match o {
        RadioOrientation::Horizontal => "horizontal"@,
        RadioOrientation::Vertical => "vertical"@,
    }
}

/// The name of an orientation.
pub fn orientation_value(o: RadioOrientation) -> (r: &'static str)
    ensures
        r@ == orientation_text(o),
{
    match o {
        RadioOrientation::Horizontal => "horizontal",
        RadioOrientation::Vertical => "vertical",
    }
}

/// What the renderer reads of one option of the headless radio state.
#[derive(Debug, Clone)]
pub struct RadioOptionState {
    /// The option's name.
    pub name: String,
    /// ARIA pairs of the option.
    pub aria: Vec<(String, String)>,
}

/// What the renderer reads from the headless radio group state.
#[derive(Debug, Clone)]
pub struct RadioGroupSnapshot {
    /// The options, in order.
    pub options: Vec<RadioOptionState>,
    /// Layout direction.
    pub orientation: RadioOrientation,
    /// ARIA pairs of the group container.
    pub group_aria: Vec<(String, String)>,
}

/// The option names, in order.
pub open spec fn option_names(state: RadioGroupSnapshot) -> Seq<Seq<char>> {
    Seq::new(state.options@.len(), |i: int| state.options@[i].name@)
}

/// Props of a radio group.
#[derive(Debug, Clone)]
pub struct RadioGroupProps {
    /// Custom labels by position; where a position has none, the option's
    /// name is shown.
    pub option_labels: Vec<String>,
    /// Analytics and automation identifiers.
    pub telemetry: TelemetryHooks,
}

impl RadioGroupProps {
    /// Props with the given labels and no telemetry identifiers.
    pub fn new(option_labels: Vec<String>) -> (r: Self)
        ensures
            r.option_labels@ == option_labels@,
            r.telemetry.analytics_id is None,
            r.telemetry.automation_id is None,
    {
        RadioGroupProps { option_labels, telemetry: TelemetryHooks::none() }
    }

    /// Props labelling each option with its name.
    pub fn from_state(state: &RadioGroupSnapshot) -> (r: Self)
        ensures
            r.option_labels@.len() == state.options@.len(),
            forall|i: int| 0 <= i < state.options@.len() ==> #[trigger] r.option_labels@[i]@ == state.options@[i].name@,
            r.telemetry.analytics_id is None,
            r.telemetry.automation_id is None,
    {
        let mut labels: Vec<String> = Vec::new();
        let n = state.options.len();
        let mut i: usize = 0;
        while i < n
            invariant
                n == state.options@.len(),
                i <= n,
                labels@.len() == i,
                forall|j: int| 0 <= j < i ==> #[trigger] labels@[j]@ == state.options@[j].name@,
            decreases n - i,
        {
            labels.push(state.options[i].name.clone());
            i = i + 1;
        }
        RadioGroupProps { option_labels: labels, telemetry: TelemetryHooks::none() }
    }

    /// The props with their telemetry replaced.
    pub fn with_telemetry(self, telemetry: TelemetryHooks) -> (r: Self)
        ensures
            r.option_labels@ == self.option_labels@,
            r.telemetry == telemetry,
    {
        let mut s = self;
        s.telemetry = telemetry;
        s
    }
}

/// The label shown for option `i`: the custom label at `i` when there is one,
/// otherwise the option's name.
pub open spec fn label_at(labels: Seq<String>, names: Seq<Seq<char>>, i: int) -> Seq<char> {
    if i < labels.len() {
        labels[i]@
    } else {
        names[i]
    }
}

/// The group pairs: the state's ARIA pairs, `data-orientation`, then the
/// telemetry identifiers.
pub open spec fn group_pairs(state: RadioGroupSnapshot, telemetry: TelemetryHooks) -> Seq<
    (Seq<char>, Seq<char>),
> {
    telemetry_merged(
        pairs_view(state.group_aria@).push(("data-orientation"@, orientation_text(state.orientation))),
        opt_text(telemetry.analytics_id),
        opt_text(telemetry.automation_id),
    )
}

/// The pairs of option `i`: its ARIA pairs, `data-index`, then the telemetry
/// identifiers.
pub open spec fn option_pairs(state: RadioGroupSnapshot, telemetry: TelemetryHooks, i: int) -> Seq<
    (Seq<char>, Seq<char>),
> {
    telemetry_merged(
        pairs_view(state.options@[i].aria@).push(("data-index"@, decimal(i as nat))),
        opt_text(telemetry.analytics_id),
        opt_text(telemetry.automation_id),
    )
}

/// Label, class and pairs of every option of the group.
pub open spec fn group_options(
    props: RadioGroupProps,
    telemetry: TelemetryHooks,
    state: RadioGroupSnapshot,
    option_class: Seq<char>,
) -> Seq<OptionParts> {
    Seq::new(
        state.options@.len(),
        |i: int|
            (label_at(props.option_labels@, option_names(state), i), option_class, option_pairs(state, telemetry, i)),
    )
}

/// Builds the group descriptor: the group container, then one option per
/// option of the state, in order.
pub fn build_descriptor(
    props: &RadioGroupProps,
    telemetry: &TelemetryHooks,
    state: &RadioGroupSnapshot,
    group_class: &str,
    option_class: &str,
) -> (r: RadioGroupDescriptor)
    ensures
        r.class_view() == group_class@,
        r.group_pairs() == group_pairs(*state, *telemetry),
        option_parts(r.options_view()) == group_options(*props, *telemetry, *state, option_class@),
{
    let descriptor = RadioGroupDescriptor::new(group_class).with_group_attributes(&state.group_aria).group_attribute(
        "data-orientation",
        orientation_value(state.orientation),
    );
    let mut descriptor = apply_group_telemetry(descriptor, telemetry);
    let ghost target = group_options(*props, *telemetry, *state, option_class@);
    let n = state.options.len();
    let mut i: usize = 0;
    while i < n
        invariant
            n == state.options@.len(),
            i <= n,
            target == group_options(*props, *telemetry, *state, option_class@),
            descriptor.class_view() == group_class@,
            descriptor.group_pairs() == group_pairs(*state, *telemetry),
            option_parts(descriptor.options_view()) == target.subrange(0, i as int),
        decreases n - i,
    {
        let label: &str = if i < props.option_labels.len() {
            props.option_labels[i].as_str()
        } else {
            state.options[i].name.as_str()
        };
        let index = usize_to_string(i);
        let option = ToggleControlDescriptor::new(label, option_class).with_attributes(
            &state.options[i].aria,
        ).attribute("data-index", index.as_str());
        let option = apply_option_telemetry(option, telemetry);
        let ghost before = descriptor.options_view();
        assert(option_parts(before).len() == before.len());
        assert(before.len() == i);
        descriptor = descriptor.option(option);
        assert(option_parts(descriptor.options_view()) =~= target.subrange(0, i + 1)) by {
            assert(option_parts(before) == target.subrange(0, i as int));
            assert(descriptor.options_view() == before.push(option));
            assert forall|j: int| 0 <= j < i implies option_parts(descriptor.options_view())[j]
                == target[j] by {
                assert(descriptor.options_view()[j] == before[j]);
                assert(option_parts(before)[j] == target.subrange(0, i as int)[j]);
            }
        }
        i = i + 1;
    }
    assert(target.subrange(0, n as int) =~= target);
    descriptor
}

/// Serialises the group as `<div attrs>` followed by each option's `<span>`
/// markup and `</div>`.
pub fn render_html(props: &RadioGroupProps, state: &RadioGroupSnapshot, group_class: &str, option_class: &str) -> (r:
    String)
    ensures
        r@ == radio_group_html(
            group_class@,
            group_pairs(*state, props.telemetry),
            group_options(*props, props.telemetry, *state, option_class@),
        ),
{
    let descriptor = build_descriptor(props, &props.telemetry, state, group_class, option_class);
    render_radio_group_html(&descriptor)
}

/// Values an adapter reads off an option descriptor; for each key the last
/// pair of the themed list wins, with a default where none is present.
#[derive(Debug, Clone)]
pub struct RadioOptionSnapshot {
    pub label: String,
    pub themed_attributes: Vec<(String, String)>,
    pub class: String,
    pub role: String,
    pub aria_checked: String,
    pub aria_disabled: Option<String>,
    pub tabindex: String,
    pub data_checked: String,
    pub data_focus_visible: String,
    pub data_index: String,
    pub analytics_id: Option<String>,
    pub automation_id: Option<String>,
}

/// `r` is the snapshot of an option with this label and themed list.
pub open spec fn radio_option_snapshot_of(
    r: RadioOptionSnapshot,
    label: Seq<char>,
    themed: Seq<(Seq<char>, Seq<char>)>,
) -> bool {
    &&& r.label@ == label
    &&& pairs_view(r.themed_attributes@) == themed
    &&& r.class@ == value_or(lookup_last(themed, "class"@), Seq::empty())
    &&& r.role@ == value_or(lookup_last(themed, "role"@), "radio"@)
    &&& r.aria_checked@ == value_or(lookup_last(themed, "aria-checked"@), "false"@)
    &&& opt_seq(r.aria_disabled) == lookup_last(themed, "aria-disabled"@)
    &&& r.tabindex@ == value_or(lookup_last(themed, "tabindex"@), "0"@)
    &&& r.data_checked@ == value_or(lookup_last(themed, "data-checked"@), "false"@)
    &&& r.data_focus_visible@ == value_or(lookup_last(themed, "data-focus-visible"@), "false"@)
    &&& r.data_index@ == value_or(lookup_last(themed, "data-index"@), "0"@)
    &&& opt_seq(r.analytics_id) == lookup_last(themed, "data-rustic-analytics-id"@)
    &&& opt_seq(r.automation_id) == lookup_last(themed, "data-automation-id"@)
}

impl RadioOptionSnapshot {
    /// Reads the snapshot off an option descriptor: for each key the last
    /// pair of the themed list wins. Defaults: empty class, role `radio`,
    /// `aria-checked` `false`, tabindex `0`, data flags `false`, index `0`.
    pub fn from_descriptor(descriptor: &RadioOptionDescriptor) -> (r: Self)
        ensures
            radio_option_snapshot_of(r, descriptor.label_view(), descriptor.themed()),
    {
        let themed = descriptor.themed_attributes();
        proof {
            reveal_strlit("");
        }
        assert(""@ =~= Seq::<char>::empty());
        RadioOptionSnapshot {
            label: to_owned_string(descriptor.label()),
            class: last_value_or(&themed, "class", ""),
            role: last_value_or(&themed, "role", "radio"),
            aria_checked: last_value_or(&themed, "aria-checked", "false"),
            aria_disabled: last_value(&themed, "aria-disabled"),
            tabindex: last_value_or(&themed, "tabindex", "0"),
            data_checked: last_value_or(&themed, "data-checked", "false"),
            data_focus_visible: last_value_or(&themed, "data-focus-visible", "false"),
            data_index: last_value_or(&themed, "data-index", "0"),
            analytics_id: last_value(&themed, "data-rustic-analytics-id"),
            automation_id: last_value(&themed, "data-automation-id"),
            themed_attributes: themed,
        }
    }
}

/// `radio-group::<n>-options`.
pub open spec fn group_label_text(n: nat) -> Seq<char> {
    "radio-group::"@ + decimal(n) + "-options"@
}

/// Values an adapter reads off a group descriptor.
#[derive(Debug, Clone)]
pub struct RadioGroupDescriptorSnapshot {
    pub label: String,
    pub group_thematic_attributes: Vec<(String, String)>,
    pub class: String,
    pub role: String,
    pub aria_orientation: String,
    pub aria_disabled: Option<String>,
    pub data_orientation: String,
    pub analytics_id: Option<String>,
    pub automation_id: Option<String>,
    pub options: Vec<RadioOptionSnapshot>,
}

/// `r` is the snapshot of a radio group descriptor.
pub open spec fn radio_group_snapshot_of(r: RadioGroupDescriptorSnapshot, d: RadioGroupDescriptor) -> bool {
    let themed = themed_pairs(d.class_view(), d.group_pairs());
    &&& r.label@ == group_label_text(d.options_view().len())
    &&& pairs_view(r.group_thematic_attributes@) == themed
    &&& r.class@ == value_or(lookup_last(themed, "class"@), Seq::empty())
    &&& r.role@ == value_or(lookup_last(themed, "role"@), "radiogroup"@)
    &&& r.aria_orientation@ == value_or(lookup_last(themed, "aria-orientation"@), "horizontal"@)
    &&& opt_seq(r.aria_disabled) == lookup_last(themed, "aria-disabled"@)
    &&& r.data_orientation@ == value_or(lookup_last(themed, "data-orientation"@), "horizontal"@)
    &&& opt_seq(r.analytics_id) == lookup_last(themed, "data-rustic-analytics-id"@)
    &&& opt_seq(r.automation_id) == lookup_last(themed, "data-automation-id"@)
    &&& r.options@.len() == d.options_view().len()
    &&& forall|i: int|
        0 <= i < r.options@.len() ==> radio_option_snapshot_of(
            #[trigger] r.options@[i],
            d.options_view()[i].label_view(),
            d.options_view()[i].themed(),
        )
}

impl RadioGroupDescriptorSnapshot {
    /// Reads the snapshot off a group descriptor: the group's values (last
    /// pair wins; defaults role `radiogroup`, orientation `horizontal`), one
    /// option snapshot per option, and the label
    /// `radio-group::<option count>-options`.
    pub fn from_descriptor(descriptor: &RadioGroupDescriptor) -> (r: Self)
        ensures
            radio_group_snapshot_of(r, *descriptor),
    {
        let themed = descriptor.group_thematic_attributes();
        proof {
            reveal_strlit("");
        }
        assert(""@ =~= Seq::<char>::empty());
        let opts = descriptor.options();
        let n = opts.len();
        let mut options: Vec<RadioOptionSnapshot> = Vec::new();
        let mut i: usize = 0;
        while i < n
            invariant
                n == opts@.len(),
                opts@ == descriptor.options_view(),
                i <= n,
                options@.len() == i,
                forall|j: int|
                    0 <= j < i ==> radio_option_snapshot_of(
                        #[trigger] options@[j],
                        opts@[j].label_view(),
                        opts@[j].themed(),
                    ),
            decreases n - i,
        {
            options.push(RadioOptionSnapshot::from_descriptor(&opts[i]));
            i = i + 1;
        }
        let mut label = to_owned_string("radio-group::");
        let count = usize_to_string(n);
        label.append(count.as_str());
        label.append("-options");
        RadioGroupDescriptorSnapshot {
            label,
            class: last_value_or(&themed, "class", ""),
            role: last_value_or(&themed, "role", "radiogroup"),
            aria_orientation: last_value_or(&themed, "aria-orientation", "horizontal"),
            aria_disabled: last_value(&themed, "aria-disabled"),
            data_orientation: last_value_or(&themed, "data-orientation", "horizontal"),
            analytics_id: last_value(&themed, "data-rustic-analytics-id"),
            automation_id: last_value(&themed, "data-automation-id"),
            group_thematic_attributes: themed,
            options,
        }
    }
}

/// The group descriptor, its snapshot and the telemetry context of one
/// render of `component`.
pub fn descriptor_with_context(
    component: &str,
    props: &RadioGroupProps,
    telemetry: &TelemetryHooks,
    state: &RadioGroupSnapshot,
    group_class: &str,
    option_class: &str,
) -> (r: (TelemetryContext, RadioGroupDescriptor, RadioGroupDescriptorSnapshot))
    ensures
        r.1.class_view() == group_class@,
        r.1.group_pairs() == group_pairs(*state, *telemetry),
        option_parts(r.1.options_view()) == group_options(*props, *telemetry, *state, option_class@),
        radio_group_snapshot_of(r.2, r.1),
        r.0.component@ == component@,
        opt_text(r.0.analytics_id) == opt_text(telemetry.analytics_id),
        opt_text(r.0.automation_id) == opt_text(telemetry.automation_id),
        opt_text(r.0.descriptor_label) == Some(group_label_text(r.1.options_view().len())),
        pairs_view(r.0.descriptor_attributes@) == themed_pairs(r.1.class_view(), r.1.group_pairs()),
{
    let descriptor = build_descriptor(props, telemetry, state, group_class, option_class);
    let snapshot = RadioGroupDescriptorSnapshot::from_descriptor(&descriptor);
    let context = TelemetryContext::new(component).with_analytics(clone_opt(&telemetry.analytics_id)).with_automation(
        clone_opt(&telemetry.automation_id),
    ).with_descriptor_metadata(snapshot.label.clone(), clone_attrs(&snapshot.group_thematic_attributes));
    (context, descriptor, snapshot)
}

/// The orientation a token names.
pub open spec fn orientation_named(token: Seq<char>) -> Option<RadioOrientation> {
    if token == "horizontal"@ {
        Some(RadioOrientation::Horizontal)
    } else if token == "vertical"@ {
        Some(RadioOrientation::Vertical)
    } else {
        None
    }
}

/// A orientation's token reads back as that orientation: `horizontal` names Horizontal, `vertical` names Vertical.
pub proof fn law_orientation_round_trip(value: RadioOrientation)
    ensures
        orientation_named(orientation_text(value)) == Some(value),
{
    let t0 = "horizontal"@;
    let t1 = "vertical"@;
    reveal_strlit("horizontal");
    reveal_strlit("vertical");
    assert(t0.len() != t1.len() || t0[0] != t1[0]);
}

/// Distinct orientations have distinct tokens.
pub proof fn law_orientations_distinct(a: RadioOrientation, b: RadioOrientation)
    requires
        a != b,
    ensures
        orientation_text(a) != orientation_text(b),
{
    law_orientation_round_trip(a);
    law_orientation_round_trip(b);
}

} // verus!
