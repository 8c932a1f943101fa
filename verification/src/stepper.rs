//! Stepper renderer: the root attributes of a step list and, for every step,
//! its classes, trigger attributes and automation identifiers.
//!
//! Step statuses and each step button's ARIA pairs come from the headless
//! stepper state; the scoped classes come from the styled engine. The root's
//! `aria-activedescendant` points at the automation id of the last active
//! step, if any.

use vstd::prelude::*;

use crate::attr_map::{clone_attrs, pairs_view, push_attr, push_attr_str};
use crate::style_helpers::{
    automation_data_attr, automation_data_attr_text, automation_id, automation_id_text,
    component_marker, component_marker_text, strs_view, EMPTY_SEGMENTS,
};
use crate::text::{decimal, to_owned_string, usize_to_string};

verus! {

/// Status of one step.
#[derive(Debug, Clone, Copy, PartialEq, Eq, Structural)]
pub enum StepStatus {
    Pending,
    Active,
    Completed,
    Disabled,
}

/// `pending`, `active`, `completed` or `disabled`.
pub open spec fn status_token_text(s: StepStatus) -> Seq<char> {
    match s {
        StepStatus::Pending => "pending"@,
        StepStatus::Active => "active"@,
        StepStatus::Completed => "completed"@,
        StepStatus::Disabled => "disabled"@,
    }
}

/// The `data-status` token of a status.
pub fn step_status_token(s: StepStatus) -> (r: String)
    ensures
        r@ == status_token_text(s),
{
    match s {
        StepStatus::Pending => to_owned_string("pending"),
        StepStatus::Active => to_owned_string("active"),
        StepStatus::Completed => to_owned_string("completed"),
        StepStatus::Disabled => to_owned_string("disabled"),
    }
}

/// What the renderer reads of one step of the headless stepper state.
#[derive(Debug, Clone)]
pub struct StepSnapshot {
    /// Status of the step.
    pub status: StepStatus,
    /// ARIA pairs of the step button.
    pub button_attributes: Vec<(String, String)>,
}

/// What the renderer reads from the headless stepper state.
#[derive(Debug, Clone)]
pub struct StepperSnapshot {
    /// The steps, in order.
    pub steps: Vec<StepSnapshot>,
}

/// The status of each step, in order.
pub open spec fn step_statuses(s: StepperSnapshot) -> Seq<StepStatus> {
    Seq::new(s.steps@.len(), |i: int| s.steps@[i].status)
}

/// Scoped classes of the stepper styles.
#[derive(Debug, Clone)]
pub struct StepperClasses {
    pub root: String,
    pub container: String,
    pub trigger_base: String,
    pub label_base: String,
    pub trigger_pending: String,
    pub trigger_active: String,
    pub trigger_completed: String,
    pub trigger_disabled: String,
    pub label_pending: String,
    pub label_active: String,
    pub label_completed: String,
    pub label_disabled: String,
}

/// The trigger class of a status.
pub open spec fn trigger_status_class(c: StepperClasses, s: StepStatus) -> Seq<char> {
    match s {
        StepStatus::Pending => c.trigger_pending@,
        StepStatus::Active => c.trigger_active@,
        StepStatus::Completed => c.trigger_completed@,
        StepStatus::Disabled => c.trigger_disabled@,
    }
}

/// The label class of a status.
pub open spec fn label_status_class(c: StepperClasses, s: StepStatus) -> Seq<char> {
    match s {
        StepStatus::Pending => c.label_pending@,
        StepStatus::Active => c.label_active@,
        StepStatus::Completed => c.label_completed@,
        StepStatus::Disabled => c.label_disabled@,
    }
}

fn status_classes(c: &StepperClasses, s: StepStatus) -> (r: (String, String))
    ensures
        r.0@ == trigger_status_class(*c, s),
        r.1@ == label_status_class(*c, s),
{
    match s {
        StepStatus::Pending => (c.trigger_pending.clone(), c.label_pending.clone()),
        StepStatus::Active => (c.trigger_active.clone(), c.label_active.clone()),
        StepStatus::Completed => (c.trigger_completed.clone(), c.label_completed.clone()),
        StepStatus::Disabled => (c.trigger_disabled.clone(), c.label_disabled.clone()),
    }
}

/// Input of [`render_stepper`].
#[derive(Debug, Clone, Copy)]
pub struct StepperAdapterProps<'a> {
    pub state: &'a StepperSnapshot,
    pub classes: &'a StepperClasses,
    /// Caller's automation id, woven into every generated id.
    pub automation_id: Option<&'a str>,
    /// Accessible label of the step list.
    pub aria_label: Option<&'a str>,
}

impl<'a> StepperAdapterProps<'a> {
    /// Props without automation id or label.
    pub fn new(state: &'a StepperSnapshot, classes: &'a StepperClasses) -> (r: Self)
        ensures
            r.state == state,
            r.classes == classes,
            r.automation_id is None,
            r.aria_label is None,
    {
        StepperAdapterProps { state, classes, automation_id: None, aria_label: None }
    }

    /// The props with an automation id.
    pub fn with_automation_id(self, automation_id: &'a str) -> (r: Self)
        ensures
            r == (StepperAdapterProps { automation_id: Some(automation_id), ..self }),
    {
        StepperAdapterProps { automation_id: Some(automation_id), ..self }
    }

    /// The props with an accessible label.
    pub fn with_aria_label(self, aria_label: &'a str) -> (r: Self)
        ensures
            r == (StepperAdapterProps { aria_label: Some(aria_label), ..self }),
    {
        StepperAdapterProps { aria_label: Some(aria_label), ..self }
    }
}

/// One rendered step.
#[derive(Debug, Clone)]
pub struct StepRenderStep {
    pub index: usize,
    pub status: StepStatus,
    pub container_class: String,
    /// Base class, then the status class.
    pub trigger_classes: Vec<String>,
    /// Base class, then the status class.
    pub label_classes: Vec<String>,
    /// Button ARIA pairs, then `id`, the automation hook and `data-status`.
    pub trigger_attributes: Vec<(String, String)>,
    pub automation_id: String,
    pub automation_data_attribute: String,
}

/// Rendered stepper.
#[derive(Debug, Clone)]
pub struct StepperRenderOutput {
    pub root_class: String,
    pub root_attributes: Vec<(String, String)>,
    pub steps: Vec<StepRenderStep>,
}

impl StepperRenderOutput {
    /// Number of rendered steps.
    pub fn step_count(&self) -> (r: usize)
        ensures
            r == self.steps@.len(),
    {
        self.steps.len()
    }
}

/// `step-<index>`.
pub open spec fn step_segment(i: nat) -> Seq<char> {
    "step-"@ + decimal(i)
}

/// DOM id of step `i`: `rustic-stepper[-<id>]-step-<i>`.
pub open spec fn step_dom_id(user: Option<Seq<char>>, i: nat) -> Seq<char> {
    automation_id_text("stepper"@, user, seq![step_segment(i)])
}

/// Automation hook of step `i`: `data-rustic-stepper-step-step-<i>`.
pub open spec fn step_hook(i: nat) -> Seq<char> {
    automation_data_attr_text("stepper"@, seq!["step"@, step_segment(i)])
}

/// Index of the last active step among the first `n` statuses.
pub open spec fn last_active(statuses: Seq<StepStatus>) -> Option<int>
    decreases statuses.len(),
{
    if statuses.len() == 0 {
        None
    } else if statuses.last() == StepStatus::Active {
        Some(statuses.len() - 1)
    } else {
        last_active(statuses.drop_last())
    }
}

/// The root attributes: `id`, the root hook, `data-component`,
/// `data-step-count`, `role`, `aria-roledescription`, then `aria-label` when
/// a label is given and `aria-activedescendant` when a step is active.
pub open spec fn stepper_root_pairs(
    user: Option<Seq<char>>,
    label: Option<Seq<char>>,
    statuses: Seq<StepStatus>,
) -> Seq<(Seq<char>, Seq<char>)> {
    let base = seq![
        ("id"@, automation_id_text("stepper"@, user, Seq::empty())),
        (automation_data_attr_text("stepper"@, seq!["root"@]), "container"@),
        ("data-component"@, component_marker_text("stepper"@)),
        ("data-step-count"@, decimal(statuses.len())),
        ("role"@, "group"@),
        ("aria-roledescription"@, "progress steps"@),
    ];
    let labelled = match label {
        Some(l) => base.push(("aria-label"@, l)),
        None => base,
    };
    match last_active(statuses) {
        Some(i) => labelled.push(("aria-activedescendant"@, step_dom_id(user, i as nat))),
        None => labelled,
    }
}

/// Step `i` is rendered as the props say.
pub open spec fn step_rendered(step: StepRenderStep, props: StepperAdapterProps, i: int) -> bool {
    let user = match props.automation_id {
        Some(id) => Some(id@),
        None => None,
    };
    let status = props.state.steps@[i].status;
    &&& step.index == i
    &&& step.status == status
    &&& step.container_class@ == props.classes.container@
    &&& step.trigger_classes@.len() == 2
    &&& step.trigger_classes@[0]@ == props.classes.trigger_base@
    &&& step.trigger_classes@[1]@ == trigger_status_class(*props.classes, status)
    &&& step.label_classes@.len() == 2
    &&& step.label_classes@[0]@ == props.classes.label_base@
    &&& step.label_classes@[1]@ == label_status_class(*props.classes, status)
    &&& step.automation_id@ == step_dom_id(user, i as nat)
    &&& step.automation_data_attribute@ == step_hook(i as nat)
    &&& pairs_view(step.trigger_attributes@) == pairs_view(props.state.steps@[i].button_attributes@) + seq![
        ("id"@, step_dom_id(user, i as nat)),
        (step_hook(i as nat), "trigger"@),
        ("data-status"@, status_token_text(status)),
    ]
}

fn render_step(props: &StepperAdapterProps, i: usize) -> (r: StepRenderStep)
    requires
        i < props.state.steps@.len(),
    ensures
        step_rendered(r, *props, i as int),
{
    let ghost user = match props.automation_id {
        Some(id) => Some(id@),
        None => None,
    };
    let status = props.state.steps[i].status;
    let (trigger_status, label_status) = status_classes(props.classes, status);
    let mut segment = to_owned_string("step-");
    let index_text = usize_to_string(i);
    segment.append(index_text.as_str());
    let id_segments: [&str; 1] = [segment.as_str()];
    assert(strs_view(id_segments@) =~= seq![step_segment(i as nat)]);
    let step_id = automation_id("stepper", props.automation_id, &id_segments);
    let hook_segments: [&str; 2] = ["step", segment.as_str()];
    assert(strs_view(hook_segments@) =~= seq!["step"@, step_segment(i as nat)]);
    let hook = automation_data_attr("stepper", &hook_segments);
    let mut trigger_attributes = clone_attrs(&props.state.steps[i].button_attributes);
    let ghost base = pairs_view(trigger_attributes@);
    push_attr(&mut trigger_attributes, to_owned_string("id"), step_id.clone());
    push_attr(&mut trigger_attributes, hook.clone(), to_owned_string("trigger"));
    push_attr(&mut trigger_attributes, to_owned_string("data-status"), step_status_token(status));
    assert(pairs_view(trigger_attributes@) =~= base + seq![
        ("id"@, step_dom_id(user, i as nat)),
        (step_hook(i as nat), "trigger"@),
        ("data-status"@, status_token_text(status)),
    ]);
    let mut trigger_classes: Vec<String> = Vec::new();
    trigger_classes.push(props.classes.trigger_base.clone());
    trigger_classes.push(trigger_status);
    let mut label_classes: Vec<String> = Vec::new();
    label_classes.push(props.classes.label_base.clone());
    label_classes.push(label_status);
    StepRenderStep {
        index: i,
        status,
        container_class: props.classes.container.clone(),
        trigger_classes,
        label_classes,
        trigger_attributes,
        automation_id: step_id,
        automation_data_attribute: hook,
    }
}

/// Renders the stepper.
pub fn render_stepper(props: &StepperAdapterProps) -> (r: StepperRenderOutput)
    ensures
        r.root_class@ == props.classes.root@,
        pairs_view(r.root_attributes@) == stepper_root_pairs(
            match props.automation_id {
                Some(id) => Some(id@),
                None => None,
            },
            match props.aria_label {
                Some(l) => Some(l@),
                None => None,
            },
            step_statuses(*props.state),
        ),
        r.steps@.len() == props.state.steps@.len(),
        forall|i: int| 0 <= i < r.steps@.len() ==> step_rendered(#[trigger] r.steps@[i], *props, i),
{
    let ghost user = match props.automation_id {
        Some(id) => Some(id@),
        None => None,
    };
    let ghost label = match props.aria_label {
        Some(l) => Some(l@),
        None => None,
    };
    let ghost statuses = step_statuses(*props.state);
    let n = props.state.steps.len();
    let mut root_attributes: Vec<(String, String)> = Vec::new();
    assert(strs_view(EMPTY_SEGMENTS@) =~= Seq::<Seq<char>>::empty());
    push_attr(&mut root_attributes, to_owned_string("id"), automation_id("stepper", props.automation_id, &EMPTY_SEGMENTS));
    let root_segments: [&str; 1] = ["root"];
    assert(strs_view(root_segments@) =~= seq!["root"@]);
    push_attr(&mut root_attributes, automation_data_attr("stepper", &root_segments), to_owned_string("container"));
    push_attr(&mut root_attributes, to_owned_string("data-component"), component_marker("stepper"));
    push_attr(&mut root_attributes, to_owned_string("data-step-count"), usize_to_string(n));
    push_attr_str(&mut root_attributes, "role", "group");
    push_attr_str(&mut root_attributes, "aria-roledescription", "progress steps");
    if let Some(l) = props.aria_label {
        push_attr_str(&mut root_attributes, "aria-label", l);
    }
    let ghost labelled = pairs_view(root_attributes@);
    assert(labelled =~= {
        let base = seq![
            ("id"@, automation_id_text("stepper"@, user, Seq::empty())),
            (automation_data_attr_text("stepper"@, seq!["root"@]), "container"@),
            ("data-component"@, component_marker_text("stepper"@)),
            ("data-step-count"@, decimal(statuses.len())),
            ("role"@, "group"@),
            ("aria-roledescription"@, "progress steps"@),
        ];
        match label {
            Some(l) => base.push(("aria-label"@, l)),
            None => base,
        }
    });
    let mut active: Option<String> = None;
    let mut steps: Vec<StepRenderStep> = Vec::new();
    let mut i: usize = 0;
    while i < n
        invariant
            n == statuses.len(),
            n == props.state.steps@.len(),
            statuses == step_statuses(*props.state),
            user == (match props.automation_id {
                Some(id) => Some(id@),
                None => None,
            }),
            i <= n,
            steps@.len() == i,
            forall|j: int| 0 <= j < i ==> step_rendered(#[trigger] steps@[j], *props, j),
            match last_active(statuses.subrange(0, i as int)) {
                Some(k) => active is Some && active->0@ == step_dom_id(user, k as nat),
                None => active is None,
            },
        decreases n - i,
    {
        let step = render_step(props, i);
        proof {
            let s = statuses.subrange(0, i + 1);
            assert(s.drop_last() =~= statuses.subrange(0, i as int));
            assert(s.last() == statuses[i as int]);
        }
        let is_active = match step.status {
            StepStatus::Active => true,
            _ => false,
        };
        if is_active {
            active = Some(step.automation_id.clone());
        }
        steps.push(step);
        i = i + 1;
    }
    assert(statuses.subrange(0, n as int) =~= statuses);
    if let Some(id) = active {
        push_attr(&mut root_attributes, to_owned_string("aria-activedescendant"), id);
    }
    StepperRenderOutput { root_class: props.classes.root.clone(), root_attributes, steps }
}

/// `aria-activedescendant` names the last active step: [`last_active`]
/// finds an active step with no active step after it, and finds none only
/// when no step is active.
pub proof fn lemma_last_active_is_last(statuses: Seq<StepStatus>)
    ensures
        match last_active(statuses) {
            Some(i) => {
                &&& 0 <= i < statuses.len()
                &&& statuses[i] == StepStatus::Active
                &&& forall|j: int| i < j < statuses.len() ==> statuses[j] != StepStatus::Active
            },
            None => forall|j: int| 0 <= j < statuses.len() ==> statuses[j] != StepStatus::Active,
        },
    decreases statuses.len(),
{
    if statuses.len() > 0 && statuses.last() != StepStatus::Active {
        let prefix = statuses.drop_last();
        lemma_last_active_is_last(prefix);
        assert forall|j: int| 0 <= j < prefix.len() implies prefix[j] == statuses[j] by {}
    }
}

/// The status a `data-status` token names.
pub open spec fn status_named(token: Seq<char>) -> Option<StepStatus> {
    if token == "pending"@ {
        Some(StepStatus::Pending)
    } else if token == "active"@ {
        Some(StepStatus::Active)
    } else if token == "completed"@ {
        Some(StepStatus::Completed)
    } else if token == "disabled"@ {
        Some(StepStatus::Disabled)
    } else {
        None
    }
}

/// A status token reads back as the status it was made from: `pending`
/// names Pending, `active` Active, `completed` Completed, `disabled`
/// Disabled.
pub proof fn law_status_token_round_trip(status: StepStatus)
    ensures
        status_named(status_token_text(status)) == Some(status),
{
    let pending = "pending"@;
    let active = "active"@;
    let completed = "completed"@;
    let disabled = "disabled"@;
    reveal_strlit("pending");
    reveal_strlit("active");
    reveal_strlit("completed");
    reveal_strlit("disabled");
    assert(active.len() != pending.len());
    assert(completed.len() != pending.len() && completed.len() != active.len());
    assert(disabled.len() != pending.len() && disabled.len() != active.len() && disabled.len() != completed.len());
}

/// Distinct statuses have distinct tokens.
pub proof fn law_status_tokens_distinct(a: StepStatus, b: StepStatus)
    requires
        a != b,
    ensures
        status_token_text(a) != status_token_text(b),
{
    law_status_token_round_trip(a);
    law_status_token_round_trip(b);
}

/// Every rendered step's trigger ends with a `data-status` pair whose token
/// names that step's own status in the stepper state.
pub proof fn law_step_data_status(step: StepRenderStep, props: StepperAdapterProps, i: int)
    requires
        0 <= i < props.state.steps@.len(),
        step_rendered(step, props, i),
    ensures
        pairs_view(step.trigger_attributes@).last().0 == "data-status"@,
        status_named(pairs_view(step.trigger_attributes@).last().1) == Some(props.state.steps@[i].status),
{
    law_status_token_round_trip(props.state.steps@[i].status);
}

} // verus!
