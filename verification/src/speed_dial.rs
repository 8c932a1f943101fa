//! Speed dial renderer: themed container, trigger button, action list and one
//! item/button pair per action, with open state and automation hooks.

use vstd::prelude::*;

use crate::attr_map::{extend_attrs, pairs_view, push_attr};
use crate::markup::{attributes_to_html, attrs_html, element_text, themed_attributes, themed_pairs, wrap_element};
use crate::style_helpers::{
    automation_data_attr, automation_data_attr_text, component_marker, component_marker_text,
    strs_view,
};
use crate::text::{decimal, to_owned_string, usize_to_string};

verus! {

/// Describes the trigger button.
#[derive(Debug, Clone)]
pub struct SpeedDialTriggerDescriptor<'a> {
    /// DOM id of the trigger, when set.
    pub id: Option<&'a str>,
    /// Analytics tag of the trigger, when set.
    pub analytics_tag: Option<&'a str>,
    /// Inner content, injected verbatim.
    pub content: &'a str,
}

/// Describes one action.
#[derive(Debug, Clone)]
pub struct SpeedDialActionDescriptor<'a> {
    /// Position of the action in the state.
    pub index: usize,
    /// DOM id of the action button, when set.
    pub id: Option<&'a str>,
    /// Analytics tag of the action, when set.
    pub analytics_tag: Option<&'a str>,
    /// Accessible label of the action, when set.
    pub aria_label: Option<&'a str>,
    /// Inner content, injected verbatim.
    pub content: &'a str,
    /// Pairs the speed dial state supplies for this action's button.
    pub button_pairs: Vec<(String, String)>,
}

/// Scoped classes of the speed dial styles.
#[derive(Debug, Clone)]
pub struct SpeedDialClasses {
    /// Class of the container.
    pub container: String,
    /// Class of the trigger button.
    pub trigger: String,
    /// Class of the action list.
    pub list: String,
    /// Class of each action item.
    pub item: String,
    /// Class of each action button.
    pub action: String,
}

/// Input of [`render_speed_dial`].
#[derive(Debug, Clone)]
pub struct SpeedDialAdapterProps<'a> {
    /// Whether the dial is open.
    pub open: bool,
    /// The state's trigger pairs, with the descriptor's id and tag applied.
    pub trigger_pairs: &'a Vec<(String, String)>,
    /// The state's list pairs.
    pub list_pairs: &'a Vec<(String, String)>,
    /// The trigger.
    pub trigger: SpeedDialTriggerDescriptor<'a>,
    /// Actions, in order.
    pub actions: &'a [SpeedDialActionDescriptor<'a>],
    /// Event channel announced when an action activates.
    pub on_action_event: Option<&'a str>,
    /// Event channel announced when the dial toggles.
    pub on_toggle_event: Option<&'a str>,
    /// Scoped classes.
    pub classes: &'a SpeedDialClasses,
}

/// Rendered speed dial.
#[derive(Debug, Clone)]
pub struct SpeedDialRenderOutput {
    container_attributes: Vec<(String, String)>,
    trigger_attributes: Vec<(String, String)>,
    list_attributes: Vec<(String, String)>,
    actions: Vec<SpeedDialRenderedAction>,
    trigger_content: String,
}

/// Rendered action.
#[derive(Debug, Clone)]
pub struct SpeedDialRenderedAction {
    container_attributes: Vec<(String, String)>,
    button_attributes: Vec<(String, String)>,
    content: String,
}

impl SpeedDialRenderOutput {
    /// Container attributes.
    pub closed spec fn container_view(&self) -> Seq<(Seq<char>, Seq<char>)> {
        pairs_view(self.container_attributes@)
    }

    /// Trigger attributes.
    pub closed spec fn trigger_view(&self) -> Seq<(Seq<char>, Seq<char>)> {
        pairs_view(self.trigger_attributes@)
    }

    /// List attributes.
    pub closed spec fn list_view(&self) -> Seq<(Seq<char>, Seq<char>)> {
        pairs_view(self.list_attributes@)
    }

    /// Rendered actions.
    pub closed spec fn actions_view(&self) -> Seq<SpeedDialRenderedAction> {
        self.actions@
    }

    /// Trigger content.
    pub closed spec fn trigger_content_view(&self) -> Seq<char> {
        self.trigger_content@
    }

    /// Attributes of the container.
    pub fn container_attributes(&self) -> (r: &[(String, String)])
        ensures
            pairs_view(r@) == self.container_view(),
    {
        self.container_attributes.as_slice()
    }

    /// Attributes of the trigger button.
    pub fn trigger_attributes(&self) -> (r: &[(String, String)])
        ensures
            pairs_view(r@) == self.trigger_view(),
    {
        self.trigger_attributes.as_slice()
    }

    /// Attributes of the action list.
    pub fn list_attributes(&self) -> (r: &[(String, String)])
        ensures
            pairs_view(r@) == self.list_view(),
    {
        self.list_attributes.as_slice()
    }

    /// Rendered actions, in order.
    pub fn actions(&self) -> (r: &[SpeedDialRenderedAction])
        ensures
            r@ == self.actions_view(),
    {
        self.actions.as_slice()
    }

    /// Content of the trigger button.
    pub fn trigger_content(&self) -> (r: &str)
        ensures
            r@ == self.trigger_content_view(),
    {
        self.trigger_content.as_str()
    }
}

impl SpeedDialRenderedAction {
    /// Item attributes.
    pub closed spec fn container_view(&self) -> Seq<(Seq<char>, Seq<char>)> {
        pairs_view(self.container_attributes@)
    }

    /// Button attributes.
    pub closed spec fn button_view(&self) -> Seq<(Seq<char>, Seq<char>)> {
        pairs_view(self.button_attributes@)
    }

    /// Button content.
    pub closed spec fn content_view(&self) -> Seq<char> {
        self.content@
    }

    /// Attributes of the `<li>` wrapper.
    pub fn container_attributes(&self) -> (r: &[(String, String)])
        ensures
            pairs_view(r@) == self.container_view(),
    {
        self.container_attributes.as_slice()
    }

    /// Attributes of the action button.
    pub fn button_attributes(&self) -> (r: &[(String, String)])
        ensures
            pairs_view(r@) == self.button_view(),
    {
        self.button_attributes.as_slice()
    }

    /// Content of the action button.
    pub fn content(&self) -> (r: &str)
        ensures
            r@ == self.content_view(),
    {
        self.content.as_str()
    }
}

/// Container pairs: marker, root hook and the toggle event when given.
pub open spec fn speed_dial_container_pairs(on_toggle: Option<&str>) -> Seq<(Seq<char>, Seq<char>)> {
    let base = seq![
        ("data-component"@, component_marker_text("speed-dial"@)),
        (automation_data_attr_text("speed-dial"@, seq!["root"@]), "true"@),
    ];
    match on_toggle {
        Some(e) => base.push(("data-on-toggle"@, e@)),
        None => base,
    }
}

/// `open` or `closed`.
pub open spec fn open_state_text(open: bool) -> Seq<char> {
    if open {
        "open"@
    } else {
        "closed"@
    }
}

/// Trigger attributes: themed state pairs, then marker and open state.
pub open spec fn speed_dial_trigger_attrs(
    class: Seq<char>,
    pairs: Seq<(Seq<char>, Seq<char>)>,
    open: bool,
) -> Seq<(Seq<char>, Seq<char>)> {
    themed_pairs(class, pairs) + seq![
        ("data-component"@, component_marker_text("speed-dial-trigger"@)),
        ("data-state"@, open_state_text(open)),
    ]
}

/// List pairs: the state's pairs and the action event when given.
pub open spec fn speed_dial_list_pairs(pairs: Seq<(Seq<char>, Seq<char>)>, on_action: Option<&str>) -> Seq<
    (Seq<char>, Seq<char>),
> {
    match on_action {
        Some(e) => pairs.push(("data-on-activate"@, e@)),
        None => pairs,
    }
}

/// What action `i` renders as.
pub open spec fn action_matches(props: SpeedDialAdapterProps, a: SpeedDialRenderedAction, i: int) -> bool {
    &&& a.container_view() == themed_pairs(
        props.classes.item@,
        seq![
            (
                automation_data_attr_text(
                    "speed-dial"@,
                    seq!["item"@, decimal(props.actions@[i].index as nat)],
                ),
                "true"@,
            ),
            ("data-component"@, component_marker_text("speed-dial-item"@)),
        ],
    )
    &&& a.button_view() == themed_pairs(props.classes.action@, pairs_view(props.actions@[i].button_pairs@)).push(
        ("data-component"@, component_marker_text("speed-dial-action"@)),
    )
    &&& a.content_view() == props.actions@[i].content@
}

fn build_action(props: &SpeedDialAdapterProps, i: usize) -> (r: SpeedDialRenderedAction)
    requires
        i < props.actions@.len(),
    ensures
        action_matches(*props, r, i as int),
{
    let descriptor = &props.actions[i];
    let idx = usize_to_string(descriptor.index);
    let mut container: Vec<(String, String)> = Vec::new();
    let segments = ["item", idx.as_str()];
    let hook = automation_data_attr("speed-dial", &segments);
    assert(strs_view(segments@) =~= seq!["item"@, decimal(descriptor.index as nat)]);
    push_attr(&mut container, hook, to_owned_string("true"));
    push_attr(&mut container, to_owned_string("data-component"), component_marker("speed-dial-item"));
    let container_attributes = themed_attributes(props.classes.item.as_str(), &container);
    let mut button_attributes = themed_attributes(props.classes.action.as_str(), &props.actions[i].button_pairs);
    push_attr(
        &mut button_attributes,
        to_owned_string("data-component"),
        component_marker("speed-dial-action"),
    );
    let r = SpeedDialRenderedAction {
        container_attributes,
        button_attributes,
        content: to_owned_string(descriptor.content),
    };
    assert(r.container_view() =~= themed_pairs(
        props.classes.item@,
        seq![
            (automation_data_attr_text("speed-dial"@, seq!["item"@, decimal(descriptor.index as nat)]), "true"@),
            ("data-component"@, component_marker_text("speed-dial-item"@)),
        ],
    ));
    r
}

/// Renders the container, trigger, list and action attributes.
pub fn render_speed_dial(props: &SpeedDialAdapterProps) -> (r: SpeedDialRenderOutput)
    ensures
        r.container_view() == themed_pairs(
            props.classes.container@,
            speed_dial_container_pairs(props.on_toggle_event),
        ),
        r.trigger_view() == speed_dial_trigger_attrs(
            props.classes.trigger@,
            pairs_view(props.trigger_pairs@),
            props.open,
        ),
        r.list_view() == themed_pairs(
            props.classes.list@,
            speed_dial_list_pairs(pairs_view(props.list_pairs@), props.on_action_event),
        ),
        r.trigger_content_view() == props.trigger.content@,
        r.actions_view().len() == props.actions@.len(),
        forall|i: int|
            0 <= i < props.actions@.len() ==> action_matches(*props, #[trigger] r.actions_view()[i], i),
{
    let mut container: Vec<(String, String)> = Vec::new();
    push_attr(&mut container, to_owned_string("data-component"), component_marker("speed-dial"));
    let segments = ["root"];
    let hook = automation_data_attr("speed-dial", &segments);
    assert(strs_view(segments@) =~= seq!["root"@]);
    push_attr(&mut container, hook, to_owned_string("true"));
    if let Some(event) = props.on_toggle_event {
        push_attr(&mut container, to_owned_string("data-on-toggle"), to_owned_string(event));
    }
    assert(pairs_view(container@) =~= speed_dial_container_pairs(props.on_toggle_event));
    let container_attributes = themed_attributes(props.classes.container.as_str(), &container);

    let mut trigger_attributes = themed_attributes(props.classes.trigger.as_str(), props.trigger_pairs);
    push_attr(
        &mut trigger_attributes,
        to_owned_string("data-component"),
        component_marker("speed-dial-trigger"),
    );
    let state = if props.open {
        to_owned_string("open")
    } else {
        to_owned_string("closed")
    };
    push_attr(&mut trigger_attributes, to_owned_string("data-state"), state);
    assert(pairs_view(trigger_attributes@) =~= speed_dial_trigger_attrs(
        props.classes.trigger@,
        pairs_view(props.trigger_pairs@),
        props.open,
    ));

    let mut list: Vec<(String, String)> = Vec::new();
    extend_attrs(&mut list, props.list_pairs);
    if let Some(event) = props.on_action_event {
        push_attr(&mut list, to_owned_string("data-on-activate"), to_owned_string(event));
    }
    assert(pairs_view(list@) =~= speed_dial_list_pairs(pairs_view(props.list_pairs@), props.on_action_event));
    let list_attributes = themed_attributes(props.classes.list.as_str(), &list);

    let n = props.actions.len();
    let mut actions: Vec<SpeedDialRenderedAction> = Vec::new();
    let mut i: usize = 0;
    while i < n
        invariant
            n == props.actions@.len(),
            i <= n,
            actions@.len() == i,
            forall|j: int| 0 <= j < i ==> action_matches(*props, #[trigger] actions@[j], j),
        decreases n - i,
    {
        let action = build_action(props, i);
        actions.push(action);
        i = i + 1;
    }
    SpeedDialRenderOutput {
        container_attributes,
        trigger_attributes,
        list_attributes,
        actions,
        trigger_content: to_owned_string(props.trigger.content),
    }
}

/// The actions' `<li><button ..>..</button></li>` elements, concatenated.
pub open spec fn actions_html(actions: Seq<SpeedDialRenderedAction>) -> Seq<char>
    decreases actions.len(),
{
    if actions.len() == 0 {
        Seq::empty()
    } else {
        actions_html(actions.drop_last()) + element_text(
            "li"@,
            attrs_html(actions.last().container_view()),
            element_text("button"@, attrs_html(actions.last().button_view()), actions.last().content_view()),
        )
    }
}

/// The markup of a rendered speed dial.
pub open spec fn speed_dial_html(out: SpeedDialRenderOutput) -> Seq<char> {
    element_text(
        "div"@,
        attrs_html(out.container_view()),
        element_text("button"@, attrs_html(out.trigger_view()), out.trigger_content_view())
            + element_text("ul"@, attrs_html(out.list_view()), actions_html(out.actions_view())),
    )
}

/// `<div ..><button ..>..</button><ul ..><li ..><button ..>..</button></li>...</ul></div>`.
pub fn render_speed_dial_html(props: &SpeedDialAdapterProps) -> (r: String)
    ensures
        exists|out: SpeedDialRenderOutput|
            out.container_view() == themed_pairs(
                props.classes.container@,
                speed_dial_container_pairs(props.on_toggle_event),
            ) && out.trigger_view() == speed_dial_trigger_attrs(
                props.classes.trigger@,
                pairs_view(props.trigger_pairs@),
                props.open,
            ) && out.list_view() == themed_pairs(
                props.classes.list@,
                speed_dial_list_pairs(pairs_view(props.list_pairs@), props.on_action_event),
            ) && out.trigger_content_view() == props.trigger.content@ && out.actions_view().len()
                == props.actions@.len() && (forall|i: int|
                0 <= i < props.actions@.len() ==> action_matches(
                    *props,
                    #[trigger] out.actions_view()[i],
                    i,
                )) && r@ == speed_dial_html(out),
{
    let rendered = render_speed_dial(props);
    let n = rendered.actions.len();
    let mut body = String::new();
    let mut i: usize = 0;
    while i < n
        invariant
            n == rendered.actions@.len(),
            i <= n,
            body@ == actions_html(rendered.actions@.subrange(0, i as int)),
        decreases n - i,
    {
        let action = &rendered.actions[i];
        let button_attrs = attributes_to_html(&action.button_attributes);
        let button = wrap_element("button", button_attrs.as_str(), action.content.as_str());
        let container_attrs = attributes_to_html(&action.container_attributes);
        let li = wrap_element("li", container_attrs.as_str(), button.as_str());
        body.append(li.as_str());
        assert(rendered.actions@.subrange(0, i + 1).drop_last() =~= rendered.actions@.subrange(0, i as int));
        i = i + 1;
    }
    assert(rendered.actions@.subrange(0, n as int) =~= rendered.actions@);
    let trigger_attrs = attributes_to_html(&rendered.trigger_attributes);
    let mut inner = wrap_element("button", trigger_attrs.as_str(), rendered.trigger_content.as_str());
    let list_attrs = attributes_to_html(&rendered.list_attributes);
    let list = wrap_element("ul", list_attrs.as_str(), body.as_str());
    inner.append(list.as_str());
    let container_attrs = attributes_to_html(&rendered.container_attributes);
    wrap_element("div", container_attrs.as_str(), inner.as_str())
}

} // verus!
