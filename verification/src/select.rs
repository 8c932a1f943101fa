//! Select renderer: root, trigger, listbox and option attribute lists wired
//! for a popover portal, and the select markup.

use vstd::prelude::*;

use crate::attr_map::{extend_attrs, pairs_view, push_attr};
use crate::markup::{attrs_html, element_text, themed_attributes_html, themed_pairs, wrap_element};
use crate::text::{bool_text, bool_to_string, decimal, push_decimal, to_owned_string, usize_to_string};

verus! {

/// One option of the select.
#[derive(Clone, Debug)]
pub struct SelectOption {
    /// Label shown to the user.
    pub label: String,
    /// Submitted value.
    pub value: String,
}

impl SelectOption {
    /// An option with the given label and value.
    pub fn new(label: &str, value: &str) -> (r: Self)
        ensures
            r.label@ == label@,
            r.value@ == value@,
    {
        SelectOption { label: to_owned_string(label), value: to_owned_string(value) }
    }
}

/// Select configuration.
#[derive(Clone, Debug)]
pub struct SelectProps {
    /// Label of the trigger.
    pub label: String,
    /// Options, in order.
    pub options: Vec<SelectOption>,
    /// Automation id of the select, if any.
    pub automation_id: Option<String>,
}

impl SelectProps {
    /// A select with the given label and options.
    pub fn new(label: &str, options: Vec<SelectOption>) -> (r: Self)
        ensures
            r.label@ == label@,
            r.options == options,
            r.automation_id is None,
    {
        SelectProps { label: to_owned_string(label), options, automation_id: None }
    }

    /// Sets the automation id.
    pub fn with_automation_id(self, id: &str) -> (r: Self)
        ensures
            r.label == self.label,
            r.options == self.options,
            r.automation_id matches Some(a) && a@ == id@,
    {
        SelectProps { automation_id: Some(to_owned_string(id)), ..self }
    }
}

/// What the renderer reads of the select state.
#[derive(Debug)]
pub struct SelectSnapshot {
    /// Whether the popover is open.
    pub open: bool,
    /// Role of the trigger (`combobox`, `button`).
    pub trigger_role: String,
    /// `aria-haspopup` pair of the trigger.
    pub trigger_haspopup: (String, String),
    /// `aria-expanded` pair of the trigger.
    pub trigger_expanded: (String, String),
    /// Role of the option list.
    pub list_role: String,
    /// Highlighted option, if any.
    pub highlighted: Option<usize>,
    /// Selected option, if any.
    pub selected: Option<usize>,
    /// Accessibility pairs of each option, in option order.
    pub option_accessibility: Vec<Vec<(String, String)>>,
}

/// What the renderer reads of the popover portal.
#[derive(Clone, Debug)]
pub struct PortalSnapshot {
    /// Layer token of the portal.
    pub layer: String,
    /// Id of the anchor element.
    pub anchor_id: String,
    /// Id of the portal container.
    pub container_id: String,
    /// Markup of the anchor placeholder.
    pub anchor_html: String,
}

/// Scoped classes of the select styles.
#[derive(Clone, Debug)]
pub struct SelectClasses {
    /// Class of the root.
    pub root: String,
    /// Class of the trigger.
    pub trigger: String,
    /// Class of the option list.
    pub list: String,
    /// Class of each option.
    pub option: String,
}

/// The select's automation base: its automation id, or `mui-select`.
pub open spec fn select_base_text(props: SelectProps) -> Seq<char> {
    match props.automation_id {
        Some(id) => id@,
        None => "mui-select"@,
    }
}

/// `<base>-list`.
pub open spec fn select_list_id_text(props: SelectProps) -> Seq<char> {
    select_base_text(props) + "-list"@
}

/// `<base>-option-<index>`.
pub open spec fn select_option_id_text(props: SelectProps, index: nat) -> Seq<char> {
    select_base_text(props) + "-option-"@ + decimal(index)
}

/// `<base>-popover`, the name the popover portal is mounted under.
pub open spec fn select_popover_base_text(props: SelectProps) -> Seq<char> {
    select_base_text(props) + "-popover"@
}

/// Root pairs.
pub open spec fn select_root_pairs(props: SelectProps, state: SelectSnapshot, portal: PortalSnapshot) -> Seq<
    (Seq<char>, Seq<char>),
> {
    let base = seq![
        ("data-component"@, "mui-select"@),
        ("data-open"@, bool_text(state.open)),
        ("data-portal-layer"@, portal.layer@),
    ];
    match props.automation_id {
        Some(id) => base.push(("data-automation-id"@, id@)),
        None => base,
    }
}

/// Trigger pairs.
pub open spec fn select_trigger_pairs(
    props: SelectProps,
    state: SelectSnapshot,
    portal: PortalSnapshot,
) -> Seq<(Seq<char>, Seq<char>)> {
    let base = seq![
        ("role"@, state.trigger_role@),
        (state.trigger_haspopup.0@, state.trigger_haspopup.1@),
        (state.trigger_expanded.0@, state.trigger_expanded.1@),
        ("aria-controls"@, select_list_id_text(props)),
        ("data-open"@, bool_text(state.open)),
        ("data-portal-anchor"@, portal.anchor_id@),
        ("data-portal-root"@, portal.container_id@),
    ];
    match props.automation_id {
        Some(id) => base.push(("data-automation-trigger"@, id@)),
        None => base,
    }
}

/// List pairs.
pub open spec fn select_list_pairs(props: SelectProps, state: SelectSnapshot, portal: PortalSnapshot) -> Seq<
    (Seq<char>, Seq<char>),
> {
    let head = seq![
        ("id"@, select_list_id_text(props)),
        ("role"@, state.list_role@),
        ("aria-hidden"@, bool_text(!state.open)),
    ];
    let with_active = match state.highlighted {
        Some(h) => head.push(("aria-activedescendant"@, select_option_id_text(props, h as nat))),
        None => head,
    };
    let tail = with_active + seq![
        ("data-open"@, bool_text(state.open)),
        ("data-portal-anchor"@, portal.anchor_id@),
        ("data-portal-root"@, portal.container_id@),
    ];
    match props.automation_id {
        Some(id) => tail.push(("data-automation-list"@, id@)),
        None => tail,
    }
}

/// Pairs of option `index`.
pub open spec fn select_option_pairs(props: SelectProps, state: SelectSnapshot, index: nat) -> Seq<
    (Seq<char>, Seq<char>),
> {
    let selected = state.selected == Some(index as usize);
    let highlighted = state.highlighted == Some(index as usize);
    let base = seq![("id"@, select_option_id_text(props, index))] + pairs_view(
        state.option_accessibility@[index as int]@,
    ) + seq![
        ("aria-selected"@, bool_text(selected)),
        ("data-selected"@, bool_text(selected)),
        ("data-highlighted"@, bool_text(highlighted)),
        ("data-index"@, decimal(index)),
        ("data-value"@, props.options@[index as int].value@),
    ];
    match props.automation_id {
        Some(id) => base.push(("data-automation-option"@, id@ + "-"@ + decimal(index))),
        None => base,
    }
}

/// The select's automation base.
pub fn automation_base(props: &SelectProps) -> (r: String)
    ensures
        r@ == select_base_text(*props),
{
    match &props.automation_id {
        Some(id) => id.clone(),
        None => to_owned_string("mui-select"),
    }
}

/// Id of the option list.
pub fn list_id(props: &SelectProps) -> (r: String)
    ensures
        r@ == select_list_id_text(*props),
{
    let mut out = automation_base(props);
    out.append("-list");
    out
}

/// Id of option `index`.
pub fn option_id(props: &SelectProps, index: usize) -> (r: String)
    ensures
        r@ == select_option_id_text(*props, index as nat),
{
    let mut out = automation_base(props);
    out.append("-option-");
    push_decimal(&mut out, index as u64);
    out
}

/// Name the popover portal is mounted under.
pub fn popover_base(props: &SelectProps) -> (r: String)
    ensures
        r@ == select_popover_base_text(*props),
{
    let mut out = automation_base(props);
    out.append("-popover");
    out
}

/// Root pairs: component marker, open flag, portal layer, automation id.
pub fn root_attributes(props: &SelectProps, state: &SelectSnapshot, portal: &PortalSnapshot) -> (r: Vec<
    (String, String),
>)
    ensures
        pairs_view(r@) == select_root_pairs(*props, *state, *portal),
{
    let mut attrs: Vec<(String, String)> = Vec::new();
    push_attr(&mut attrs, to_owned_string("data-component"), to_owned_string("mui-select"));
    push_attr(&mut attrs, to_owned_string("data-open"), bool_to_string(state.open));
    push_attr(&mut attrs, to_owned_string("data-portal-layer"), portal.layer.clone());
    if let Some(id) = &props.automation_id {
        push_attr(&mut attrs, to_owned_string("data-automation-id"), id.clone());
    }
    assert(pairs_view(attrs@) =~= select_root_pairs(*props, *state, *portal));
    attrs
}

/// Trigger pairs: role, popup and expanded state, the controlled list, open
/// flag and portal wiring.
pub fn trigger_attributes(props: &SelectProps, state: &SelectSnapshot, portal: &PortalSnapshot) -> (r:
    Vec<(String, String)>)
    ensures
        pairs_view(r@) == select_trigger_pairs(*props, *state, *portal),
{
    let mut attrs: Vec<(String, String)> = Vec::new();
    push_attr(&mut attrs, to_owned_string("role"), state.trigger_role.clone());
    push_attr(&mut attrs, state.trigger_haspopup.0.clone(), state.trigger_haspopup.1.clone());
    push_attr(&mut attrs, state.trigger_expanded.0.clone(), state.trigger_expanded.1.clone());
    push_attr(&mut attrs, to_owned_string("aria-controls"), list_id(props));
    push_attr(&mut attrs, to_owned_string("data-open"), bool_to_string(state.open));
    push_attr(&mut attrs, to_owned_string("data-portal-anchor"), portal.anchor_id.clone());
    push_attr(&mut attrs, to_owned_string("data-portal-root"), portal.container_id.clone());
    if let Some(id) = &props.automation_id {
        push_attr(&mut attrs, to_owned_string("data-automation-trigger"), id.clone());
    }
    assert(pairs_view(attrs@) =~= select_trigger_pairs(*props, *state, *portal));
    attrs
}

/// List pairs: id, role, hidden flag, the highlighted option as active
/// descendant, open flag and portal wiring.
pub fn list_attributes(props: &SelectProps, state: &SelectSnapshot, portal: &PortalSnapshot) -> (r: Vec<
    (String, String),
>)
    ensures
        pairs_view(r@) == select_list_pairs(*props, *state, *portal),
{
    let mut attrs: Vec<(String, String)> = Vec::new();
    push_attr(&mut attrs, to_owned_string("id"), list_id(props));
    push_attr(&mut attrs, to_owned_string("role"), state.list_role.clone());
    push_attr(&mut attrs, to_owned_string("aria-hidden"), bool_to_string(!state.open));
    if let Some(h) = state.highlighted {
        push_attr(&mut attrs, to_owned_string("aria-activedescendant"), option_id(props, h));
    }
    push_attr(&mut attrs, to_owned_string("data-open"), bool_to_string(state.open));
    push_attr(&mut attrs, to_owned_string("data-portal-anchor"), portal.anchor_id.clone());
    push_attr(&mut attrs, to_owned_string("data-portal-root"), portal.container_id.clone());
    if let Some(id) = &props.automation_id {
        push_attr(&mut attrs, to_owned_string("data-automation-list"), id.clone());
    }
    assert(pairs_view(attrs@) =~= select_list_pairs(*props, *state, *portal));
    attrs
}

/// Pairs of option `index`: id, the state's pairs, selection and highlight
/// flags, index, value and automation hook.
pub fn option_attributes(props: &SelectProps, state: &SelectSnapshot, index: usize) -> (r: Vec<
    (String, String),
>)
    requires
        index < props.options@.len(),
        index < state.option_accessibility@.len(),
    ensures
        pairs_view(r@) == select_option_pairs(*props, *state, index as nat),
{
    let mut attrs: Vec<(String, String)> = Vec::new();
    push_attr(&mut attrs, to_owned_string("id"), option_id(props, index));
    extend_attrs(&mut attrs, &state.option_accessibility[index]);
    let selected = match state.selected {
        Some(s) => s == index,
        None => false,
    };
    let highlighted = match state.highlighted {
        Some(h) => h == index,
        None => false,
    };
    push_attr(&mut attrs, to_owned_string("aria-selected"), bool_to_string(selected));
    push_attr(&mut attrs, to_owned_string("data-selected"), bool_to_string(selected));
    push_attr(&mut attrs, to_owned_string("data-highlighted"), bool_to_string(highlighted));
    push_attr(&mut attrs, to_owned_string("data-index"), usize_to_string(index));
    push_attr(&mut attrs, to_owned_string("data-value"), props.options[index].value.clone());
    if let Some(id) = &props.automation_id {
        let mut hook = id.clone();
        hook.append("-");
        push_decimal(&mut hook, index as u64);
        push_attr(&mut attrs, to_owned_string("data-automation-option"), hook);
    }
    assert(pairs_view(attrs@) =~= select_option_pairs(*props, *state, index as nat));
    attrs
}

/// The options' `<li>` elements, concatenated.
pub open spec fn options_html(
    props: SelectProps,
    state: SelectSnapshot,
    option_class: Seq<char>,
    n: nat,
) -> Seq<char>
    decreases n,
{
    if n == 0 {
        Seq::empty()
    } else {
        let i = (n - 1) as nat;
        options_html(props, state, option_class, i) + element_text(
            "li"@,
            attrs_html(themed_pairs(option_class, select_option_pairs(props, state, i))),
            props.options@[i as int].label@,
        )
    }
}

/// The option list markup `<ul ..><li ..>label</li>...</ul>`, which the
/// caller mounts in the popover portal.
pub fn render_list_html(
    props: &SelectProps,
    state: &SelectSnapshot,
    portal: &PortalSnapshot,
    classes: &SelectClasses,
) -> (r: String)
    requires
        props.options@.len() <= state.option_accessibility@.len(),
    ensures
        r@ == element_text(
            "ul"@,
            attrs_html(themed_pairs(classes.list@, select_list_pairs(*props, *state, *portal))),
            options_html(*props, *state, classes.option@, props.options@.len()),
        ),
{
    let list = list_attributes(props, state, portal);
    let list_attrs = themed_attributes_html(classes.list.as_str(), &list);
    let n = props.options.len();
    let mut body = String::new();
    let mut i: usize = 0;
    while i < n
        invariant
            n == props.options@.len(),
            n <= state.option_accessibility@.len(),
            i <= n,
            body@ == options_html(*props, *state, classes.option@, i as nat),
        decreases n - i,
    {
        let pairs = option_attributes(props, state, i);
        let attrs = themed_attributes_html(classes.option.as_str(), &pairs);
        let li = wrap_element("li", attrs.as_str(), props.options[i].label.as_str());
        body.append(li.as_str());
        i = i + 1;
    }
    wrap_element("ul", list_attrs.as_str(), body.as_str())
}

/// `<div root><button trigger>label</button>anchor</div>` followed by the
/// popover markup (the option list as mounted by the portal).
pub fn render_html(
    props: &SelectProps,
    state: &SelectSnapshot,
    portal: &PortalSnapshot,
    classes: &SelectClasses,
    popover_markup: &str,
) -> (r: String)
    ensures
        r@ == element_text(
            "div"@,
            attrs_html(themed_pairs(classes.root@, select_root_pairs(*props, *state, *portal))),
            element_text(
                "button"@,
                attrs_html(themed_pairs(classes.trigger@, select_trigger_pairs(*props, *state, *portal))),
                props.label@,
            ) + portal.anchor_html@,
        ) + popover_markup@,
{
    let root = root_attributes(props, state, portal);
    let root_attrs = themed_attributes_html(classes.root.as_str(), &root);
    let trigger = trigger_attributes(props, state, portal);
    let trigger_attrs = themed_attributes_html(classes.trigger.as_str(), &trigger);
    let mut inner = wrap_element("button", trigger_attrs.as_str(), props.label.as_str());
    inner.append(portal.anchor_html.as_str());
    let mut out = wrap_element("div", root_attrs.as_str(), inner.as_str());
    out.append(popover_markup);
    out
}

/// The trigger's `aria-controls` names the option list: its value is exactly
/// the `id` the list is rendered with.
pub proof fn lemma_trigger_controls_list(props: SelectProps, state: SelectSnapshot, portal: PortalSnapshot)
    ensures
        select_list_pairs(props, state, portal)[0] == ("id"@, select_list_id_text(props)),
        select_trigger_pairs(props, state, portal)[3] == ("aria-controls"@, select_list_id_text(props)),
{
}

/// The list's `aria-activedescendant` names the highlighted option: its value
/// is exactly the `id` that option is rendered with.
pub proof fn lemma_active_descendant_is_highlighted_option(
    props: SelectProps,
    state: SelectSnapshot,
    portal: PortalSnapshot,
    h: usize,
)
    requires
        state.highlighted == Some(h),
    ensures
        select_option_pairs(props, state, h as nat)[0] == ("id"@, select_option_id_text(props, h as nat)),
        select_list_pairs(props, state, portal)[3] == ("aria-activedescendant"@, select_option_id_text(props, h as nat)),
{
}

/// An option reports selection state of its own: right after the option id
/// and the state's accessibility pairs come `aria-selected` and
/// `data-selected`, both `"true"` exactly when the option's index is the
/// selected index and `"false"` otherwise; `data-highlighted` follows,
/// `"true"` exactly when the option is the highlighted one.
pub proof fn law_option_selection_flags(props: SelectProps, state: SelectSnapshot, index: nat)
    requires
        index < props.options@.len(),
        index < state.option_accessibility@.len(),
        index <= usize::MAX,
    ensures
        ({
            let pairs = select_option_pairs(props, state, index);
            let a = state.option_accessibility@[index as int]@.len() as int;
            let selected = state.selected == Some(index as usize);
            let highlighted = state.highlighted == Some(index as usize);
            &&& pairs[1 + a].0 == "aria-selected"@
            &&& pairs[2 + a].0 == "data-selected"@
            &&& pairs[3 + a].0 == "data-highlighted"@
            &&& pairs[1 + a].1 == pairs[2 + a].1
            &&& (pairs[1 + a].1 == "true"@) == selected
            &&& (pairs[1 + a].1 == "true"@ || pairs[1 + a].1 == "false"@)
            &&& (pairs[3 + a].1 == "true"@) == highlighted
        }),
{
    reveal_strlit("true");
    reveal_strlit("false");
    assert(bool_text(true) == "true"@);
    assert(bool_text(false) == "false"@);
    assert(bool_text(false).len() != "true"@.len());
    let a = state.option_accessibility@[index as int]@.len() as int;
    let acc = pairs_view(state.option_accessibility@[index as int]@);
    assert(acc.len() == a);
}

} // verus!
