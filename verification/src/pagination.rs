//! Pagination renderer: themed `<nav>`/`<ul>` wrappers and, per control, a
//! list item and button with automation hooks naming the control's kind.

use vstd::prelude::*;

use crate::attr_map::{pairs_view, push_attr};
use crate::landmark::{landmark_attribute_pairs, landmark_pairs, LandmarkAttributes};
use crate::markup::{attributes_to_html, attrs_html, element_text, themed_attributes, themed_pairs, wrap_element};
use crate::style_helpers::{
    automation_data_attr, automation_data_attr_text, component_marker, component_marker_text,
    strs_view,
};
use crate::text::{decimal, to_owned_string, usize_to_string};

verus! {

/// Describes one pagination control.
#[derive(Debug, Clone)]
pub struct PaginationItemDescriptor<'a> {
    /// Data value of the control's kind (`previous`, `page`, `next`, ...).
    pub kind: &'a str,
    /// DOM id of the button, when set. It is handed to the headless control
    /// builder, whose output (`control_pairs`) already carries it; rendering
    /// reads the pairs only.
    pub id: Option<&'a str>,
    /// Accessible label of the button, when set; like `id`, it reaches the
    /// markup through `control_pairs`.
    pub aria_label: Option<&'a str>,
    /// Inner content, injected verbatim.
    pub content: &'a str,
    /// Pairs the pagination state's control builder supplies for this
    /// control's button, after `id` and `aria_label` were applied to it.
    pub control_pairs: Vec<(String, String)>,
}

/// Scoped classes of the pagination styles.
#[derive(Debug, Clone)]
pub struct PaginationClasses {
    /// Class of the `<nav>` root.
    pub root: String,
    /// Class of the `<ul>` list.
    pub list: String,
    /// Class of each `<li>`.
    pub item: String,
    /// Class of each button.
    pub button: String,
}

/// Input of [`render_pagination`].
#[derive(Debug, Clone)]
pub struct PaginationAdapterProps<'a> {
    /// Root attributes of the state.
    pub root_attributes: &'a LandmarkAttributes,
    /// List attributes of the state.
    pub list_attributes: &'a LandmarkAttributes,
    /// Controls, in order.
    pub items: &'a [PaginationItemDescriptor<'a>],
    /// Event channel announced on selection.
    pub on_select_event: Option<&'a str>,
    /// Scoped classes.
    pub classes: &'a PaginationClasses,
}

/// Rendered pagination output.
#[derive(Debug, Clone)]
pub struct PaginationRenderOutput {
    root_attributes: Vec<(String, String)>,
    list_attributes: Vec<(String, String)>,
    items: Vec<PaginationRenderedItem>,
}

/// Rendered control.
#[derive(Debug, Clone)]
pub struct PaginationRenderedItem {
    container_attributes: Vec<(String, String)>,
    control_attributes: Vec<(String, String)>,
    content: String,
}

impl PaginationRenderOutput {
    /// Root attributes.
    pub closed spec fn root_view(&self) -> Seq<(Seq<char>, Seq<char>)> {
        pairs_view(self.root_attributes@)
    }

    /// List attributes.
    pub closed spec fn list_view(&self) -> Seq<(Seq<char>, Seq<char>)> {
        pairs_view(self.list_attributes@)
    }

    /// Rendered controls.
    pub closed spec fn items_view(&self) -> Seq<PaginationRenderedItem> {
        self.items@
    }

    /// Attributes of the `<nav>` root.
    pub fn root_attributes(&self) -> (r: &[(String, String)])
        ensures
            pairs_view(r@) == self.root_view(),
    {
        self.root_attributes.as_slice()
    }

    /// Attributes of the `<ul>` list.
    pub fn list_attributes(&self) -> (r: &[(String, String)])
        ensures
            pairs_view(r@) == self.list_view(),
    {
        self.list_attributes.as_slice()
    }

    /// Rendered controls, in order.
    pub fn items(&self) -> (r: &[PaginationRenderedItem])
        ensures
            r@ == self.items_view(),
    {
        self.items.as_slice()
    }
}

impl PaginationRenderedItem {
    /// `<li>` attributes.
    pub closed spec fn container_view(&self) -> Seq<(Seq<char>, Seq<char>)> {
        pairs_view(self.container_attributes@)
    }

    /// Button attributes.
    pub closed spec fn control_view(&self) -> Seq<(Seq<char>, Seq<char>)> {
        pairs_view(self.control_attributes@)
    }

    /// Button content.
    pub closed spec fn content_view(&self) -> Seq<char> {
        self.content@
    }

    /// Attributes of the `<li>` wrapper.
    pub fn container_attributes(&self) -> (r: &[(String, String)])
        ensures
            pairs_view(r@) == self.container_view(),
    {
        self.container_attributes.as_slice()
    }

    /// Attributes of the control button.
    pub fn control_attributes(&self) -> (r: &[(String, String)])
        ensures
            pairs_view(r@) == self.control_view(),
    {
        self.control_attributes.as_slice()
    }

    /// Content of the control button.
    pub fn content(&self) -> (r: &str)
        ensures
            r@ == self.content_view(),
    {
        self.content.as_str()
    }
}

/// Root pairs: landmark pairs, selection event when given, marker and hook.
pub open spec fn pagination_root_pairs(a: LandmarkAttributes, on_select: Option<&str>) -> Seq<
    (Seq<char>, Seq<char>),
> {
    let base = match on_select {
        Some(e) => landmark_pairs(a).push(("data-on-select"@, e@)),
        None => landmark_pairs(a),
    };
    base + seq![
        ("data-component"@, component_marker_text("pagination"@)),
        (automation_data_attr_text("pagination"@, seq!["root"@]), "true"@),
    ]
}

/// List pairs: landmark pairs and the list hook.
pub open spec fn pagination_list_pairs(a: LandmarkAttributes) -> Seq<(Seq<char>, Seq<char>)> {
    landmark_pairs(a).push((automation_data_attr_text("pagination"@, seq!["list"@]), "true"@))
}

/// What control `i` renders as.
pub open spec fn control_matches(props: PaginationAdapterProps, item: PaginationRenderedItem, i: int) -> bool {
    &&& item.container_view() == themed_pairs(
        props.classes.item@,
        seq![
            (automation_data_attr_text("pagination"@, seq!["item"@, decimal(i as nat)]), "true"@),
            ("data-component"@, component_marker_text("pagination-item"@)),
        ],
    )
    &&& item.control_view() == themed_pairs(props.classes.button@, pairs_view(props.items@[i].control_pairs@))
        .push(
        (
            automation_data_attr_text(
                "pagination"@,
                seq!["control"@, props.items@[i].kind@, decimal(i as nat)],
            ),
            "true"@,
        ),
    )
    &&& item.content_view() == props.items@[i].content@
}

fn build_item(props: &PaginationAdapterProps, index: usize) -> (r: PaginationRenderedItem)
    requires
        index < props.items@.len(),
    ensures
        control_matches(*props, r, index as int),
{
    let idx = usize_to_string(index);
    let mut container: Vec<(String, String)> = Vec::new();
    let segments = ["item", idx.as_str()];
    let hook = automation_data_attr("pagination", &segments);
    assert(strs_view(segments@) =~= seq!["item"@, decimal(index as nat)]);
    push_attr(&mut container, hook, to_owned_string("true"));
    push_attr(&mut container, to_owned_string("data-component"), component_marker("pagination-item"));
    let container_attributes = themed_attributes(props.classes.item.as_str(), &container);
    let descriptor = &props.items[index];
    let mut control_attributes = themed_attributes(props.classes.button.as_str(), &props.items[index].control_pairs);
    let control_segments = ["control", descriptor.kind, idx.as_str()];
    let control_hook = automation_data_attr("pagination", &control_segments);
    assert(strs_view(control_segments@) =~= seq!["control"@, descriptor.kind@, decimal(index as nat)]);
    push_attr(&mut control_attributes, control_hook, to_owned_string("true"));
    let r = PaginationRenderedItem {
        container_attributes,
        control_attributes,
        content: to_owned_string(descriptor.content),
    };
    assert(r.container_view() =~= themed_pairs(
        props.classes.item@,
        seq![
            (automation_data_attr_text("pagination"@, seq!["item"@, decimal(index as nat)]), "true"@),
            ("data-component"@, component_marker_text("pagination-item"@)),
        ],
    ));
    r
}

/// Renders the root, list and control attributes.
pub fn render_pagination(props: &PaginationAdapterProps) -> (r: PaginationRenderOutput)
    ensures
        r.root_view() == themed_pairs(
            props.classes.root@,
            pagination_root_pairs(*props.root_attributes, props.on_select_event),
        ),
        r.list_view() == themed_pairs(props.classes.list@, pagination_list_pairs(*props.list_attributes)),
        r.items_view().len() == props.items@.len(),
        forall|i: int|
            0 <= i < props.items@.len() ==> control_matches(*props, #[trigger] r.items_view()[i], i),
{
    let mut root = landmark_attribute_pairs(props.root_attributes);
    if let Some(event) = props.on_select_event {
        push_attr(&mut root, to_owned_string("data-on-select"), to_owned_string(event));
    }
    push_attr(&mut root, to_owned_string("data-component"), component_marker("pagination"));
    let root_segments = ["root"];
    let hook = automation_data_attr("pagination", &root_segments);
    assert(strs_view(root_segments@) =~= seq!["root"@]);
    push_attr(&mut root, hook, to_owned_string("true"));
    assert(pairs_view(root@) =~= pagination_root_pairs(*props.root_attributes, props.on_select_event));
    let root_attributes = themed_attributes(props.classes.root.as_str(), &root);

    let mut list = landmark_attribute_pairs(props.list_attributes);
    let list_segments = ["list"];
    let list_hook = automation_data_attr("pagination", &list_segments);
    assert(strs_view(list_segments@) =~= seq!["list"@]);
    push_attr(&mut list, list_hook, to_owned_string("true"));
    let list_attributes = themed_attributes(props.classes.list.as_str(), &list);

    let n = props.items.len();
    let mut items: Vec<PaginationRenderedItem> = Vec::new();
    let mut i: usize = 0;
    while i < n
        invariant
            n == props.items@.len(),
            i <= n,
            items@.len() == i,
            forall|j: int| 0 <= j < i ==> control_matches(*props, #[trigger] items@[j], j),
        decreases n - i,
    {
        let item = build_item(props, i);
        items.push(item);
        i = i + 1;
    }
    PaginationRenderOutput { root_attributes, list_attributes, items }
}

/// The controls' `<li><button ..>..</button></li>` elements, concatenated.
pub open spec fn controls_html(items: Seq<PaginationRenderedItem>) -> Seq<char>
    decreases items.len(),
{
    if items.len() == 0 {
        Seq::empty()
    } else {
        controls_html(items.drop_last()) + element_text(
            "li"@,
            attrs_html(items.last().container_view()),
            element_text("button"@, attrs_html(items.last().control_view()), items.last().content_view()),
        )
    }
}

/// The markup of a rendered pagination output.
pub open spec fn pagination_html(out: PaginationRenderOutput) -> Seq<char> {
    element_text(
        "nav"@,
        attrs_html(out.root_view()),
        element_text("ul"@, attrs_html(out.list_view()), controls_html(out.items_view())),
    )
}

/// `<nav ..><ul ..><li ..><button ..>..</button></li>...</ul></nav>`.
pub fn render_pagination_html(props: &PaginationAdapterProps) -> (r: String)
    ensures
        exists|out: PaginationRenderOutput|
            out.root_view() == themed_pairs(
                props.classes.root@,
                pagination_root_pairs(*props.root_attributes, props.on_select_event),
            ) && out.list_view() == themed_pairs(
                props.classes.list@,
                pagination_list_pairs(*props.list_attributes),
            ) && out.items_view().len() == props.items@.len() && (forall|i: int|
                0 <= i < props.items@.len() ==> control_matches(*props, #[trigger] out.items_view()[i], i))
                && r@ == pagination_html(out),
{
    let rendered = render_pagination(props);
    let n = rendered.items.len();
    let mut body = String::new();
    let mut i: usize = 0;
    while i < n
        invariant
            n == rendered.items@.len(),
            i <= n,
            body@ == controls_html(rendered.items@.subrange(0, i as int)),
        decreases n - i,
    {
        let item = &rendered.items[i];
        let control_attrs = attributes_to_html(&item.control_attributes);
        let button = wrap_element("button", control_attrs.as_str(), item.content.as_str());
        let container_attrs = attributes_to_html(&item.container_attributes);
        let li = wrap_element("li", container_attrs.as_str(), button.as_str());
        body.append(li.as_str());
        assert(rendered.items@.subrange(0, i + 1).drop_last() =~= rendered.items@.subrange(0, i as int));
        i = i + 1;
    }
    assert(rendered.items@.subrange(0, n as int) =~= rendered.items@);
    let list_attrs = attributes_to_html(&rendered.list_attributes);
    let list = wrap_element("ul", list_attrs.as_str(), body.as_str());
    let root_attrs = attributes_to_html(&rendered.root_attributes);
    wrap_element("nav", root_attrs.as_str(), list.as_str())
}

} // verus!
