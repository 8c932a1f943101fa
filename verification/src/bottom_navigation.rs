//! Bottom navigation renderer: themed `<nav>` root and one themed button per
//! destination, with selection state and automation hooks.

use vstd::prelude::*;

use crate::attr_map::{extend_attrs, pairs_view, push_attr};
use crate::landmark::{landmark_attribute_pairs, landmark_pairs, LandmarkAttributes};
use crate::markup::{attributes_to_html, attrs_html, element_text, themed_attributes, themed_pairs, wrap_element};
use crate::style_helpers::{
    automation_data_attr, automation_data_attr_text, component_marker, component_marker_text,
    strs_view,
};
use crate::text::{decimal, to_owned_string, usize_to_string};

verus! {

/// Describes one destination.
#[derive(Debug, Clone)]
pub struct BottomNavigationItemDescriptor<'a> {
    /// DOM id of the button, when set.
    pub id: Option<&'a str>,
    /// Id of the region the button controls, when set.
    pub controls: Option<&'a str>,
    /// Inner content, injected verbatim.
    pub content: &'a str,
    /// Pairs the navigation state supplies for this destination (role, selection, ...).
    pub state_pairs: Vec<(String, String)>,
}

/// Scoped classes of the bottom navigation styles.
#[derive(Debug, Clone)]
pub struct BottomNavigationClasses {
    /// Class of the `<nav>` root.
    pub root: String,
    /// Class of each destination button.
    pub item: String,
}

/// Input of [`render_bottom_navigation`].
#[derive(Debug, Clone)]
pub struct BottomNavigationAdapterProps<'a> {
    /// Root attributes of the state (role `tablist`, id, labelled-by, analytics).
    pub attributes: &'a LandmarkAttributes,
    /// Index of the selected destination.
    pub selected: Option<usize>,
    /// Destinations.
    pub items: &'a [BottomNavigationItemDescriptor<'a>],
    /// Event channel announced on selection.
    pub on_select_event: Option<&'a str>,
    /// Scoped classes.
    pub classes: &'a BottomNavigationClasses,
}

/// Rendered destination.
#[derive(Debug, Clone)]
pub struct BottomNavigationItemRender {
    attributes: Vec<(String, String)>,
    content: String,
}

impl BottomNavigationItemRender {
    /// Button attributes.
    pub closed spec fn attributes_view(&self) -> Seq<(Seq<char>, Seq<char>)> {
        pairs_view(self.attributes@)
    }

    /// Button content.
    pub closed spec fn content_view(&self) -> Seq<char> {
        self.content@
    }

    /// Attributes of the destination button.
    pub fn attributes(&self) -> (r: &[(String, String)])
        ensures
            pairs_view(r@) == self.attributes_view(),
    {
        self.attributes.as_slice()
    }

    /// Content of the destination button.
    pub fn content(&self) -> (r: &str)
        ensures
            r@ == self.content_view(),
    {
        self.content.as_str()
    }
}

/// Rendered bottom navigation.
#[derive(Debug, Clone)]
pub struct BottomNavigationRenderOutput {
    root_attributes: Vec<(String, String)>,
    items: Vec<BottomNavigationItemRender>,
}

impl BottomNavigationRenderOutput {
    /// Root attributes.
    pub closed spec fn root_view(&self) -> Seq<(Seq<char>, Seq<char>)> {
        pairs_view(self.root_attributes@)
    }

    /// Rendered destinations.
    pub closed spec fn items_view(&self) -> Seq<BottomNavigationItemRender> {
        self.items@
    }

    /// Attributes of the `<nav>` root.
    pub fn root_attributes(&self) -> (r: &[(String, String)])
        ensures
            pairs_view(r@) == self.root_view(),
    {
        self.root_attributes.as_slice()
    }

    /// Rendered destinations, in order.
    pub fn items(&self) -> (r: &[BottomNavigationItemRender])
        ensures
            r@ == self.items_view(),
    {
        self.items.as_slice()
    }
}

/// The selected index as text, empty when nothing is selected.
pub open spec fn selected_text(selected: Option<usize>) -> Seq<char> {
    match selected {
        Some(i) => decimal(i as nat),
        None => Seq::empty(),
    }
}

/// Root pairs: the state's landmark pairs, component marker, root hook,
/// selected index, and the selection event when given.
pub open spec fn bottom_navigation_root_pairs(
    attributes: LandmarkAttributes,
    selected: Option<usize>,
    on_select_event: Option<&str>,
) -> Seq<(Seq<char>, Seq<char>)> {
    let base = landmark_pairs(attributes) + seq![
        ("data-component"@, component_marker_text("bottom-navigation"@)),
        (automation_data_attr_text("bottom-navigation"@, seq!["root"@]), "true"@),
        ("data-selected-index"@, selected_text(selected)),
    ];
    match on_select_event {
        Some(e) => base.push(("data-on-select"@, e@)),
        None => base,
    }
}

/// Destination pairs: the state's pairs, the item hook and the marker.
pub open spec fn bottom_navigation_item_pairs(pairs: Seq<(Seq<char>, Seq<char>)>, index: nat) -> Seq<
    (Seq<char>, Seq<char>),
> {
    pairs + seq![
        (automation_data_attr_text("bottom-navigation"@, seq!["item"@, decimal(index)]), "true"@),
        ("data-component"@, component_marker_text("bottom-navigation-item"@)),
    ]
}

fn build_root_attributes(props: &BottomNavigationAdapterProps) -> (r: Vec<(String, String)>)
    ensures
        pairs_view(r@) == themed_pairs(
            props.classes.root@,
            bottom_navigation_root_pairs(*props.attributes, props.selected, props.on_select_event),
        ),
{
    let mut pairs = landmark_attribute_pairs(props.attributes);
    push_attr(&mut pairs, to_owned_string("data-component"), component_marker("bottom-navigation"));
    let segments = ["root"];
    let hook = automation_data_attr("bottom-navigation", &segments);
    assert(strs_view(segments@) =~= seq!["root"@]);
    push_attr(&mut pairs, hook, to_owned_string("true"));
    let selected = match props.selected {
        Some(index) => usize_to_string(index),
        None => String::new(),
    };
    push_attr(&mut pairs, to_owned_string("data-selected-index"), selected);
    if let Some(event) = props.on_select_event {
        push_attr(&mut pairs, to_owned_string("data-on-select"), to_owned_string(event));
    }
    assert(pairs_view(pairs@) =~= bottom_navigation_root_pairs(
        *props.attributes,
        props.selected,
        props.on_select_event,
    ));
    themed_attributes(props.classes.root.as_str(), &pairs)
}

fn build_item_attributes(class: &str, item_pairs: &Vec<(String, String)>, index: usize) -> (r: Vec<
    (String, String),
>)
    ensures
        pairs_view(r@) == themed_pairs(
            class@,
            bottom_navigation_item_pairs(pairs_view(item_pairs@), index as nat),
        ),
{
    let mut pairs: Vec<(String, String)> = Vec::new();
    extend_attrs(&mut pairs, item_pairs);
    let idx = usize_to_string(index);
    let segments = ["item", idx.as_str()];
    let hook = automation_data_attr("bottom-navigation", &segments);
    assert(strs_view(segments@) =~= seq!["item"@, decimal(index as nat)]);
    push_attr(&mut pairs, hook, to_owned_string("true"));
    push_attr(
        &mut pairs,
        to_owned_string("data-component"),
        component_marker("bottom-navigation-item"),
    );
    assert(pairs_view(pairs@) =~= bottom_navigation_item_pairs(
        pairs_view(item_pairs@),
        index as nat,
    ));
    themed_attributes(class, &pairs)
}

/// Renders the root attributes and one button per destination.
pub fn render_bottom_navigation(props: &BottomNavigationAdapterProps) -> (r:
    BottomNavigationRenderOutput)
    ensures
        r.root_view() == themed_pairs(
            props.classes.root@,
            bottom_navigation_root_pairs(*props.attributes, props.selected, props.on_select_event),
        ),
        r.items_view().len() == props.items@.len(),
        forall|i: int|
            0 <= i < props.items@.len() ==> (#[trigger] r.items_view()[i]).attributes_view()
                == themed_pairs(
                props.classes.item@,
                bottom_navigation_item_pairs(pairs_view(props.items@[i].state_pairs@), i as nat),
            ) && r.items_view()[i].content_view() == props.items@[i].content@,
{
    let root_attributes = build_root_attributes(props);
    let n = props.items.len();
    let mut items: Vec<BottomNavigationItemRender> = Vec::new();
    let mut i: usize = 0;
    while i < n
        invariant
            n == props.items@.len(),
            i <= n,
            items@.len() == i,
            forall|j: int|
                0 <= j < i ==> (#[trigger] items@[j]).attributes_view() == themed_pairs(
                    props.classes.item@,
                    bottom_navigation_item_pairs(pairs_view(props.items@[j].state_pairs@), j as nat),
                ) && items@[j].content_view() == props.items@[j].content@,
        decreases n - i,
    {
        let attributes = build_item_attributes(props.classes.item.as_str(), &props.items[i].state_pairs, i);
        let content = to_owned_string(props.items[i].content);
        items.push(BottomNavigationItemRender { attributes, content });
        i = i + 1;
    }
    BottomNavigationRenderOutput { root_attributes, items }
}

/// Concatenated `<button attrs>content</button>` of the destinations.
pub open spec fn buttons_html(items: Seq<BottomNavigationItemRender>) -> Seq<char>
    decreases items.len(),
{
    if items.len() == 0 {
        Seq::empty()
    } else {
        buttons_html(items.drop_last()) + element_text(
            "button"@,
            attrs_html(items.last().attributes_view()),
            items.last().content_view(),
        )
    }
}

/// `<nav attrs><button ..>..</button>...</nav>`.
pub fn render_bottom_navigation_html(props: &BottomNavigationAdapterProps) -> (r: String)
    ensures
        exists|out: BottomNavigationRenderOutput|
            out.root_view() == themed_pairs(
                props.classes.root@,
                bottom_navigation_root_pairs(
                    *props.attributes,
                    props.selected,
                    props.on_select_event,
                ),
            ) && out.items_view().len() == props.items@.len() && (forall|i: int|
                0 <= i < props.items@.len() ==> (#[trigger] out.items_view()[i]).attributes_view()
                    == themed_pairs(
                    props.classes.item@,
                    bottom_navigation_item_pairs(pairs_view(props.items@[i].state_pairs@), i as nat),
                ) && out.items_view()[i].content_view() == props.items@[i].content@) && r@
                == element_text(
                "nav"@,
                attrs_html(out.root_view()),
                buttons_html(out.items_view()),
            ),
{
    let rendered = render_bottom_navigation(props);
    let n = rendered.items.len();
    let mut body = String::new();
    let mut i: usize = 0;
    while i < n
        invariant
            n == rendered.items@.len(),
            i <= n,
            body@ == buttons_html(rendered.items@.subrange(0, i as int)),
        decreases n - i,
    {
        let item = &rendered.items[i];
        let attrs = attributes_to_html(&item.attributes);
        let button = wrap_element("button", attrs.as_str(), item.content.as_str());
        body.append(button.as_str());
        assert(rendered.items@.subrange(0, i + 1).drop_last() =~= rendered.items@.subrange(0, i as int));
        i = i + 1;
    }
    assert(rendered.items@.subrange(0, n as int) =~= rendered.items@);
    let root = attributes_to_html(&rendered.root_attributes);
    wrap_element("nav", root.as_str(), body.as_str())
}

} // verus!
