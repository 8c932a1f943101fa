//! Breadcrumbs renderer: themed `<nav>`/`<ol>` wrappers and, per crumb, a
//! list item, link and separator; the last crumb's separator is hidden.

use vstd::prelude::*;

use crate::attr_map::{pairs_view, push_attr};
use crate::landmark::{landmark_attribute_pairs, landmark_pairs, LandmarkAttributes};
use crate::markup::{attributes_to_html, attrs_html, element_text, themed_attributes, themed_pairs, wrap_element};
use crate::style_helpers::{
    automation_data_attr, automation_data_attr_text, component_marker, component_marker_text,
    strs_view,
};
use crate::text::{decimal, to_owned_string, usize_to_string};

verus! {

/// Describes one crumb.
#[derive(Debug, Clone)]
pub struct BreadcrumbItemDescriptor<'a> {
    /// DOM id of the link, when set. It is handed to the headless item
    /// builder, whose output (`link_pairs`) already carries it; rendering
    /// reads the pairs only.
    pub id: Option<&'a str>,
    /// Link target, when the crumb is navigable; like `id`, it reaches the
    /// markup through `link_pairs`.
    pub href: Option<&'a str>,
    /// Inner content of the link, injected verbatim.
    pub content: &'a str,
    /// Separator glyph shown after the crumb.
    pub separator: &'a str,
    /// Pairs the breadcrumbs state's item builder supplies for this crumb's
    /// link, after `id` and `href` were applied to it.
    pub link_pairs: Vec<(String, String)>,
}

/// Scoped classes of the breadcrumbs styles.
#[derive(Debug, Clone)]
pub struct BreadcrumbClasses {
    /// Class of the `<nav>` root.
    pub root: String,
    /// Class of the `<ol>` list.
    pub list: String,
    /// Class of each `<li>`.
    pub item: String,
    /// Class of each link.
    pub link: String,
    /// Class of each separator.
    pub separator: String,
}

/// Input of [`render_breadcrumbs`].
#[derive(Debug, Clone)]
pub struct BreadcrumbsAdapterProps<'a> {
    /// Root attributes of the state (role `navigation`, id, label, analytics).
    pub root_attributes: &'a LandmarkAttributes,
    /// List attributes of the state (role, id, analytics).
    pub list_attributes: &'a LandmarkAttributes,
    /// Crumbs, in order.
    pub items: &'a [BreadcrumbItemDescriptor<'a>],
    /// The state's separator pairs.
    pub separator_pairs: &'a Vec<(String, String)>,
    /// Event channel announced on activation.
    pub on_activate_event: Option<&'a str>,
    /// Scoped classes.
    pub classes: &'a BreadcrumbClasses,
}

/// Rendered crumb.
#[derive(Debug, Clone)]
pub struct BreadcrumbRenderItem {
    container_attributes: Vec<(String, String)>,
    link_attributes: Vec<(String, String)>,
    separator_attributes: Vec<(String, String)>,
    content: String,
    separator: String,
}

impl BreadcrumbRenderItem {
    /// `<li>` attributes.
    pub closed spec fn container_view(&self) -> Seq<(Seq<char>, Seq<char>)> {
        pairs_view(self.container_attributes@)
    }

    /// Link attributes.
    pub closed spec fn link_view(&self) -> Seq<(Seq<char>, Seq<char>)> {
        pairs_view(self.link_attributes@)
    }

    /// Separator attributes.
    pub closed spec fn separator_attrs_view(&self) -> Seq<(Seq<char>, Seq<char>)> {
        pairs_view(self.separator_attributes@)
    }

    /// Link content.
    pub closed spec fn content_view(&self) -> Seq<char> {
        self.content@
    }

    /// Separator glyph.
    pub closed spec fn separator_view(&self) -> Seq<char> {
        self.separator@
    }

    /// Attributes of the `<li>` wrapper.
    pub fn container_attributes(&self) -> (r: &[(String, String)])
        ensures
            pairs_view(r@) == self.container_view(),
    {
        self.container_attributes.as_slice()
    }

    /// Attributes of the link.
    pub fn link_attributes(&self) -> (r: &[(String, String)])
        ensures
            pairs_view(r@) == self.link_view(),
    {
        self.link_attributes.as_slice()
    }

    /// Attributes of the separator.
    pub fn separator_attributes(&self) -> (r: &[(String, String)])
        ensures
            pairs_view(r@) == self.separator_attrs_view(),
    {
        self.separator_attributes.as_slice()
    }

    /// Content of the link.
    pub fn content(&self) -> (r: &str)
        ensures
            r@ == self.content_view(),
    {
        self.content.as_str()
    }

    /// Separator glyph, empty for the last crumb.
    pub fn separator(&self) -> (r: &str)
        ensures
            r@ == self.separator_view(),
    {
        self.separator.as_str()
    }
}

/// Rendered breadcrumbs.
#[derive(Debug, Clone)]
pub struct BreadcrumbRenderOutput {
    root_attributes: Vec<(String, String)>,
    list_attributes: Vec<(String, String)>,
    items: Vec<BreadcrumbRenderItem>,
}

impl BreadcrumbRenderOutput {
    /// Root attributes.
    pub closed spec fn root_view(&self) -> Seq<(Seq<char>, Seq<char>)> {
        pairs_view(self.root_attributes@)
    }

    /// List attributes.
    pub closed spec fn list_view(&self) -> Seq<(Seq<char>, Seq<char>)> {
        pairs_view(self.list_attributes@)
    }

    /// Rendered crumbs.
    pub closed spec fn items_view(&self) -> Seq<BreadcrumbRenderItem> {
        self.items@
    }

    /// Attributes of the `<nav>` root.
    pub fn root_attributes(&self) -> (r: &[(String, String)])
        ensures
            pairs_view(r@) == self.root_view(),
    {
        self.root_attributes.as_slice()
    }

    /// Attributes of the `<ol>` list.
    pub fn list_attributes(&self) -> (r: &[(String, String)])
        ensures
            pairs_view(r@) == self.list_view(),
    {
        self.list_attributes.as_slice()
    }

    /// Rendered crumbs, in order.
    pub fn items(&self) -> (r: &[BreadcrumbRenderItem])
        ensures
            r@ == self.items_view(),
    {
        self.items.as_slice()
    }
}

/// Root pairs: landmark pairs, the activation event when given, component
/// marker and root hook.
pub open spec fn breadcrumbs_root_pairs(a: LandmarkAttributes, on_activate: Option<&str>) -> Seq<
    (Seq<char>, Seq<char>),
> {
    let base = match on_activate {
        Some(e) => landmark_pairs(a).push(("data-on-activate"@, e@)),
        None => landmark_pairs(a),
    };
    base + seq![
        ("data-component"@, component_marker_text("breadcrumbs"@)),
        (automation_data_attr_text("breadcrumbs"@, seq!["root"@]), "true"@),
    ]
}

/// List pairs: landmark pairs and the list hook.
pub open spec fn breadcrumbs_list_pairs(a: LandmarkAttributes) -> Seq<(Seq<char>, Seq<char>)> {
    landmark_pairs(a).push((automation_data_attr_text("breadcrumbs"@, seq!["list"@]), "true"@))
}

/// `<li>` pairs of crumb `index`.
pub open spec fn breadcrumbs_item_pairs(index: nat) -> Seq<(Seq<char>, Seq<char>)> {
    seq![
        (automation_data_attr_text("breadcrumbs"@, seq!["item"@, decimal(index)]), "true"@),
        ("data-component"@, component_marker_text("breadcrumbs-item"@)),
    ]
}

/// Separator attributes; the last crumb's separator is hidden.
pub open spec fn breadcrumbs_separator_attrs(
    class: Seq<char>,
    pairs: Seq<(Seq<char>, Seq<char>)>,
    is_last: bool,
) -> Seq<(Seq<char>, Seq<char>)> {
    if is_last {
        themed_pairs(class, pairs) + seq![("aria-hidden"@, "true"@), ("data-hidden"@, "true"@)]
    } else {
        themed_pairs(class, pairs)
    }
}

/// What crumb `i` renders as.
pub open spec fn crumb_matches(props: BreadcrumbsAdapterProps, item: BreadcrumbRenderItem, i: int) -> bool {
    let is_last = i + 1 == props.items@.len();
    &&& item.container_view() == themed_pairs(props.classes.item@, breadcrumbs_item_pairs(i as nat))
    &&& item.link_view() == themed_pairs(props.classes.link@, pairs_view(props.items@[i].link_pairs@))
    &&& item.separator_attrs_view() == breadcrumbs_separator_attrs(
        props.classes.separator@,
        pairs_view(props.separator_pairs@),
        is_last,
    )
    &&& item.content_view() == props.items@[i].content@
    &&& item.separator_view() == (if is_last {
        Seq::empty()
    } else {
        props.items@[i].separator@
    })
}

fn build_item(props: &BreadcrumbsAdapterProps, index: usize) -> (r: BreadcrumbRenderItem)
    requires
        index < props.items@.len(),
    ensures
        crumb_matches(*props, r, index as int),
{
    let is_last = index == props.items.len() - 1;
    let mut container: Vec<(String, String)> = Vec::new();
    let idx = usize_to_string(index);
    let segments = ["item", idx.as_str()];
    let hook = automation_data_attr("breadcrumbs", &segments);
    assert(strs_view(segments@) =~= seq!["item"@, decimal(index as nat)]);
    push_attr(&mut container, hook, to_owned_string("true"));
    push_attr(&mut container, to_owned_string("data-component"), component_marker("breadcrumbs-item"));
    assert(pairs_view(container@) =~= breadcrumbs_item_pairs(index as nat));
    let container_attributes = themed_attributes(props.classes.item.as_str(), &container);
    let link_attributes = themed_attributes(props.classes.link.as_str(), &props.items[index].link_pairs);
    let mut separator_attributes = themed_attributes(
        props.classes.separator.as_str(),
        props.separator_pairs,
    );
    if is_last {
        push_attr(&mut separator_attributes, to_owned_string("aria-hidden"), to_owned_string("true"));
        push_attr(&mut separator_attributes, to_owned_string("data-hidden"), to_owned_string("true"));
    }
    let descriptor = &props.items[index];
    let separator = if is_last {
        String::new()
    } else {
        to_owned_string(descriptor.separator)
    };
    let r = BreadcrumbRenderItem {
        container_attributes,
        link_attributes,
        separator_attributes,
        content: to_owned_string(descriptor.content),
        separator,
    };
    assert(r.separator_attrs_view() =~= breadcrumbs_separator_attrs(
        props.classes.separator@,
        pairs_view(props.separator_pairs@),
        is_last,
    ));
    r
}

/// Renders the root, list and crumb attributes.
pub fn render_breadcrumbs(props: &BreadcrumbsAdapterProps) -> (r: BreadcrumbRenderOutput)
    ensures
        r.root_view() == themed_pairs(
            props.classes.root@,
            breadcrumbs_root_pairs(*props.root_attributes, props.on_activate_event),
        ),
        r.list_view() == themed_pairs(
            props.classes.list@,
            breadcrumbs_list_pairs(*props.list_attributes),
        ),
        r.items_view().len() == props.items@.len(),
        forall|i: int|
            0 <= i < props.items@.len() ==> crumb_matches(*props, #[trigger] r.items_view()[i], i),
{
    let mut root = landmark_attribute_pairs(props.root_attributes);
    if let Some(event) = props.on_activate_event {
        push_attr(&mut root, to_owned_string("data-on-activate"), to_owned_string(event));
    }
    push_attr(&mut root, to_owned_string("data-component"), component_marker("breadcrumbs"));
    let root_segments = ["root"];
    let hook = automation_data_attr("breadcrumbs", &root_segments);
    assert(strs_view(root_segments@) =~= seq!["root"@]);
    push_attr(&mut root, hook, to_owned_string("true"));
    assert(pairs_view(root@) =~= breadcrumbs_root_pairs(*props.root_attributes, props.on_activate_event));
    let root_attributes = themed_attributes(props.classes.root.as_str(), &root);

    let mut list = landmark_attribute_pairs(props.list_attributes);
    let list_segments = ["list"];
    let list_hook = automation_data_attr("breadcrumbs", &list_segments);
    assert(strs_view(list_segments@) =~= seq!["list"@]);
    push_attr(&mut list, list_hook, to_owned_string("true"));
    let list_attributes = themed_attributes(props.classes.list.as_str(), &list);

    let n = props.items.len();
    let mut items: Vec<BreadcrumbRenderItem> = Vec::new();
    let mut i: usize = 0;
    while i < n
        invariant
            n == props.items@.len(),
            i <= n,
            items@.len() == i,
            forall|j: int| 0 <= j < i ==> crumb_matches(*props, #[trigger] items@[j], j),
        decreases n - i,
    {
        let item = build_item(props, i);
        items.push(item);
        i = i + 1;
    }
    BreadcrumbRenderOutput { root_attributes, list_attributes, items }
}

/// `<li>` of one crumb: the link, then the separator span unless the glyph is
/// empty.
pub open spec fn crumb_html(item: BreadcrumbRenderItem) -> Seq<char> {
    let link = element_text("a"@, attrs_html(item.link_view()), item.content_view());
    let sep = if item.separator_view().len() == 0 {
        Seq::empty()
    } else {
        element_text("span"@, attrs_html(item.separator_attrs_view()), item.separator_view())
    };
    element_text("li"@, attrs_html(item.container_view()), link + sep)
}

/// The crumbs' `<li>` elements, concatenated.
pub open spec fn crumbs_html(items: Seq<BreadcrumbRenderItem>) -> Seq<char>
    decreases items.len(),
{
    if items.len() == 0 {
        Seq::empty()
    } else {
        crumbs_html(items.drop_last()) + crumb_html(items.last())
    }
}

/// The markup of a rendered breadcrumbs output.
pub open spec fn breadcrumbs_html(out: BreadcrumbRenderOutput) -> Seq<char> {
    element_text(
        "nav"@,
        attrs_html(out.root_view()),
        element_text("ol"@, attrs_html(out.list_view()), crumbs_html(out.items_view())),
    )
}

/// `<nav ..><ol ..><li ..><a ..>..</a><span ..>..</span></li>...</ol></nav>`.
pub fn render_breadcrumbs_html(props: &BreadcrumbsAdapterProps) -> (r: String)
    ensures
        exists|out: BreadcrumbRenderOutput|
            out.root_view() == themed_pairs(
                props.classes.root@,
                breadcrumbs_root_pairs(*props.root_attributes, props.on_activate_event),
            ) && out.list_view() == themed_pairs(
                props.classes.list@,
                breadcrumbs_list_pairs(*props.list_attributes),
            ) && out.items_view().len() == props.items@.len() && (forall|i: int|
                0 <= i < props.items@.len() ==> crumb_matches(*props, #[trigger] out.items_view()[i], i))
                && r@ == breadcrumbs_html(out),
{
    let rendered = render_breadcrumbs(props);
    let n = rendered.items.len();
    let mut body = String::new();
    let mut i: usize = 0;
    while i < n
        invariant
            n == rendered.items@.len(),
            i <= n,
            body@ == crumbs_html(rendered.items@.subrange(0, i as int)),
        decreases n - i,
    {
        let item = &rendered.items[i];
        let link_attrs = attributes_to_html(&item.link_attributes);
        let mut inner = wrap_element("a", link_attrs.as_str(), item.content.as_str());
        if item.separator.as_str().unicode_len() != 0 {
            let sep_attrs = attributes_to_html(&item.separator_attributes);
            let sep = wrap_element("span", sep_attrs.as_str(), item.separator.as_str());
            inner.append(sep.as_str());
        } else {
            assert(inner@ =~= inner@ + Seq::<char>::empty());
        }
        let container_attrs = attributes_to_html(&item.container_attributes);
        let li = wrap_element("li", container_attrs.as_str(), inner.as_str());
        body.append(li.as_str());
        assert(rendered.items@.subrange(0, i + 1).drop_last() =~= rendered.items@.subrange(0, i as int));
        i = i + 1;
    }
    assert(rendered.items@.subrange(0, n as int) =~= rendered.items@);
    let list_attrs = attributes_to_html(&rendered.list_attributes);
    let list = wrap_element("ol", list_attrs.as_str(), body.as_str());
    let root_attrs = attributes_to_html(&rendered.root_attributes);
    wrap_element("nav", root_attrs.as_str(), list.as_str())
}

/// Only the last crumb hides its separator: crumb `i` of `n` renders an
/// empty separator whose attributes gain `aria-hidden="true"` and
/// `data-hidden="true"` exactly when `i + 1 == n`; every other crumb shows
/// its own separator with the separator attributes unchanged.
pub proof fn law_only_last_separator_hidden(props: BreadcrumbsAdapterProps, item: BreadcrumbRenderItem, i: int)
    requires
        0 <= i < props.items@.len(),
        crumb_matches(props, item, i),
    ensures
        ({
            let base = themed_pairs(props.classes.separator@, pairs_view(props.separator_pairs@));
            if i + 1 == props.items@.len() {
                &&& item.separator_view().len() == 0
                &&& item.separator_attrs_view().len() == base.len() + 2
                &&& item.separator_attrs_view().subrange(0, base.len() as int) == base
                &&& item.separator_attrs_view()[base.len() as int] == ("aria-hidden"@, "true"@)
                &&& item.separator_attrs_view()[base.len() as int + 1] == ("data-hidden"@, "true"@)
            } else {
                &&& item.separator_view() == props.items@[i].separator@
                &&& item.separator_attrs_view() == base
            }
        }),
{
    let base = themed_pairs(props.classes.separator@, pairs_view(props.separator_pairs@));
    if i + 1 == props.items@.len() {
        assert(item.separator_attrs_view().subrange(0, base.len() as int) =~= base);
    }
}

} // verus!
