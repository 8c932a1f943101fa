//! Link renderer: themed anchor attributes with component marker and
//! automation hook, and the anchor markup.

use vstd::prelude::*;

use crate::attr_map::{extend_attrs, pairs_view, push_attr};
use crate::markup::{attributes_to_html, attrs_html, element_text, themed_attributes, themed_pairs, wrap_element};
use crate::style_helpers::{
    automation_data_attr, automation_data_attr_text, component_marker, component_marker_text,
    strs_view, EMPTY_SEGMENTS,
};
use crate::text::to_owned_string;

verus! {

/// Input of [`render_link`].
#[derive(Debug, Clone)]
pub struct LinkAdapterProps<'a> {
    /// The anchor pairs built by the link state (`href`, `id`, `target`,
    /// `rel`, analytics, ...).
    pub attributes: &'a Vec<(String, String)>,
    /// Scoped class of the link style.
    pub class: &'a str,
    /// Inner content, injected verbatim.
    pub content: &'a str,
}

/// Rendered link.
#[derive(Debug, Clone)]
pub struct LinkRenderOutput {
    attributes: Vec<(String, String)>,
    content: String,
}

impl LinkRenderOutput {
    /// Anchor attributes.
    pub closed spec fn attributes_view(&self) -> Seq<(Seq<char>, Seq<char>)> {
        pairs_view(self.attributes@)
    }

    /// Anchor content.
    pub closed spec fn content_view(&self) -> Seq<char> {
        self.content@
    }

    /// Attributes of the anchor.
    pub fn attributes(&self) -> (r: &[(String, String)])
        ensures
            pairs_view(r@) == self.attributes_view(),
    {
        self.attributes.as_slice()
    }

    /// Content of the anchor.
    pub fn content(&self) -> (r: &str)
        ensures
            r@ == self.content_view(),
    {
        self.content.as_str()
    }
}

/// The anchor's pairs: the state's, then `data-component` and the
/// `data-rustic-link` hook, led by the class.
pub open spec fn link_pairs(class: Seq<char>, pairs: Seq<(Seq<char>, Seq<char>)>) -> Seq<
    (Seq<char>, Seq<char>),
> {
    themed_pairs(
        class,
        pairs + seq![
            ("data-component"@, component_marker_text("link"@)),
            (automation_data_attr_text("link"@, Seq::empty()), "true"@),
        ],
    )
}

/// Renders the link attributes and content.
pub fn render_link(props: &LinkAdapterProps) -> (r: LinkRenderOutput)
    ensures
        r.attributes_view() == link_pairs(props.class@, pairs_view(props.attributes@)),
        r.content_view() == props.content@,
{
    let mut pairs: Vec<(String, String)> = Vec::new();
    extend_attrs(&mut pairs, props.attributes);
    push_attr(&mut pairs, to_owned_string("data-component"), component_marker("link"));
    let hook = automation_data_attr("link", &EMPTY_SEGMENTS);
    assert(strs_view(EMPTY_SEGMENTS@) =~= Seq::<Seq<char>>::empty());
    push_attr(&mut pairs, hook, to_owned_string("true"));
    assert(pairs_view(pairs@) =~= pairs_view(props.attributes@) + seq![
        ("data-component"@, component_marker_text("link"@)),
        (automation_data_attr_text("link"@, Seq::empty()), "true"@),
    ]);
    let attributes = themed_attributes(props.class, &pairs);
    LinkRenderOutput { attributes, content: to_owned_string(props.content) }
}

/// `<a attrs>content</a>`.
pub fn render_link_html(props: &LinkAdapterProps) -> (r: String)
    ensures
        r@ == element_text(
            "a"@,
            attrs_html(link_pairs(props.class@, pairs_view(props.attributes@))),
            props.content@,
        ),
{
    let rendered = render_link(props);
    let attrs = attributes_to_html(&rendered.attributes);
    wrap_element("a", attrs.as_str(), rendered.content.as_str())
}

} // verus!
