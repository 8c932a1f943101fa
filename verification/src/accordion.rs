//! Accordion renderer: themed summary and panel attribute lists carrying the
//! accessibility wiring of each item plus automation hooks.

use vstd::prelude::*;

use crate::attr_map::{extend_attrs, pairs_view, push_attr};
use crate::markup::{themed_attributes, themed_pairs};
use crate::style_helpers::{automation_data_attr, automation_data_attr_text};
use crate::text::{decimal, to_owned_string, usize_to_string};

verus! {

/// Describes a single accordion item and the ids used for automation hooks.
#[derive(Debug, Clone)]
pub struct AccordionItemDescriptor<'a> {
    /// DOM id for the summary button.
    pub summary_id: &'a str,
    /// DOM id for the associated panel.
    pub panel_id: &'a str,
    /// Accessibility pairs the accordion state supplies for this item.
    pub accessibility: AccordionItemAccessibility,
}

/// The accessibility attributes the accordion state supplies for one item:
/// those of the summary (which controls the panel) and of the panel (labelled
/// by the summary).
#[derive(Debug, Clone)]
pub struct AccordionItemAccessibility {
    /// Pairs for the summary element (`aria-expanded`, `aria-controls`, ...).
    pub summary: Vec<(String, String)>,
    /// Pairs for the details panel (`role`, `aria-labelledby`, `hidden`, ...).
    pub details: Vec<(String, String)>,
}

/// The scoped classes of the accordion's themed styles.
#[derive(Debug, Clone)]
pub struct AccordionClasses {
    /// Class of the root container.
    pub root: String,
    /// Class of each summary button.
    pub summary: String,
    /// Class of each details panel.
    pub details: String,
}

/// Input of [`render_accordion`].
#[derive(Debug, Clone)]
pub struct AccordionAdapterProps<'a> {
    /// Static description of the rendered items.
    pub items: &'a [AccordionItemDescriptor<'a>],
    /// Scoped classes.
    pub classes: &'a AccordionClasses,
}

/// Rendered output for a single accordion item.
#[derive(Debug, Clone)]
pub struct AccordionItemRender {
    summary_attributes: Vec<(String, String)>,
    details_attributes: Vec<(String, String)>,
}

impl AccordionItemRender {
    /// Summary attributes.
    pub closed spec fn summary_view(&self) -> Seq<(Seq<char>, Seq<char>)> {
        pairs_view(self.summary_attributes@)
    }

    /// Panel attributes.
    pub closed spec fn details_view(&self) -> Seq<(Seq<char>, Seq<char>)> {
        pairs_view(self.details_attributes@)
    }

    /// Attributes attached to the summary element.
    pub fn summary_attributes(&self) -> (r: &[(String, String)])
        ensures
            pairs_view(r@) == self.summary_view(),
    {
        self.summary_attributes.as_slice()
    }

    /// Attributes attached to the details panel.
    pub fn details_attributes(&self) -> (r: &[(String, String)])
        ensures
            pairs_view(r@) == self.details_view(),
    {
        self.details_attributes.as_slice()
    }
}

/// Rendered output for an accordion group.
#[derive(Debug, Clone)]
pub struct AccordionRenderOutput {
    root_class: String,
    items: Vec<AccordionItemRender>,
}

impl AccordionRenderOutput {
    /// Root class.
    pub closed spec fn root_class_view(&self) -> Seq<char> {
        self.root_class@
    }

    /// Rendered items.
    pub closed spec fn items_view(&self) -> Seq<AccordionItemRender> {
        self.items@
    }

    /// Class attached to the accordion root container.
    pub fn root_class(&self) -> (r: &str)
        ensures
            r@ == self.root_class_view(),
    {
        self.root_class.as_str()
    }

    /// Rendered items with merged accessibility data.
    pub fn items(&self) -> (r: &[AccordionItemRender])
        ensures
            r@ == self.items_view(),
    {
        self.items.as_slice()
    }
}

/// `data-rustic-accordion-<part>-<index>`.
pub open spec fn accordion_hook(part: Seq<char>, index: nat) -> Seq<char> {
    automation_data_attr_text("accordion"@, seq![part, decimal(index)])
}

/// Summary attributes of item `index`: the summary class, the state's pairs,
/// the summary id and the automation hook.
pub open spec fn summary_pairs(
    class: Seq<char>,
    aria: Seq<(Seq<char>, Seq<char>)>,
    summary_id: Seq<char>,
    index: nat,
) -> Seq<(Seq<char>, Seq<char>)> {
    themed_pairs(
        class,
        aria + seq![("id"@, summary_id), (accordion_hook("summary"@, index), "true"@)],
    )
}

/// Panel attributes of item `index`: the details class, the state's pairs,
/// the panel id and the automation hook.
pub open spec fn details_pairs(
    class: Seq<char>,
    aria: Seq<(Seq<char>, Seq<char>)>,
    panel_id: Seq<char>,
    index: nat,
) -> Seq<(Seq<char>, Seq<char>)> {
    themed_pairs(
        class,
        aria + seq![("id"@, panel_id), (accordion_hook("panel"@, index), "true"@)],
    )
}

fn build_item_attributes(
    class: &str,
    aria: &Vec<(String, String)>,
    id: &str,
    part: &str,
    index: usize,
) -> (r: Vec<(String, String)>)
    ensures
        pairs_view(r@) == themed_pairs(
            class@,
            pairs_view(aria@) + seq![("id"@, id@), (accordion_hook(part@, index as nat), "true"@)],
        ),
{
    let mut attrs: Vec<(String, String)> = Vec::new();
    extend_attrs(&mut attrs, aria);
    push_attr(&mut attrs, to_owned_string("id"), to_owned_string(id));
    let idx = usize_to_string(index);
    let segments = [part, idx.as_str()];
    let hook = automation_data_attr("accordion", &segments);
    assert(crate::style_helpers::strs_view(segments@) =~= seq![part@, decimal(index as nat)]);
    push_attr(&mut attrs, hook, to_owned_string("true"));
    assert(pairs_view(attrs@) =~= pairs_view(aria@) + seq![
        ("id"@, id@),
        (accordion_hook(part@, index as nat), "true"@),
    ]);
    themed_attributes(class, &attrs)
}

/// Renders the accordion into its root class and, for each item, themed
/// summary and panel attribute lists.
pub fn render_accordion(props: &AccordionAdapterProps) -> (r: AccordionRenderOutput)
    ensures
        r.root_class_view() == props.classes.root@,
        r.items_view().len() == props.items@.len(),
        forall|i: int|
            0 <= i < props.items@.len() ==> (#[trigger] r.items_view()[i]).summary_view()
                == summary_pairs(
                props.classes.summary@,
                pairs_view(props.items@[i].accessibility.summary@),
                props.items@[i].summary_id@,
                i as nat,
            ) && r.items_view()[i].details_view() == details_pairs(
                props.classes.details@,
                pairs_view(props.items@[i].accessibility.details@),
                props.items@[i].panel_id@,
                i as nat,
            ),
{
    let n = props.items.len();
    let mut items: Vec<AccordionItemRender> = Vec::new();
    let mut i: usize = 0;
    while i < n
        invariant
            n == props.items@.len(),
            i <= n,
            items@.len() == i,
            forall|j: int|
                0 <= j < i ==> (#[trigger] items@[j]).summary_view() == summary_pairs(
                    props.classes.summary@,
                    pairs_view(props.items@[j].accessibility.summary@),
                    props.items@[j].summary_id@,
                    j as nat,
                ) && items@[j].details_view() == details_pairs(
                    props.classes.details@,
                    pairs_view(props.items@[j].accessibility.details@),
                    props.items@[j].panel_id@,
                    j as nat,
                ),
        decreases n - i,
    {
        let descriptor = &props.items[i];
        let access = &props.items[i].accessibility;
        let summary_attributes = build_item_attributes(
            props.classes.summary.as_str(),
            &access.summary,
            descriptor.summary_id,
            "summary",
            i,
        );
        let details_attributes = build_item_attributes(
            props.classes.details.as_str(),
            &access.details,
            descriptor.panel_id,
            "panel",
            i,
        );
        items.push(AccordionItemRender { summary_attributes, details_attributes });
        i = i + 1;
    }
    AccordionRenderOutput { root_class: props.classes.root.clone(), items }
}

} // verus!
