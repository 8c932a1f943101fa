//! Rating renderer: themed root attributes and one button per star with an
//! accessible label, fill level and automation hooks.

use vstd::prelude::*;

use crate::attr_map::{extend_attrs, pairs_view, push_attr};
use crate::markup::{attributes_to_html, attrs_html, element_text, themed_attributes, themed_pairs, wrap_element};
use crate::style_helpers::{
    automation_data_attr, automation_data_attr_text, automation_id, automation_id_text,
    component_marker, component_marker_text, strs_view,
};
use crate::text::{decimal, to_owned_string, u64_to_string};

verus! {

/// Whether the rating value is owned by the caller or by the component.
#[derive(Debug, Clone, Copy, PartialEq, Eq, Structural)]
pub enum RatingControlMode {
    /// The caller owns the value.
    Controlled,
    /// The component owns the value.
    Uncontrolled,
}

/// What the renderer reads of one star of the rating state.
#[derive(Debug, Clone)]
pub struct RatingItemSnapshot {
    /// Zero-based position of the star.
    pub index: usize,
    /// The state's pairs for the star button.
    pub pairs: Vec<(String, String)>,
    /// The star's value as displayed (`"1"`, `"2.5"`).
    pub value_text: String,
    /// Whether the value is one (singular label).
    pub singular: bool,
    /// Fill level in percent as displayed (`"100"`, `"50"`).
    pub fill_percent_text: String,
}

/// What the renderer reads of the rating state.
#[derive(Debug, Clone)]
pub struct RatingSnapshot {
    /// The state's root pairs.
    pub root_pairs: Vec<(String, String)>,
    /// Number of stars.
    pub max: u16,
    /// Precision as displayed with two decimals (`"0.50"`).
    pub precision_text: String,
    /// The stars, in order.
    pub items: Vec<RatingItemSnapshot>,
}

/// Scoped classes of the rating styles.
#[derive(Debug, Clone)]
pub struct RatingClasses {
    /// Class of the root.
    pub root: String,
    /// Class of each star button.
    pub item: String,
    /// Class of each star icon.
    pub icon: String,
}

/// Input of [`render_rating`].
#[derive(Debug, Clone)]
pub struct RatingAdapterProps<'a> {
    /// The rating state.
    pub state: &'a RatingSnapshot,
    /// DOM id of the root, if any.
    pub id: Option<&'a str>,
    /// Accessible label of the root, if any.
    pub label: Option<&'a str>,
    /// Automation id, if any.
    pub automation_id: Option<&'a str>,
    /// Control mode.
    pub control: RatingControlMode,
    /// Scoped classes.
    pub classes: &'a RatingClasses,
}

/// Rendered rating.
#[derive(Debug, Clone)]
pub struct RatingRenderOutput {
    root_attributes: Vec<(String, String)>,
    html: String,
}

impl RatingRenderOutput {
    /// Root attributes.
    pub closed spec fn root_view(&self) -> Seq<(Seq<char>, Seq<char>)> {
        pairs_view(self.root_attributes@)
    }

    /// Markup.
    pub closed spec fn html_view(&self) -> Seq<char> {
        self.html@
    }

    /// Attributes of the root element.
    pub fn root_attributes(&self) -> (r: &[(String, String)])
        ensures
            pairs_view(r@) == self.root_view(),
    {
        self.root_attributes.as_slice()
    }

    /// Serialised markup.
    pub fn html(&self) -> (r: &str)
        ensures
            r@ == self.html_view(),
    {
        self.html.as_str()
    }
}


/// Root pairs of the rating.
pub open spec fn rating_root_pairs(props: RatingAdapterProps) -> Seq<(Seq<char>, Seq<char>)> {
    let with_id = match props.id {
        Some(id) => pairs_view(props.state.root_pairs@).push(("id"@, id@)),
        None => pairs_view(props.state.root_pairs@),
    };
    let with_label = match props.label {
        Some(l) => with_id.push(("aria-label"@, l@)),
        None => with_id,
    };
    let base = with_label + seq![
        ("data-component"@, component_marker_text("rating"@)),
        (
            "data-controlled"@,
            if props.control == RatingControlMode::Controlled {
                "true"@
            } else {
                "false"@
            },
        ),
        (automation_data_attr_text("rating"@, seq!["root"@]), "true"@),
        ("data-max"@, decimal(props.state.max as nat)),
        ("data-precision"@, props.state.precision_text@),
    ];
    match props.automation_id {
        Some(id) => base.push(("data-automation-id"@, automation_id_text("rating"@, Some(id@), Seq::empty()))),
        None => base,
    }
}

/// `<value> star` or `<value> stars`.
pub open spec fn star_label_text(item: RatingItemSnapshot) -> Seq<char> {
    item.value_text@ + " star"@ + (if item.singular {
        Seq::empty()
    } else {
        "s"@
    })
}

/// Pairs of a star button.
pub open spec fn rating_item_pairs(automation: Option<&str>, item: RatingItemSnapshot) -> Seq<
    (Seq<char>, Seq<char>),
> {
    let position = decimal(item.index as nat + 1);
    let base = pairs_view(item.pairs@) + seq![
        ("type"@, "button"@),
        ("aria-label"@, star_label_text(item)),
        (automation_data_attr_text("rating"@, seq!["item"@, position]), "true"@),
        ("data-component"@, component_marker_text("rating-item"@)),
    ];
    match automation {
        Some(id) => base.push(
            ("data-automation-id"@, automation_id_text("rating"@, Some(id@), seq!["item"@, position])),
        ),
        None => base,
    }
}

/// Pairs of a star icon.
pub open spec fn rating_icon_pairs(item: RatingItemSnapshot) -> Seq<(Seq<char>, Seq<char>)> {
    seq![
        ("aria-hidden"@, "true"@),
        ("style"@, "--rustic-rating-fill: "@ + item.fill_percent_text@ + "%;"@),
    ]
}

/// Markup of one star.
pub open spec fn rating_item_html(classes: RatingClasses, automation: Option<&str>, item: RatingItemSnapshot) -> Seq<
    char,
> {
    element_text(
        "button"@,
        attrs_html(themed_pairs(classes.item@, rating_item_pairs(automation, item))),
        element_text("span"@, attrs_html(themed_pairs(classes.icon@, rating_icon_pairs(item))), Seq::empty()),
    )
}

/// Markup of the first `n` stars.
pub open spec fn rating_items_html(props: RatingAdapterProps, n: nat) -> Seq<char>
    decreases n,
{
    if n == 0 {
        Seq::empty()
    } else {
        rating_items_html(props, (n - 1) as nat) + rating_item_html(
            *props.classes,
            props.automation_id,
            props.state.items@[n - 1],
        )
    }
}

fn build_root_attributes(props: &RatingAdapterProps) -> (r: Vec<(String, String)>)
    ensures
        pairs_view(r@) == themed_pairs(props.classes.root@, rating_root_pairs(*props)),
{
    let mut pairs: Vec<(String, String)> = Vec::new();
    extend_attrs(&mut pairs, &props.state.root_pairs);
    if let Some(id) = props.id {
        push_attr(&mut pairs, to_owned_string("id"), to_owned_string(id));
    }
    if let Some(label) = props.label {
        push_attr(&mut pairs, to_owned_string("aria-label"), to_owned_string(label));
    }
    push_attr(&mut pairs, to_owned_string("data-component"), component_marker("rating"));
    let controlled = match props.control {
        RatingControlMode::Controlled => to_owned_string("true"),
        RatingControlMode::Uncontrolled => to_owned_string("false"),
    };
    push_attr(&mut pairs, to_owned_string("data-controlled"), controlled);
    let segments = ["root"];
    assert(strs_view(segments@) =~= seq!["root"@]);
    push_attr(&mut pairs, automation_data_attr("rating", &segments), to_owned_string("true"));
    push_attr(&mut pairs, to_owned_string("data-max"), u64_to_string(props.state.max as u64));
    push_attr(&mut pairs, to_owned_string("data-precision"), props.state.precision_text.clone());
    if let Some(id) = props.automation_id {
        let empty: [&str; 0] = [];
        assert(strs_view(empty@) =~= Seq::<Seq<char>>::empty());
        push_attr(&mut pairs, to_owned_string("data-automation-id"), automation_id("rating", Some(id), &empty));
    }
    assert(pairs_view(pairs@) =~= rating_root_pairs(*props));
    themed_attributes(props.classes.root.as_str(), &pairs)
}

fn render_item(props: &RatingAdapterProps, item: &RatingItemSnapshot) -> (r: String)
    requires
        item.index < u64::MAX,
    ensures
        r@ == rating_item_html(*props.classes, props.automation_id, *item),
{
    let mut pairs: Vec<(String, String)> = Vec::new();
    extend_attrs(&mut pairs, &item.pairs);
    push_attr(&mut pairs, to_owned_string("type"), to_owned_string("button"));
    let mut label = item.value_text.clone();
    label.append(" star");
    if !item.singular {
        label.append("s");
    }
    push_attr(&mut pairs, to_owned_string("aria-label"), label);
    let position = u64_to_string(item.index as u64 + 1);
    let segments = ["item", position.as_str()];
    assert(strs_view(segments@) =~= seq!["item"@, decimal(item.index as nat + 1)]);
    push_attr(&mut pairs, automation_data_attr("rating", &segments), to_owned_string("true"));
    push_attr(&mut pairs, to_owned_string("data-component"), component_marker("rating-item"));
    if let Some(id) = props.automation_id {
        push_attr(&mut pairs, to_owned_string("data-automation-id"), automation_id("rating", Some(id), &segments));
    }
    assert(pairs_view(pairs@) =~= rating_item_pairs(props.automation_id, *item));
    let button_attrs = themed_attributes(props.classes.item.as_str(), &pairs);
    let mut icon: Vec<(String, String)> = Vec::new();
    push_attr(&mut icon, to_owned_string("aria-hidden"), to_owned_string("true"));
    let mut style = to_owned_string("--rustic-rating-fill: ");
    style.append(item.fill_percent_text.as_str());
    style.append("%;");
    push_attr(&mut icon, to_owned_string("style"), style);
    assert(pairs_view(icon@) =~= rating_icon_pairs(*item));
    let icon_attrs = themed_attributes(props.classes.icon.as_str(), &icon);
    let icon_html = attributes_to_html(&icon_attrs);
    let span = wrap_element("span", icon_html.as_str(), "");
    proof {
        reveal_strlit("");
    }
    assert(""@ =~= Seq::<char>::empty());
    let button_html = attributes_to_html(&button_attrs);
    wrap_element("button", button_html.as_str(), span.as_str())
}

/// Renders the root attributes and the markup `<div root>stars</div>`.
pub fn render_rating(props: &RatingAdapterProps) -> (r: RatingRenderOutput)
    requires
        forall|i: int| 0 <= i < props.state.items@.len() ==> #[trigger] props.state.items@[i].index < u64::MAX,
    ensures
        r.root_view() == themed_pairs(props.classes.root@, rating_root_pairs(*props)),
        r.html_view() == element_text(
            "div"@,
            attrs_html(r.root_view()),
            rating_items_html(*props, props.state.items@.len()),
        ),
{
    let root_attributes = build_root_attributes(props);
    let n = props.state.items.len();
    let mut body = String::new();
    let mut i: usize = 0;
    while i < n
        invariant
            n == props.state.items@.len(),
            i <= n,
            forall|j: int| 0 <= j < n ==> #[trigger] props.state.items@[j].index < u64::MAX,
            body@ == rating_items_html(*props, i as nat),
        decreases n - i,
    {
        let item_html = render_item(props, &props.state.items[i]);
        body.append(item_html.as_str());
        i = i + 1;
    }
    let root_html = attributes_to_html(&root_attributes);
    let html = wrap_element("div", root_html.as_str(), body.as_str());
    RatingRenderOutput { root_attributes, html }
}

/// The markup of [`render_rating`].
pub fn render_rating_html(props: &RatingAdapterProps) -> (r: String)
    requires
        forall|i: int| 0 <= i < props.state.items@.len() ==> #[trigger] props.state.items@[i].index < u64::MAX,
    ensures
        r@ == element_text(
            "div"@,
            attrs_html(themed_pairs(props.classes.root@, rating_root_pairs(*props))),
            rating_items_html(*props, props.state.items@.len()),
        ),
{
    let out = render_rating(props);
    out.html
}

/// [`render_rating_html`] in controlled mode.
pub fn render_controlled(props: &RatingAdapterProps) -> (r: String)
    requires
        forall|i: int| 0 <= i < props.state.items@.len() ==> #[trigger] props.state.items@[i].index < u64::MAX,
    ensures
        r@ == element_text(
            "div"@,
            attrs_html(
                themed_pairs(
                    props.classes.root@,
                    rating_root_pairs(RatingAdapterProps { control: RatingControlMode::Controlled, ..*props }),
                ),
            ),
            rating_items_html(
                RatingAdapterProps { control: RatingControlMode::Controlled, ..*props },
                props.state.items@.len(),
            ),
        ),
{
    let controlled = RatingAdapterProps {
        state: props.state,
        id: props.id,
        label: props.label,
        automation_id: props.automation_id,
        control: RatingControlMode::Controlled,
        classes: props.classes,
    };
    render_rating_html(&controlled)
}

/// [`render_rating_html`] in uncontrolled mode.
pub fn render_uncontrolled(props: &RatingAdapterProps) -> (r: String)
    requires
        forall|i: int| 0 <= i < props.state.items@.len() ==> #[trigger] props.state.items@[i].index < u64::MAX,
    ensures
        r@ == element_text(
            "div"@,
            attrs_html(
                themed_pairs(
                    props.classes.root@,
                    rating_root_pairs(RatingAdapterProps { control: RatingControlMode::Uncontrolled, ..*props }),
                ),
            ),
            rating_items_html(
                RatingAdapterProps { control: RatingControlMode::Uncontrolled, ..*props },
                props.state.items@.len(),
            ),
        ),
{
    let uncontrolled = RatingAdapterProps {
        state: props.state,
        id: props.id,
        label: props.label,
        automation_id: props.automation_id,
        control: RatingControlMode::Uncontrolled,
        classes: props.classes,
    };
    render_rating_html(&uncontrolled)
}

} // verus!
