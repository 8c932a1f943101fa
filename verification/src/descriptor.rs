//! Descriptors shared by the checkbox, switch and radio renderers.
//!
//! A toggle descriptor is a label, the scoped class of the control's style and
//! an ordered list of attribute pairs (ARIA state from the headless state
//! machine, data flags, telemetry identifiers). Pairs are kept in insertion
//! order; adding a key that is already present appends a second pair. The
//! themed attribute list is the class pair followed by every pair in order.

use vstd::prelude::*;

use crate::attr_map::{attrs_have_key, clone_attrs, extend_attrs, has_key, pairs_view, push_attr_str};
use crate::markup::{
    attributes_to_html, attrs_html, element_text, render_element_html, themed_attributes,
    themed_pairs,
};
use crate::telemetry::{opt_text, TelemetryHooks};
use crate::text::{has_prefix, str_eq, str_starts_with, to_owned_string};

verus! {

/// ARIA keys: `role`, `tabindex` and every `aria-*` key.
pub open spec fn is_aria_key(key: Seq<char>) -> bool {
    key == "role"@ || key == "tabindex"@ || has_prefix(key, "aria-"@)
}

/// Data keys: every `data-*` key.
pub open spec fn is_data_key(key: Seq<char>) -> bool {
    has_prefix(key, "data-"@)
}

/// The pairs of `s` whose key is an ARIA key, in order.
pub open spec fn aria_pairs(s: Seq<(Seq<char>, Seq<char>)>) -> Seq<(Seq<char>, Seq<char>)>
    decreases s.len(),
{
    if s.len() == 0 {
        Seq::empty()
    } else if is_aria_key(s.last().0) {
        aria_pairs(s.drop_last()).push(s.last())
    } else {
        aria_pairs(s.drop_last())
    }
}

/// The pairs of `s` whose key is a data key, in order.
pub open spec fn data_pairs(s: Seq<(Seq<char>, Seq<char>)>) -> Seq<(Seq<char>, Seq<char>)>
    decreases s.len(),
{
    if s.len() == 0 {
        Seq::empty()
    } else if is_data_key(s.last().0) {
        data_pairs(s.drop_last()).push(s.last())
    } else {
        data_pairs(s.drop_last())
    }
}

/// Executable [`is_aria_key`].
pub fn aria_key(key: &str) -> (r: bool)
    ensures
        r == is_aria_key(key@),
{
    str_eq(key, "role") || str_eq(key, "tabindex") || str_starts_with(key, "aria-")
}

/// Executable [`is_data_key`].
pub fn data_key_like(key: &str) -> (r: bool)
    ensures
        r == is_data_key(key@),
{
    str_starts_with(key, "data-")
}

/// The pairs of `attrs` selected by [`aria_key`] (`aria == true`) or by
/// [`data_key_like`] (`aria == false`), in order.
fn select_pairs(attrs: &Vec<(String, String)>, aria: bool) -> (r: Vec<(String, String)>)
    ensures
        pairs_view(r@) == (if aria {
            aria_pairs(pairs_view(attrs@))
        } else {
            data_pairs(pairs_view(attrs@))
        }),
{
    let ghost pv = pairs_view(attrs@);
    let n = attrs.len();
    let mut out: Vec<(String, String)> = Vec::new();
    let mut i: usize = 0;
    while i < n
        invariant
            n == attrs@.len(),
            pv == pairs_view(attrs@),
            i <= n,
            pairs_view(out@) == (if aria {
                aria_pairs(pv.subrange(0, i as int))
            } else {
                data_pairs(pv.subrange(0, i as int))
            }),
        decreases n - i,
    {
        let key = attrs[i].0.as_str();
        let keep = if aria {
            aria_key(key)
        } else {
            data_key_like(key)
        };
        proof {
            let s = pv.subrange(0, i + 1);
            assert(s.drop_last() =~= pv.subrange(0, i as int));
            assert(s.last() == pv[i as int]);
        }
        if keep {
            push_attr_str(&mut out, key, attrs[i].1.as_str());
        }
        i = i + 1;
    }
    assert(pv.subrange(0, n as int) =~= pv);
    out
}

/// Descriptor of a single toggle control (checkbox, switch or radio option).
#[derive(Debug)]
pub struct ToggleControlDescriptor {
    label: String,
    class: String,
    attributes: Vec<(String, String)>,
}

/// Radio options are described exactly like toggle controls.
pub type RadioOptionDescriptor = ToggleControlDescriptor;

impl ToggleControlDescriptor {
    /// Visible label.
    pub closed spec fn label_view(&self) -> Seq<char> {
        self.label@
    }

    /// Scoped class of the control's style.
    pub closed spec fn class_view(&self) -> Seq<char> {
        self.class@
    }

    /// Attribute pairs in insertion order.
    pub closed spec fn pairs(&self) -> Seq<(Seq<char>, Seq<char>)> {
        pairs_view(self.attributes@)
    }

    /// The class pair followed by every attribute pair.
    pub open spec fn themed(&self) -> Seq<(Seq<char>, Seq<char>)> {
        themed_pairs(self.class_view(), self.pairs())
    }

    /// A descriptor with no attributes.
    pub fn new(label: &str, class: &str) -> (r: Self)
        ensures
            r.label_view() == label@,
            r.class_view() == class@,
            r.pairs() == Seq::<(Seq<char>, Seq<char>)>::empty(),
    {
        let r = ToggleControlDescriptor {
            label: to_owned_string(label),
            class: to_owned_string(class),
            attributes: Vec::new(),
        };
        assert(pairs_view(r.attributes@) =~= Seq::<(Seq<char>, Seq<char>)>::empty());
        r
    }

    /// Appends every pair of `attrs`, in order.
    pub fn with_attributes(self, attrs: &Vec<(String, String)>) -> (r: Self)
        ensures
            r.label_view() == self.label_view(),
            r.class_view() == self.class_view(),
            r.pairs() == self.pairs() + pairs_view(attrs@),
    {
        let mut s = self;
        extend_attrs(&mut s.attributes, attrs);
        s
    }

    /// Appends one pair.
    pub fn attribute(self, key: &str, value: &str) -> (r: Self)
        ensures
            r.label_view() == self.label_view(),
            r.class_view() == self.class_view(),
            r.pairs() == self.pairs().push((key@, value@)),
    {
        let mut s = self;
        push_attr_str(&mut s.attributes, key, value);
        s
    }

    /// The label.
    pub fn label(&self) -> (r: &str)
        ensures
            r@ == self.label_view(),
    {
        self.label.as_str()
    }

    /// The scoped class.
    pub fn class(&self) -> (r: &str)
        ensures
            r@ == self.class_view(),
    {
        self.class.as_str()
    }

    /// Every attribute pair in insertion order.
    pub fn attributes(&self) -> (r: &Vec<(String, String)>)
        ensures
            pairs_view(r@) == self.pairs(),
    {
        &self.attributes
    }

    /// The ARIA pairs (`role`, `tabindex`, `aria-*`), in order.
    pub fn aria_attributes(&self) -> (r: Vec<(String, String)>)
        ensures
            pairs_view(r@) == aria_pairs(self.pairs()),
    {
        select_pairs(&self.attributes, true)
    }

    /// The `data-*` pairs, in order.
    pub fn data_state_attributes(&self) -> (r: Vec<(String, String)>)
        ensures
            pairs_view(r@) == data_pairs(self.pairs()),
    {
        select_pairs(&self.attributes, false)
    }

    /// The class pair followed by every attribute pair.
    pub fn themed_attributes(&self) -> (r: Vec<(String, String)>)
        ensures
            pairs_view(r@) == self.themed(),
    {
        themed_attributes(self.class.as_str(), &self.attributes)
    }

    /// An independent copy of the descriptor.
    pub fn duplicate(&self) -> (r: Self)
        ensures
            r.label_view() == self.label_view(),
            r.class_view() == self.class_view(),
            r.pairs() == self.pairs(),
    {
        ToggleControlDescriptor {
            label: self.label.clone(),
            class: self.class.clone(),
            attributes: clone_attrs(&self.attributes),
        }
    }
}

/// `<span attrs>label</span>` for one toggle descriptor.
pub open spec fn toggle_html(class: Seq<char>, pairs: Seq<(Seq<char>, Seq<char>)>, label: Seq<char>) -> Seq<
    char,
> {
    element_text("span"@, attrs_html(themed_pairs(class, pairs)), label)
}

/// Serialises a toggle control as `<span attrs>label</span>`.
pub fn render_toggle_html(descriptor: &ToggleControlDescriptor) -> (r: String)
    ensures
        r@ == toggle_html(descriptor.class_view(), descriptor.pairs(), descriptor.label_view()),
{
    render_element_html("span", descriptor.class.as_str(), &descriptor.attributes, descriptor.label.as_str())
}

/// Label, class and pairs of one option.
pub type OptionParts = (Seq<char>, Seq<char>, Seq<(Seq<char>, Seq<char>)>);

/// The label, class and pairs of each descriptor, in order.
pub open spec fn option_parts(options: Seq<ToggleControlDescriptor>) -> Seq<OptionParts> {
    Seq::new(options.len(), |i: int| (options[i].label_view(), options[i].class_view(), options[i].pairs()))
}

/// The markup of every option, concatenated in order.
pub open spec fn options_html(options: Seq<OptionParts>) -> Seq<char>
    decreases options.len(),
{
    if options.len() == 0 {
        Seq::empty()
    } else {
        options_html(options.drop_last()) + toggle_html(
            options.last().1,
            options.last().2,
            options.last().0,
        )
    }
}

/// Descriptor of a radio group: the group container's class and pairs, and
/// the option descriptors in order.
#[derive(Debug)]
pub struct RadioGroupDescriptor {
    class: String,
    attributes: Vec<(String, String)>,
    options: Vec<ToggleControlDescriptor>,
}

impl RadioGroupDescriptor {
    /// Scoped class of the group container.
    pub closed spec fn class_view(&self) -> Seq<char> {
        self.class@
    }

    /// Group attribute pairs in insertion order.
    pub closed spec fn group_pairs(&self) -> Seq<(Seq<char>, Seq<char>)> {
        pairs_view(self.attributes@)
    }

    /// Option descriptors in order.
    pub closed spec fn options_view(&self) -> Seq<ToggleControlDescriptor> {
        self.options@
    }

    /// A group with no attributes and no options.
    pub fn new(class: &str) -> (r: Self)
        ensures
            r.class_view() == class@,
            r.group_pairs() == Seq::<(Seq<char>, Seq<char>)>::empty(),
            r.options_view() == Seq::<ToggleControlDescriptor>::empty(),
    {
        let r = RadioGroupDescriptor {
            class: to_owned_string(class),
            attributes: Vec::new(),
            options: Vec::new(),
        };
        assert(pairs_view(r.attributes@) =~= Seq::<(Seq<char>, Seq<char>)>::empty());
        r
    }

    /// Appends every pair of `attrs` to the group pairs.
    pub fn with_group_attributes(self, attrs: &Vec<(String, String)>) -> (r: Self)
        ensures
            r.class_view() == self.class_view(),
            r.group_pairs() == self.group_pairs() + pairs_view(attrs@),
            r.options_view() == self.options_view(),
    {
        let mut s = self;
        extend_attrs(&mut s.attributes, attrs);
        s
    }

    /// Appends one group pair.
    pub fn group_attribute(self, key: &str, value: &str) -> (r: Self)
        ensures
            r.class_view() == self.class_view(),
            r.group_pairs() == self.group_pairs().push((key@, value@)),
            r.options_view() == self.options_view(),
    {
        let mut s = self;
        push_attr_str(&mut s.attributes, key, value);
        s
    }

    /// Appends an option.
    pub fn option(self, option: ToggleControlDescriptor) -> (r: Self)
        ensures
            r.class_view() == self.class_view(),
            r.group_pairs() == self.group_pairs(),
            r.options_view() == self.options_view().push(option),
    {
        let mut s = self;
        s.options.push(option);
        s
    }

    /// The option descriptors.
    pub fn options(&self) -> (r: &[ToggleControlDescriptor])
        ensures
            r@ == self.options_view(),
    {
        self.options.as_slice()
    }

    /// The scoped class of the group.
    pub fn class(&self) -> (r: &str)
        ensures
            r@ == self.class_view(),
    {
        self.class.as_str()
    }

    /// The group's ARIA pairs (`role`, `tabindex`, `aria-*`), in order.
    pub fn aria_attributes(&self) -> (r: Vec<(String, String)>)
        ensures
            pairs_view(r@) == aria_pairs(self.group_pairs()),
    {
        select_pairs(&self.attributes, true)
    }

    /// The group's `data-*` pairs, in order.
    pub fn data_state_attributes(&self) -> (r: Vec<(String, String)>)
        ensures
            pairs_view(r@) == data_pairs(self.group_pairs()),
    {
        select_pairs(&self.attributes, false)
    }

    /// The group's class pair followed by every group pair.
    pub fn group_thematic_attributes(&self) -> (r: Vec<(String, String)>)
        ensures
            pairs_view(r@) == themed_pairs(self.class_view(), self.group_pairs()),
    {
        themed_attributes(self.class.as_str(), &self.attributes)
    }
}

/// `<div attrs>options</div>` for a radio group.
pub open spec fn radio_group_html(
    class: Seq<char>,
    pairs: Seq<(Seq<char>, Seq<char>)>,
    options: Seq<OptionParts>,
) -> Seq<char> {
    element_text("div"@, attrs_html(themed_pairs(class, pairs)), options_html(options))
}

/// Serialises a radio group as `<div attrs>` followed by each option's
/// `<span>` markup and `</div>`.
pub fn render_radio_group_html(descriptor: &RadioGroupDescriptor) -> (r: String)
    ensures
        r@ == radio_group_html(
            descriptor.class_view(),
            descriptor.group_pairs(),
            option_parts(descriptor.options_view()),
        ),
{
    let ghost ov = option_parts(descriptor.options@);
    let n = descriptor.options.len();
    let mut children = String::new();
    let mut i: usize = 0;
    while i < n
        invariant
            n == ov.len(),
            n == descriptor.options@.len(),
            ov == option_parts(descriptor.options@),
            i <= n,
            children@ == options_html(ov.subrange(0, i as int)),
        decreases n - i,
    {
        let html = render_toggle_html(&descriptor.options[i]);
        children.append(html.as_str());
        assert(ov.subrange(0, i + 1).drop_last() =~= ov.subrange(0, i as int));
        i = i + 1;
    }
    assert(ov.subrange(0, n as int) =~= ov);
    let attrs = themed_attributes(descriptor.class.as_str(), &descriptor.attributes);
    let attrs_text = attributes_to_html(&attrs);
    let out = crate::markup::wrap_element("div", attrs_text.as_str(), children.as_str());
    out
}

/// `data-rustic-analytics-id`.
pub open spec fn analytics_key() -> Seq<char> {
    "data-rustic-analytics-id"@
}

/// `data-automation-id`.
pub open spec fn automation_key() -> Seq<char> {
    "data-automation-id"@
}

/// Appends `(key, value)` when a value is given and no data pair under `key`
/// is present yet.
pub open spec fn with_missing(
    pairs: Seq<(Seq<char>, Seq<char>)>,
    key: Seq<char>,
    value: Option<Seq<char>>,
) -> Seq<(Seq<char>, Seq<char>)> {
    if value is Some && !has_key(data_pairs(pairs), key) {
        pairs.push((key, value->0))
    } else {
        pairs
    }
}

/// The pairs after the telemetry identifiers are merged in: the analytics
/// identifier first, then the automation identifier, each only where the
/// pairs do not carry it already.
pub open spec fn telemetry_merged(
    pairs: Seq<(Seq<char>, Seq<char>)>,
    analytics: Option<Seq<char>>,
    automation: Option<Seq<char>>,
) -> Seq<(Seq<char>, Seq<char>)> {
    with_missing(with_missing(pairs, analytics_key(), analytics), automation_key(), automation)
}

/// Adds the telemetry identifiers to a toggle descriptor without overriding
/// identifiers it already carries.
pub fn apply_option_telemetry(option: ToggleControlDescriptor, telemetry: &TelemetryHooks) -> (r:
    ToggleControlDescriptor)
    ensures
        r.label_view() == option.label_view(),
        r.class_view() == option.class_view(),
        r.pairs() == telemetry_merged(
            option.pairs(),
            opt_text(telemetry.analytics_id),
            opt_text(telemetry.automation_id),
        ),
{
    let mut option = option;
    let data = option.data_state_attributes();
    if !attrs_have_key(&data, "data-rustic-analytics-id") {
        if let Some(analytics) = &telemetry.analytics_id {
            option = option.attribute("data-rustic-analytics-id", analytics.as_str());
        }
    }
    let data = option.data_state_attributes();
    if !attrs_have_key(&data, "data-automation-id") {
        if let Some(automation) = &telemetry.automation_id {
            option = option.attribute("data-automation-id", automation.as_str());
        }
    }
    option
}

/// Adds the telemetry identifiers to a radio group's own pairs without
/// overriding identifiers it already carries.
pub fn apply_group_telemetry(descriptor: RadioGroupDescriptor, telemetry: &TelemetryHooks) -> (r:
    RadioGroupDescriptor)
    ensures
        r.class_view() == descriptor.class_view(),
        r.options_view() == descriptor.options_view(),
        r.group_pairs() == telemetry_merged(
            descriptor.group_pairs(),
            opt_text(telemetry.analytics_id),
            opt_text(telemetry.automation_id),
        ),
{
    let mut descriptor = descriptor;
    let data = descriptor.data_state_attributes();
    if !attrs_have_key(&data, "data-rustic-analytics-id") {
        if let Some(analytics) = &telemetry.analytics_id {
            descriptor = descriptor.group_attribute("data-rustic-analytics-id", analytics.as_str());
        }
    }
    let data = descriptor.data_state_attributes();
    if !attrs_have_key(&data, "data-automation-id") {
        if let Some(automation) = &telemetry.automation_id {
            descriptor = descriptor.group_attribute("data-automation-id", automation.as_str());
        }
    }
    descriptor
}

/// The data pairs of a list with one pair appended.
pub proof fn lemma_data_pairs_push(pairs: Seq<(Seq<char>, Seq<char>)>, pair: (Seq<char>, Seq<char>))
    ensures
        data_pairs(pairs.push(pair)) == (if is_data_key(pair.0) {
            data_pairs(pairs).push(pair)
        } else {
            data_pairs(pairs)
        }),
{
    assert(pairs.push(pair).drop_last() =~= pairs);
}

/// Both telemetry keys are data keys.
pub proof fn lemma_telemetry_keys_are_data_keys()
    ensures
        is_data_key(analytics_key()),
        is_data_key(automation_key()),
{
    reveal_strlit("data-rustic-analytics-id");
    reveal_strlit("data-automation-id");
    reveal_strlit("data-");
    assert(analytics_key().subrange(0, 5) =~= "data-"@);
    assert(automation_key().subrange(0, 5) =~= "data-"@);
}

/// A data key present among the data pairs stays present when a pair is
/// appended.
pub proof fn lemma_has_data_key_push(
    pairs: Seq<(Seq<char>, Seq<char>)>,
    pair: (Seq<char>, Seq<char>),
    key: Seq<char>,
)
    requires
        has_key(data_pairs(pairs), key),
    ensures
        has_key(data_pairs(pairs.push(pair)), key),
{
    lemma_data_pairs_push(pairs, pair);
    let d = data_pairs(pairs);
    let i = choose|i: int| 0 <= i < d.len() && #[trigger] d[i].0 == key;
    if is_data_key(pair.0) {
        assert(d.push(pair)[i].0 == key);
    }
}

/// After [`with_missing`] with a value, the key is among the data pairs.
pub proof fn lemma_with_missing_present(
    pairs: Seq<(Seq<char>, Seq<char>)>,
    key: Seq<char>,
    value: Option<Seq<char>>,
)
    requires
        value is Some,
        is_data_key(key),
    ensures
        has_key(data_pairs(with_missing(pairs, key, value)), key),
{
    if !has_key(data_pairs(pairs), key) {
        lemma_data_pairs_push(pairs, (key, value->0));
        let d = data_pairs(pairs.push((key, value->0)));
        assert(d[d.len() - 1].0 == key);
    }
}

/// [`with_missing`] keeps the data keys that are already present.
pub proof fn lemma_with_missing_keeps(
    pairs: Seq<(Seq<char>, Seq<char>)>,
    key: Seq<char>,
    value: Option<Seq<char>>,
    other: Seq<char>,
)
    requires
        has_key(data_pairs(pairs), other),
    ensures
        has_key(data_pairs(with_missing(pairs, key, value)), other),
{
    if value is Some && !has_key(data_pairs(pairs), key) {
        lemma_has_data_key_push(pairs, (key, value->0), other);
    }
}

/// Merging the telemetry identifiers twice is merging them once: a merged
/// descriptor already carries every identifier that is set.
pub proof fn lemma_merge_idempotent(
    pairs: Seq<(Seq<char>, Seq<char>)>,
    analytics: Option<Seq<char>>,
    automation: Option<Seq<char>>,
)
    ensures
        telemetry_merged(telemetry_merged(pairs, analytics, automation), analytics, automation)
            == telemetry_merged(pairs, analytics, automation),
{
    lemma_telemetry_keys_are_data_keys();
    let p1 = with_missing(pairs, analytics_key(), analytics);
    let q = with_missing(p1, automation_key(), automation);
    if analytics is Some {
        lemma_with_missing_present(pairs, analytics_key(), analytics);
        lemma_with_missing_keeps(p1, automation_key(), automation, analytics_key());
    }
    assert(with_missing(q, analytics_key(), analytics) == q);
    if automation is Some {
        lemma_with_missing_present(p1, automation_key(), automation);
    }
}

} // verus!
