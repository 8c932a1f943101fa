//! Attribute builders for selection controls (checkboxes, switches) and radio
//! groups: classes, ARIA, data, automation and extra attributes kept in
//! ordered maps, serialised deterministically for SSR.

use vstd::prelude::*;

pub use crate::descriptor::{
    render_radio_group_html, render_toggle_html, RadioGroupDescriptor, RadioOptionDescriptor,
    ToggleControlDescriptor,
};

use crate::attr_map::{extend_attrs, pairs_view, push_attr, AttrMap};
use crate::markup::{
    attributes_to_html, attrs_html, class_key, class_key_string, element_text, themed_attributes,
    themed_pairs, wrap_element,
};
use crate::text::{
    compare_str, has_prefix, lemma_seq_lt_asymmetric, lemma_seq_lt_irreflexive, lemma_seq_lt_total,
    lemma_seq_lt_transitive, push_char, seq_lt, str_starts_with, to_owned_string,
};

verus! {

/// Class names joined with single spaces.
pub open spec fn join_space(classes: Seq<Seq<char>>) -> Seq<char>
    decreases classes.len(),
{
    if classes.len() == 0 {
        Seq::empty()
    } else if classes.len() == 1 {
        classes[0]
    } else {
        join_space(classes.drop_last()).push(' ') + classes.last()
    }
}

/// Strictly increasing in code-point order (hence free of duplicates).
pub open spec fn strictly_sorted(s: Seq<Seq<char>>) -> bool {
    forall|i: int, j: int| 0 <= i < j < s.len() ==> seq_lt(#[trigger] s[i], #[trigger] s[j])
}

/// The views of a list of strings.
pub open spec fn strings_view(v: Seq<String>) -> Seq<Seq<char>> {
    Seq::new(v.len(), |i: int| v[i]@)
}

/// Strictly sorted lists with the same elements are the same list: the
/// normalised class list depends only on which classes were added, not on
/// the order or the repetitions.
pub proof fn lemma_sorted_classes_unique(a: Seq<Seq<char>>, b: Seq<Seq<char>>)
    requires
        strictly_sorted(a),
        strictly_sorted(b),
        a.to_set() == b.to_set(),
    ensures
        a == b,
    decreases a.len() + b.len(),
{
    if a.len() == 0 || b.len() == 0 {
        if a.len() > 0 {
            assert(a.to_set().contains(a[0]));
        }
        if b.len() > 0 {
            assert(b.to_set().contains(b[0]));
        }
        assert(a =~= b);
    } else {
        let la = a.last();
        let lb = b.last();
        assert(a.to_set().contains(la));
        assert(b.to_set().contains(lb));
        let ia = choose|i: int| 0 <= i < a.len() && a[i] == lb;
        let ib = choose|i: int| 0 <= i < b.len() && b[i] == la;
        if la != lb {
            lemma_seq_lt_total(la, lb);
            if seq_lt(la, lb) {
                if ia < a.len() - 1 {
                    lemma_seq_lt_asymmetric(la, lb);
                }
                lemma_seq_lt_irreflexive(la);
            } else {
                if ib < b.len() - 1 {
                    lemma_seq_lt_asymmetric(lb, la);
                }
                lemma_seq_lt_irreflexive(lb);
            }
        }
        assert(la == lb);
        let ta = a.drop_last();
        let tb = b.drop_last();
        assert forall|x: Seq<char>| ta.to_set().contains(x) <==> tb.to_set().contains(x) by {
            if ta.to_set().contains(x) {
                let i = choose|i: int| 0 <= i < ta.len() && ta[i] == x;
                assert(a[i] == x);
                assert(b.to_set().contains(x));
                let j = choose|j: int| 0 <= j < b.len() && b[j] == x;
                if j == b.len() - 1 {
                    lemma_seq_lt_irreflexive(x);
                }
                assert(tb[j] == x);
            }
            if tb.to_set().contains(x) {
                let j = choose|j: int| 0 <= j < tb.len() && tb[j] == x;
                assert(b[j] == x);
                assert(a.to_set().contains(x));
                let i = choose|i: int| 0 <= i < a.len() && a[i] == x;
                if i == a.len() - 1 {
                    lemma_seq_lt_irreflexive(x);
                }
                assert(ta[i] == x);
            }
        }
        assert(ta.to_set() =~= tb.to_set());
        lemma_sorted_classes_unique(ta, tb);
        assert(a =~= ta.push(la));
        assert(b =~= tb.push(lb));
    }
}

/// Inserts `c` into a strictly sorted list unless it is already there.
fn insert_class_sorted(classes: &mut Vec<String>, c: String)
    requires
        strictly_sorted(strings_view(old(classes)@)),
    ensures
        strictly_sorted(strings_view(final(classes)@)),
        strings_view(final(classes)@).to_set() == strings_view(old(classes)@).to_set().insert(c@),
{
    let ghost s = strings_view(classes@);
    let ghost k = c@;
    let n = classes.len();
    let mut p: usize = 0;
    let mut found = false;
    while p < n
        invariant_except_break
            !found,
        invariant
            n == classes@.len(),
            s == strings_view(classes@),
            k == c@,
            strictly_sorted(s),
            p <= n,
            forall|j: int| 0 <= j < p ==> seq_lt(#[trigger] s[j], k),
        ensures
            p <= n,
            found ==> p < n && s[p as int] == k,
            !found ==> (forall|j: int| 0 <= j < p ==> seq_lt(#[trigger] s[j], k)),
            !found ==> (p < n ==> seq_lt(k, s[p as int])),
        decreases n - p,
    {
        let order = compare_str(classes[p].as_str(), c.as_str());
        if order == 0 {
            found = true;
            break;
        } else if order > 0 {
            break;
        }
        p = p + 1;
    }
    if found {
        assert(s.to_set().insert(k) =~= s.to_set());
        return;
    }
    classes.insert(p, c);
    let ghost t = strings_view(classes@);
    assert(t =~= s.insert(p as int, k));
    assert(t.to_set() =~= s.to_set().insert(k)) by {
        assert forall|x: Seq<char>| t.to_set().contains(x) <==> s.to_set().insert(k).contains(x) by {
            if t.to_set().contains(x) {
                let i = choose|i: int| 0 <= i < t.len() && t[i] == x;
                if i < p {
                    assert(s[i] == x);
                } else if i > p {
                    assert(s[i - 1] == x);
                }
            }
            if s.to_set().contains(x) {
                let i = choose|i: int| 0 <= i < s.len() && s[i] == x;
                if i < p {
                    assert(t[i] == x);
                } else {
                    assert(t[i + 1] == x);
                }
            }
            if x == k {
                assert(t[p as int] == x);
            }
        }
    }
    assert forall|i: int, j: int| 0 <= i < j < t.len() implies seq_lt(#[trigger] t[i], #[trigger] t[j]) by {
        if i < p && j < p {
            assert(t[i] == s[i] && t[j] == s[j]);
        } else if i < p && j == p {
            assert(t[i] == s[i]);
        } else if i < p {
            assert(t[i] == s[i] && t[j] == s[j - 1]);
        } else if i == p {
            assert(t[j] == s[j - 1]);
            if j - 1 > p {
                lemma_seq_lt_transitive(k, s[p as int], s[j - 1]);
            }
        } else {
            assert(t[i] == s[i - 1] && t[j] == s[j - 1]);
        }
    }
}

/// Sorts class names and removes duplicates (`sort` then `dedup`).
pub fn sort_dedup_classes(classes: &Vec<String>) -> (r: Vec<String>)
    ensures
        strictly_sorted(strings_view(r@)),
        strings_view(r@).to_set() == strings_view(classes@).to_set(),
{
    let mut out: Vec<String> = Vec::new();
    let n = classes.len();
    let mut i: usize = 0;
    assert(strings_view(out@).to_set() =~= strings_view(classes@.subrange(0, 0)).to_set());
    while i < n
        invariant
            n == classes@.len(),
            i <= n,
            strictly_sorted(strings_view(out@)),
            strings_view(out@).to_set() == strings_view(classes@.subrange(0, i as int)).to_set(),
        decreases n - i,
    {
        insert_class_sorted(&mut out, classes[i].clone());
        assert(strings_view(classes@.subrange(0, i + 1)) =~= strings_view(classes@.subrange(0, i as int)).push(
            classes@[i as int]@,
        ));
        proof {
            strings_view(classes@.subrange(0, i as int)).lemma_push_to_set_commute(classes@[i as int]@);
        }
        assert(strings_view(classes@.subrange(0, i + 1)).to_set() =~= strings_view(
            classes@.subrange(0, i as int),
        ).to_set().insert(classes@[i as int]@));
        i = i + 1;
    }
    assert(classes@.subrange(0, n as int) =~= classes@);
    out
}

/// Class names joined with single spaces.
pub fn join_classes(classes: &Vec<String>) -> (r: String)
    ensures
        r@ == join_space(strings_view(classes@)),
{
    let ghost cv = strings_view(classes@);
    let n = classes.len();
    let mut out = String::new();
    let mut i: usize = 0;
    while i < n
        invariant
            n == classes@.len(),
            cv == strings_view(classes@),
            i <= n,
            out@ == join_space(cv.subrange(0, i as int)),
        decreases n - i,
    {
        if i > 0 {
            push_char(&mut out, ' ');
        }
        out.append(classes[i].as_str());
        assert(cv.subrange(0, i + 1).drop_last() =~= cv.subrange(0, i as int));
        i = i + 1;
    }
    assert(cv.subrange(0, n as int) =~= cv);
    out
}

/// `data-<key>` unless the key already starts with `data-`.
pub open spec fn data_key_text(key: Seq<char>) -> Seq<char> {
    if has_prefix(key, "data-"@) {
        key
    } else {
        "data-"@ + key
    }
}

/// Normalises a data attribute key.
pub fn data_key(key: &str) -> (r: String)
    ensures
        r@ == data_key_text(key@),
{
    if str_starts_with(key, "data-") {
        to_owned_string(key)
    } else {
        let mut out = to_owned_string("data-");
        out.append(key);
        out
    }
}

/// Each automation entry `(k, v)` as `("data-automation-k", v)`.
pub open spec fn automation_pairs(entries: Seq<(Seq<char>, Seq<char>)>) -> Seq<(Seq<char>, Seq<char>)> {
    Seq::new(entries.len(), |i: int| ("data-automation-"@ + entries[i].0, entries[i].1))
}

fn push_automation_pairs(out: &mut Vec<(String, String)>, automation: &AttrMap)
    ensures
        pairs_view(final(out)@) == pairs_view(old(out)@) + automation_pairs(automation@),
{
    let entries = automation.entries();
    let ghost ev = automation@;
    let ghost start = pairs_view(out@);
    let n = entries.len();
    let mut i: usize = 0;
    while i < n
        invariant
            n == entries@.len(),
            ev == pairs_view(entries@),
            i <= n,
            pairs_view(out@) == start + automation_pairs(ev.subrange(0, i as int)),
        decreases n - i,
    {
        let mut key = to_owned_string("data-automation-");
        key.append(entries[i].0.as_str());
        push_attr(out, key, entries[i].1.clone());
        assert(automation_pairs(ev.subrange(0, i + 1)) =~= automation_pairs(ev.subrange(0, i as int)).push(
            ("data-automation-"@ + ev[i as int].0, ev[i as int].1),
        ));
        i = i + 1;
    }
    assert(ev.subrange(0, n as int) =~= ev);
}

/// The attribute buckets shared by every selection-control descriptor.
#[derive(Debug)]
pub struct AttributeSet {
    classes: Vec<String>,
    aria: AttrMap,
    data: AttrMap,
    automation_ids: AttrMap,
    attributes: AttrMap,
}

/// `class` (when any class is set), extra attributes, ARIA, data, then
/// automation ids as `data-automation-*`.
pub open spec fn base_pairs_text(
    classes: Seq<Seq<char>>,
    attributes: Seq<(Seq<char>, Seq<char>)>,
    aria: Seq<(Seq<char>, Seq<char>)>,
    data: Seq<(Seq<char>, Seq<char>)>,
    automation: Seq<(Seq<char>, Seq<char>)>,
) -> Seq<(Seq<char>, Seq<char>)> {
    let head = if classes.len() == 0 {
        Seq::empty()
    } else {
        seq![(class_key(), join_space(classes))]
    };
    head + attributes + aria + data + automation_pairs(automation)
}

impl AttributeSet {
    /// Class names, in order.
    pub closed spec fn classes_view(&self) -> Seq<Seq<char>> {
        strings_view(self.classes@)
    }

    /// ARIA bucket.
    pub closed spec fn aria_spec(&self) -> AttrMap {
        self.aria
    }

    /// Data bucket.
    pub closed spec fn data_spec(&self) -> AttrMap {
        self.data
    }

    /// Automation bucket.
    pub closed spec fn automation_spec(&self) -> AttrMap {
        self.automation_ids
    }

    /// Extra attributes bucket.
    pub closed spec fn attributes_spec(&self) -> AttrMap {
        self.attributes
    }

    /// The pairs of [`AttributeSet::base_attribute_pairs`].
    pub open spec fn base_pairs(&self) -> Seq<(Seq<char>, Seq<char>)> {
        base_pairs_text(
            self.classes_view(),
            self.attributes_spec()@,
            self.aria_spec()@,
            self.data_spec()@,
            self.automation_spec()@,
        )
    }

    /// Empty buckets.
    pub fn new() -> (r: Self)
        ensures
            r.classes_view().len() == 0,
            r.aria_spec().map() == Map::<Seq<char>, Seq<char>>::empty(),
            r.data_spec().map() == Map::<Seq<char>, Seq<char>>::empty(),
            r.automation_spec().map() == Map::<Seq<char>, Seq<char>>::empty(),
            r.attributes_spec().map() == Map::<Seq<char>, Seq<char>>::empty(),
    {
        AttributeSet {
            classes: Vec::new(),
            aria: AttrMap::new(),
            data: AttrMap::new(),
            automation_ids: AttrMap::new(),
            attributes: AttrMap::new(),
        }
    }

    /// Appends a class name.
    pub fn add_class(&mut self, class: &str)
        ensures
            final(self).classes_view() == old(self).classes_view().push(class@),
            final(self).aria_spec() == old(self).aria_spec(),
            final(self).data_spec() == old(self).data_spec(),
            final(self).automation_spec() == old(self).automation_spec(),
            final(self).attributes_spec() == old(self).attributes_spec(),
    {
        self.classes.push(to_owned_string(class));
        assert(strings_view(self.classes@) =~= strings_view(old(self).classes@).push(class@));
    }

    /// Sets an ARIA attribute.
    pub fn set_aria(&mut self, key: &str, value: &str)
        ensures
            final(self).aria_spec().map() == old(self).aria_spec().map().insert(key@, value@),
            final(self).classes_view() == old(self).classes_view(),
            final(self).data_spec() == old(self).data_spec(),
            final(self).automation_spec() == old(self).automation_spec(),
            final(self).attributes_spec() == old(self).attributes_spec(),
    {
        self.aria.insert_str(key, value);
    }

    /// Sets a data attribute; the key gets a `data-` prefix unless it has one.
    pub fn set_data(&mut self, key: &str, value: &str)
        ensures
            final(self).data_spec().map() == old(self).data_spec().map().insert(data_key_text(key@), value@),
            final(self).classes_view() == old(self).classes_view(),
            final(self).aria_spec() == old(self).aria_spec(),
            final(self).automation_spec() == old(self).automation_spec(),
            final(self).attributes_spec() == old(self).attributes_spec(),
    {
        let k = data_key(key);
        self.data.insert(k, to_owned_string(value));
    }

    /// Sets an automation id, emitted as `data-automation-<key>`.
    pub fn set_automation_id(&mut self, key: &str, value: &str)
        ensures
            final(self).automation_spec().map() == old(self).automation_spec().map().insert(key@, value@),
            final(self).classes_view() == old(self).classes_view(),
            final(self).aria_spec() == old(self).aria_spec(),
            final(self).data_spec() == old(self).data_spec(),
            final(self).attributes_spec() == old(self).attributes_spec(),
    {
        self.automation_ids.insert_str(key, value);
    }

    /// Sets an extra attribute.
    pub fn set_attribute(&mut self, key: &str, value: &str)
        ensures
            final(self).attributes_spec().map() == old(self).attributes_spec().map().insert(key@, value@),
            final(self).classes_view() == old(self).classes_view(),
            final(self).aria_spec() == old(self).aria_spec(),
            final(self).data_spec() == old(self).data_spec(),
            final(self).automation_spec() == old(self).automation_spec(),
    {
        self.attributes.insert_str(key, value);
    }

    /// Sorts the class names and drops duplicates.
    pub fn normalise_classes(&mut self)
        ensures
            strictly_sorted(final(self).classes_view()),
            final(self).classes_view().to_set() == old(self).classes_view().to_set(),
            final(self).aria_spec() == old(self).aria_spec(),
            final(self).data_spec() == old(self).data_spec(),
            final(self).automation_spec() == old(self).automation_spec(),
            final(self).attributes_spec() == old(self).attributes_spec(),
    {
        let sorted = sort_dedup_classes(&self.classes);
        self.classes = sorted;
    }

    /// The class names, in order.
    pub fn classes(&self) -> (r: &Vec<String>)
        ensures
            strings_view(r@) == self.classes_view(),
    {
        &self.classes
    }

    /// The ARIA bucket.
    pub fn aria_map(&self) -> (r: &AttrMap)
        ensures
            *r == self.aria_spec(),
    {
        &self.aria
    }

    /// The data bucket.
    pub fn data_map(&self) -> (r: &AttrMap)
        ensures
            *r == self.data_spec(),
    {
        &self.data
    }

    /// The automation bucket.
    pub fn automation_ids(&self) -> (r: &AttrMap)
        ensures
            *r == self.automation_spec(),
    {
        &self.automation_ids
    }

    /// The extra attributes bucket.
    pub fn extra_attributes(&self) -> (r: &AttrMap)
        ensures
            *r == self.attributes_spec(),
    {
        &self.attributes
    }

    /// Data attributes followed by the automation ids as `data-automation-*`.
    pub fn data_state_attributes(&self) -> (r: Vec<(String, String)>)
        ensures
            pairs_view(r@) == self.data_spec()@ + automation_pairs(self.automation_spec()@),
    {
        let mut out = self.data.pairs();
        push_automation_pairs(&mut out, &self.automation_ids);
        out
    }

    /// `class`, extra attributes, ARIA, data and automation pairs, in that
    /// order.
    pub fn base_attribute_pairs(&self) -> (r: Vec<(String, String)>)
        ensures
            pairs_view(r@) == self.base_pairs(),
    {
        let mut out: Vec<(String, String)> = Vec::new();
        if self.classes.len() > 0 {
            push_attr(&mut out, class_key_string(), join_classes(&self.classes));
        }
        extend_attrs(&mut out, self.attributes.entries());
        extend_attrs(&mut out, self.aria.entries());
        extend_attrs(&mut out, self.data.entries());
        push_automation_pairs(&mut out, &self.automation_ids);
        assert(pairs_view(out@) =~= self.base_pairs());
        out
    }
}


/// Descriptor of a checkbox or switch: its label, style class and attribute buckets.
#[derive(Debug)]
pub struct SelectionControlAttributes {
    label: String,
    class: String,
    set: AttributeSet,
}

/// Builder of [`SelectionControlAttributes`].
#[derive(Debug)]
pub struct SelectionControlAttributesBuilder {
    label: String,
    class: String,
    set: AttributeSet,
}

impl SelectionControlAttributes {
    /// The label.
    pub closed spec fn label_view(&self) -> Seq<char> {
        self.label@
    }

    /// Scoped class of the control's themed style.
    pub closed spec fn style_class(&self) -> Seq<char> {
        self.class@
    }

    /// The attribute buckets.
    pub closed spec fn set_spec(&self) -> AttributeSet {
        self.set
    }

    /// Starts a builder for a control with the given label and style class.
    pub fn builder(label: &str, class: &str) -> (r: SelectionControlAttributesBuilder)
        ensures
            r.label_view() == label@,
            r.style_class() == class@,
            r.set_spec().classes_view().len() == 0,
            r.set_spec().aria_spec().map() == Map::<Seq<char>, Seq<char>>::empty(),
            r.set_spec().data_spec().map() == Map::<Seq<char>, Seq<char>>::empty(),
            r.set_spec().automation_spec().map() == Map::<Seq<char>, Seq<char>>::empty(),
            r.set_spec().attributes_spec().map() == Map::<Seq<char>, Seq<char>>::empty(),
    {
        SelectionControlAttributesBuilder { label: to_owned_string(label), class: to_owned_string(class), set: AttributeSet::new() }
    }

    /// The label.
    pub fn label(&self) -> (r: &str)
        ensures
            r@ == self.label_view(),
    {
        self.label.as_str()
    }

    /// Scoped class of the control's themed style.
    pub fn style(&self) -> (r: &str)
        ensures
            r@ == self.style_class(),
    {
        self.class.as_str()
    }

    /// The extra class names, sorted and without duplicates.
    pub fn classes(&self) -> (r: &Vec<String>)
        ensures
            strings_view(r@) == self.set_spec().classes_view(),
    {
        self.set.classes()
    }

    /// ARIA attributes in key order.
    pub fn aria_attributes(&self) -> (r: Vec<(String, String)>)
        ensures
            pairs_view(r@) == self.set_spec().aria_spec()@,
    {
        self.set.aria_map().pairs()
    }

    /// The ARIA bucket.
    pub fn aria_map(&self) -> (r: &AttrMap)
        ensures
            *r == self.set_spec().aria_spec(),
    {
        self.set.aria_map()
    }

    /// Data attributes followed by automation ids as `data-automation-*`.
    pub fn data_state_attributes(&self) -> (r: Vec<(String, String)>)
        ensures
            pairs_view(r@) == self.set_spec().data_spec()@ + automation_pairs(self.set_spec().automation_spec()@),
    {
        self.set.data_state_attributes()
    }

    /// The data bucket.
    pub fn data_map(&self) -> (r: &AttrMap)
        ensures
            *r == self.set_spec().data_spec(),
    {
        self.set.data_map()
    }

    /// The automation bucket.
    pub fn automation_ids(&self) -> (r: &AttrMap)
        ensures
            *r == self.set_spec().automation_spec(),
    {
        self.set.automation_ids()
    }

    /// Extra attributes in key order.
    pub fn standard_attributes(&self) -> (r: Vec<(String, String)>)
        ensures
            pairs_view(r@) == self.set_spec().attributes_spec()@,
    {
        self.set.extra_attributes().pairs()
    }

    /// The extra attributes bucket.
    pub fn extra_attributes(&self) -> (r: &AttrMap)
        ensures
            *r == self.set_spec().attributes_spec(),
    {
        self.set.extra_attributes()
    }

    /// The full attribute list, led by the style's class.
    pub fn themed_attributes(&self) -> (r: Vec<(String, String)>)
        ensures
            pairs_view(r@) == themed_pairs(self.style_class(), self.set_spec().base_pairs()),
    {
        let base = self.set.base_attribute_pairs();
        themed_attributes(self.class.as_str(), &base)
    }

    /// `<span attrs>label</span>`.
    pub fn to_ssr_html(&self) -> (r: String)
        ensures
            r@ == element_text(
                "span"@,
                attrs_html(themed_pairs(self.style_class(), self.set_spec().base_pairs())),
                self.label_view(),
            ),
    {
        let attrs = self.themed_attributes();
        let html = attributes_to_html(&attrs);
        wrap_element("span", html.as_str(), self.label.as_str())
    }

}

impl SelectionControlAttributesBuilder {
    /// The label.
    pub closed spec fn label_view(&self) -> Seq<char> {
        self.label@
    }

    /// Scoped class of the control's themed style.
    pub closed spec fn style_class(&self) -> Seq<char> {
        self.class@
    }

    /// The attribute buckets.
    pub closed spec fn set_spec(&self) -> AttributeSet {
        self.set
    }

    /// Adds a class name.
    pub fn class(self, class: &str) -> (r: Self)
        ensures
            r.label_view() == self.label_view(),
            r.style_class() == self.style_class(),
            r.set_spec().classes_view() == self.set_spec().classes_view().push(class@),
            r.set_spec().aria_spec() == self.set_spec().aria_spec(),
            r.set_spec().data_spec() == self.set_spec().data_spec(),
            r.set_spec().automation_spec() == self.set_spec().automation_spec(),
            r.set_spec().attributes_spec() == self.set_spec().attributes_spec(),
    {
        let mut b = self;
        b.set.add_class(class);
        b
    }

    /// Adds several class names, in order.
    pub fn classes(self, classes: &[&str]) -> (r: Self)
        ensures
            r.label_view() == self.label_view(),
            r.style_class() == self.style_class(),
            r.set_spec().classes_view() == self.set_spec().classes_view() + crate::style_helpers::strs_view(classes@),
            r.set_spec().aria_spec() == self.set_spec().aria_spec(),
            r.set_spec().data_spec() == self.set_spec().data_spec(),
            r.set_spec().automation_spec() == self.set_spec().automation_spec(),
            r.set_spec().attributes_spec() == self.set_spec().attributes_spec(),
    {
        let mut b = self;
        let n = classes.len();
        let mut i: usize = 0;
        while i < n
            invariant
                n == classes@.len(),
                i <= n,
                b.label_view() == self.label_view(),
                b.style_class() == self.style_class(),
                b.set_spec().classes_view() == self.set_spec().classes_view() + crate::style_helpers::strs_view(
                    classes@.subrange(0, i as int),
                ),
                b.set_spec().aria_spec() == self.set_spec().aria_spec(),
                b.set_spec().data_spec() == self.set_spec().data_spec(),
                b.set_spec().automation_spec() == self.set_spec().automation_spec(),
                b.set_spec().attributes_spec() == self.set_spec().attributes_spec(),
            decreases n - i,
        {
            b.set.add_class(classes[i]);
            assert(crate::style_helpers::strs_view(classes@.subrange(0, i + 1)) =~= crate::style_helpers::strs_view(
                classes@.subrange(0, i as int),
            ).push(classes@[i as int]@));
            i = i + 1;
        }
        assert(classes@.subrange(0, n as int) =~= classes@);
        b
    }

    /// Sets an ARIA attribute.
    pub fn aria(self, key: &str, value: &str) -> (r: Self)
        ensures
            r.label_view() == self.label_view(),
            r.style_class() == self.style_class(),
            r.set_spec().classes_view() == self.set_spec().classes_view(),
            r.set_spec().aria_spec().map() == self.set_spec().aria_spec().map().insert(key@, value@),
            r.set_spec().data_spec() == self.set_spec().data_spec(),
            r.set_spec().automation_spec() == self.set_spec().automation_spec(),
            r.set_spec().attributes_spec() == self.set_spec().attributes_spec(),
    {
        let mut b = self;
        b.set.set_aria(key, value);
        b
    }

    /// Sets a data attribute; the key gets a `data-` prefix unless it has one.
    pub fn data(self, key: &str, value: &str) -> (r: Self)
        ensures
            r.label_view() == self.label_view(),
            r.style_class() == self.style_class(),
            r.set_spec().classes_view() == self.set_spec().classes_view(),
            r.set_spec().aria_spec() == self.set_spec().aria_spec(),
            r.set_spec().data_spec().map() == self.set_spec().data_spec().map().insert(data_key_text(key@), value@),
            r.set_spec().automation_spec() == self.set_spec().automation_spec(),
            r.set_spec().attributes_spec() == self.set_spec().attributes_spec(),
    {
        let mut b = self;
        b.set.set_data(key, value);
        b
    }

    /// Sets an automation id, emitted as `data-automation-<key>`.
    pub fn automation_id(self, key: &str, value: &str) -> (r: Self)
        ensures
            r.label_view() == self.label_view(),
            r.style_class() == self.style_class(),
            r.set_spec().classes_view() == self.set_spec().classes_view(),
            r.set_spec().aria_spec() == self.set_spec().aria_spec(),
            r.set_spec().data_spec() == self.set_spec().data_spec(),
            r.set_spec().automation_spec().map() == self.set_spec().automation_spec().map().insert(key@, value@),
            r.set_spec().attributes_spec() == self.set_spec().attributes_spec(),
    {
        let mut b = self;
        b.set.set_automation_id(key, value);
        b
    }

    /// Sets an extra attribute.
    pub fn attribute(self, key: &str, value: &str) -> (r: Self)
        ensures
            r.label_view() == self.label_view(),
            r.style_class() == self.style_class(),
            r.set_spec().classes_view() == self.set_spec().classes_view(),
            r.set_spec().aria_spec() == self.set_spec().aria_spec(),
            r.set_spec().data_spec() == self.set_spec().data_spec(),
            r.set_spec().automation_spec() == self.set_spec().automation_spec(),
            r.set_spec().attributes_spec().map() == self.set_spec().attributes_spec().map().insert(key@, value@),
    {
        let mut b = self;
        b.set.set_attribute(key, value);
        b
    }

    /// Finishes the descriptor; class names end up sorted and unique. It
    /// builds from the builder as given: a process-wide customisation hook,
    /// which lives in a static this library does not hold, is run on the
    /// builder by the runtime layer before it calls `build`.
    pub fn build(self) -> (r: SelectionControlAttributes)
        ensures
            r.label_view() == self.label_view(),
            r.style_class() == self.style_class(),
            strictly_sorted(r.set_spec().classes_view()),
            r.set_spec().classes_view().to_set() == self.set_spec().classes_view().to_set(),
            r.set_spec().aria_spec() == self.set_spec().aria_spec(),
            r.set_spec().data_spec() == self.set_spec().data_spec(),
            r.set_spec().automation_spec() == self.set_spec().automation_spec(),
            r.set_spec().attributes_spec() == self.set_spec().attributes_spec(),
    {
        let mut set = self.set;
        set.normalise_classes();
        SelectionControlAttributes { label: self.label, class: self.class, set }
    }
}

/// Descriptor of one radio option: its label, style class and attribute buckets.
#[derive(Debug)]
pub struct RadioOptionAttributes {
    label: String,
    class: String,
    set: AttributeSet,
}

/// Builder of [`RadioOptionAttributes`].
#[derive(Debug)]
pub struct RadioOptionAttributesBuilder {
    label: String,
    class: String,
    set: AttributeSet,
}

impl RadioOptionAttributes {
    /// The label.
    pub closed spec fn label_view(&self) -> Seq<char> {
        self.label@
    }

    /// Scoped class of the control's themed style.
    pub closed spec fn style_class(&self) -> Seq<char> {
        self.class@
    }

    /// The attribute buckets.
    pub closed spec fn set_spec(&self) -> AttributeSet {
        self.set
    }

    /// Starts a builder for a control with the given label and style class.
    pub fn builder(label: &str, class: &str) -> (r: RadioOptionAttributesBuilder)
        ensures
            r.label_view() == label@,
            r.style_class() == class@,
            r.set_spec().classes_view().len() == 0,
            r.set_spec().aria_spec().map() == Map::<Seq<char>, Seq<char>>::empty(),
            r.set_spec().data_spec().map() == Map::<Seq<char>, Seq<char>>::empty(),
            r.set_spec().automation_spec().map() == Map::<Seq<char>, Seq<char>>::empty(),
            r.set_spec().attributes_spec().map() == Map::<Seq<char>, Seq<char>>::empty(),
    {
        RadioOptionAttributesBuilder { label: to_owned_string(label), class: to_owned_string(class), set: AttributeSet::new() }
    }

    /// The label.
    pub fn label(&self) -> (r: &str)
        ensures
            r@ == self.label_view(),
    {
        self.label.as_str()
    }

    /// Scoped class of the control's themed style.
    pub fn style(&self) -> (r: &str)
        ensures
            r@ == self.style_class(),
    {
        self.class.as_str()
    }

    /// The extra class names, sorted and without duplicates.
    pub fn classes(&self) -> (r: &Vec<String>)
        ensures
            strings_view(r@) == self.set_spec().classes_view(),
    {
        self.set.classes()
    }

    /// ARIA attributes in key order.
    pub fn aria_attributes(&self) -> (r: Vec<(String, String)>)
        ensures
            pairs_view(r@) == self.set_spec().aria_spec()@,
    {
        self.set.aria_map().pairs()
    }

    /// The ARIA bucket.
    pub fn aria_map(&self) -> (r: &AttrMap)
        ensures
            *r == self.set_spec().aria_spec(),
    {
        self.set.aria_map()
    }

    /// Data attributes followed by automation ids as `data-automation-*`.
    pub fn data_state_attributes(&self) -> (r: Vec<(String, String)>)
        ensures
            pairs_view(r@) == self.set_spec().data_spec()@ + automation_pairs(self.set_spec().automation_spec()@),
    {
        self.set.data_state_attributes()
    }

    /// The data bucket.
    pub fn data_map(&self) -> (r: &AttrMap)
        ensures
            *r == self.set_spec().data_spec(),
    {
        self.set.data_map()
    }

    /// The automation bucket.
    pub fn automation_ids(&self) -> (r: &AttrMap)
        ensures
            *r == self.set_spec().automation_spec(),
    {
        self.set.automation_ids()
    }

    /// Extra attributes in key order.
    pub fn standard_attributes(&self) -> (r: Vec<(String, String)>)
        ensures
            pairs_view(r@) == self.set_spec().attributes_spec()@,
    {
        self.set.extra_attributes().pairs()
    }

    /// The extra attributes bucket.
    pub fn extra_attributes(&self) -> (r: &AttrMap)
        ensures
            *r == self.set_spec().attributes_spec(),
    {
        self.set.extra_attributes()
    }

    /// The full attribute list, led by the style's class.
    pub fn themed_attributes(&self) -> (r: Vec<(String, String)>)
        ensures
            pairs_view(r@) == themed_pairs(self.style_class(), self.set_spec().base_pairs()),
    {
        let base = self.set.base_attribute_pairs();
        themed_attributes(self.class.as_str(), &base)
    }

    /// `<span attrs>label</span>`.
    pub fn to_ssr_html(&self) -> (r: String)
        ensures
            r@ == element_text(
                "span"@,
                attrs_html(themed_pairs(self.style_class(), self.set_spec().base_pairs())),
                self.label_view(),
            ),
    {
        let attrs = self.themed_attributes();
        let html = attributes_to_html(&attrs);
        wrap_element("span", html.as_str(), self.label.as_str())
    }

}

impl RadioOptionAttributesBuilder {
    /// The label.
    pub closed spec fn label_view(&self) -> Seq<char> {
        self.label@
    }

    /// Scoped class of the control's themed style.
    pub closed spec fn style_class(&self) -> Seq<char> {
        self.class@
    }

    /// The attribute buckets.
    pub closed spec fn set_spec(&self) -> AttributeSet {
        self.set
    }

    /// Adds a class name.
    pub fn class(self, class: &str) -> (r: Self)
        ensures
            r.label_view() == self.label_view(),
            r.style_class() == self.style_class(),
            r.set_spec().classes_view() == self.set_spec().classes_view().push(class@),
            r.set_spec().aria_spec() == self.set_spec().aria_spec(),
            r.set_spec().data_spec() == self.set_spec().data_spec(),
            r.set_spec().automation_spec() == self.set_spec().automation_spec(),
            r.set_spec().attributes_spec() == self.set_spec().attributes_spec(),
    {
        let mut b = self;
        b.set.add_class(class);
        b
    }

    /// Adds several class names, in order.
    pub fn classes(self, classes: &[&str]) -> (r: Self)
        ensures
            r.label_view() == self.label_view(),
            r.style_class() == self.style_class(),
            r.set_spec().classes_view() == self.set_spec().classes_view() + crate::style_helpers::strs_view(classes@),
            r.set_spec().aria_spec() == self.set_spec().aria_spec(),
            r.set_spec().data_spec() == self.set_spec().data_spec(),
            r.set_spec().automation_spec() == self.set_spec().automation_spec(),
            r.set_spec().attributes_spec() == self.set_spec().attributes_spec(),
    {
        let mut b = self;
        let n = classes.len();
        let mut i: usize = 0;
        while i < n
            invariant
                n == classes@.len(),
                i <= n,
                b.label_view() == self.label_view(),
                b.style_class() == self.style_class(),
                b.set_spec().classes_view() == self.set_spec().classes_view() + crate::style_helpers::strs_view(
                    classes@.subrange(0, i as int),
                ),
                b.set_spec().aria_spec() == self.set_spec().aria_spec(),
                b.set_spec().data_spec() == self.set_spec().data_spec(),
                b.set_spec().automation_spec() == self.set_spec().automation_spec(),
                b.set_spec().attributes_spec() == self.set_spec().attributes_spec(),
            decreases n - i,
        {
            b.set.add_class(classes[i]);
            assert(crate::style_helpers::strs_view(classes@.subrange(0, i + 1)) =~= crate::style_helpers::strs_view(
                classes@.subrange(0, i as int),
            ).push(classes@[i as int]@));
            i = i + 1;
        }
        assert(classes@.subrange(0, n as int) =~= classes@);
        b
    }

    /// Sets an ARIA attribute.
    pub fn aria(self, key: &str, value: &str) -> (r: Self)
        ensures
            r.label_view() == self.label_view(),
            r.style_class() == self.style_class(),
            r.set_spec().classes_view() == self.set_spec().classes_view(),
            r.set_spec().aria_spec().map() == self.set_spec().aria_spec().map().insert(key@, value@),
            r.set_spec().data_spec() == self.set_spec().data_spec(),
            r.set_spec().automation_spec() == self.set_spec().automation_spec(),
            r.set_spec().attributes_spec() == self.set_spec().attributes_spec(),
    {
        let mut b = self;
        b.set.set_aria(key, value);
        b
    }

    /// Sets a data attribute; the key gets a `data-` prefix unless it has one.
    pub fn data(self, key: &str, value: &str) -> (r: Self)
        ensures
            r.label_view() == self.label_view(),
            r.style_class() == self.style_class(),
            r.set_spec().classes_view() == self.set_spec().classes_view(),
            r.set_spec().aria_spec() == self.set_spec().aria_spec(),
            r.set_spec().data_spec().map() == self.set_spec().data_spec().map().insert(data_key_text(key@), value@),
            r.set_spec().automation_spec() == self.set_spec().automation_spec(),
            r.set_spec().attributes_spec() == self.set_spec().attributes_spec(),
    {
        let mut b = self;
        b.set.set_data(key, value);
        b
    }

    /// Sets an automation id, emitted as `data-automation-<key>`.
    pub fn automation_id(self, key: &str, value: &str) -> (r: Self)
        ensures
            r.label_view() == self.label_view(),
            r.style_class() == self.style_class(),
            r.set_spec().classes_view() == self.set_spec().classes_view(),
            r.set_spec().aria_spec() == self.set_spec().aria_spec(),
            r.set_spec().data_spec() == self.set_spec().data_spec(),
            r.set_spec().automation_spec().map() == self.set_spec().automation_spec().map().insert(key@, value@),
            r.set_spec().attributes_spec() == self.set_spec().attributes_spec(),
    {
        let mut b = self;
        b.set.set_automation_id(key, value);
        b
    }

    /// Sets an extra attribute.
    pub fn attribute(self, key: &str, value: &str) -> (r: Self)
        ensures
            r.label_view() == self.label_view(),
            r.style_class() == self.style_class(),
            r.set_spec().classes_view() == self.set_spec().classes_view(),
            r.set_spec().aria_spec() == self.set_spec().aria_spec(),
            r.set_spec().data_spec() == self.set_spec().data_spec(),
            r.set_spec().automation_spec() == self.set_spec().automation_spec(),
            r.set_spec().attributes_spec().map() == self.set_spec().attributes_spec().map().insert(key@, value@),
    {
        let mut b = self;
        b.set.set_attribute(key, value);
        b
    }

    /// Finishes the descriptor; class names end up sorted and unique. It
    /// builds from the builder as given: a process-wide customisation hook,
    /// which lives in a static this library does not hold, is run on the
    /// builder by the runtime layer before it calls `build`.
    pub fn build(self) -> (r: RadioOptionAttributes)
        ensures
            r.label_view() == self.label_view(),
            r.style_class() == self.style_class(),
            strictly_sorted(r.set_spec().classes_view()),
            r.set_spec().classes_view().to_set() == self.set_spec().classes_view().to_set(),
            r.set_spec().aria_spec() == self.set_spec().aria_spec(),
            r.set_spec().data_spec() == self.set_spec().data_spec(),
            r.set_spec().automation_spec() == self.set_spec().automation_spec(),
            r.set_spec().attributes_spec() == self.set_spec().attributes_spec(),
    {
        let mut set = self.set;
        set.normalise_classes();
        RadioOptionAttributes { label: self.label, class: self.class, set }
    }
}

/// Descriptor of a radio group: its style class, attribute buckets and options.
#[derive(Debug)]
pub struct RadioGroupAttributes {
    class: String,
    set: AttributeSet,
    options: Vec<RadioOptionAttributes>,
}

/// Builder of [`RadioGroupAttributes`].
#[derive(Debug)]
pub struct RadioGroupAttributesBuilder {
    class: String,
    set: AttributeSet,
    options: Vec<RadioOptionAttributes>,
}

impl RadioGroupAttributes {
    /// Scoped class of the control's themed style.
    pub closed spec fn style_class(&self) -> Seq<char> {
        self.class@
    }

    /// The attribute buckets.
    pub closed spec fn set_spec(&self) -> AttributeSet {
        self.set
    }

    /// The options.
    pub closed spec fn options_spec(&self) -> Seq<RadioOptionAttributes> {
        self.options@
    }

    /// Starts a builder for a group with the given style class.
    pub fn builder(class: &str) -> (r: RadioGroupAttributesBuilder)
        ensures
            r.options_spec().len() == 0,
            r.style_class() == class@,
            r.set_spec().classes_view().len() == 0,
            r.set_spec().aria_spec().map() == Map::<Seq<char>, Seq<char>>::empty(),
            r.set_spec().data_spec().map() == Map::<Seq<char>, Seq<char>>::empty(),
            r.set_spec().automation_spec().map() == Map::<Seq<char>, Seq<char>>::empty(),
            r.set_spec().attributes_spec().map() == Map::<Seq<char>, Seq<char>>::empty(),
    {
        RadioGroupAttributesBuilder { class: to_owned_string(class), set: AttributeSet::new(), options: Vec::new() }
    }

    /// The options, in order.
    pub fn options(&self) -> (r: &[RadioOptionAttributes])
        ensures
            r@ == self.options_spec(),
    {
        self.options.as_slice()
    }

    /// Scoped class of the control's themed style.
    pub fn style(&self) -> (r: &str)
        ensures
            r@ == self.style_class(),
    {
        self.class.as_str()
    }

    /// The extra class names, sorted and without duplicates.
    pub fn classes(&self) -> (r: &Vec<String>)
        ensures
            strings_view(r@) == self.set_spec().classes_view(),
    {
        self.set.classes()
    }

    /// ARIA attributes in key order.
    pub fn aria_attributes(&self) -> (r: Vec<(String, String)>)
        ensures
            pairs_view(r@) == self.set_spec().aria_spec()@,
    {
        self.set.aria_map().pairs()
    }

    /// The ARIA bucket.
    pub fn aria_map(&self) -> (r: &AttrMap)
        ensures
            *r == self.set_spec().aria_spec(),
    {
        self.set.aria_map()
    }

    /// Data attributes followed by automation ids as `data-automation-*`.
    pub fn data_state_attributes(&self) -> (r: Vec<(String, String)>)
        ensures
            pairs_view(r@) == self.set_spec().data_spec()@ + automation_pairs(self.set_spec().automation_spec()@),
    {
        self.set.data_state_attributes()
    }

    /// The data bucket.
    pub fn data_map(&self) -> (r: &AttrMap)
        ensures
            *r == self.set_spec().data_spec(),
    {
        self.set.data_map()
    }

    /// The automation bucket.
    pub fn automation_ids(&self) -> (r: &AttrMap)
        ensures
            *r == self.set_spec().automation_spec(),
    {
        self.set.automation_ids()
    }

    /// Extra attributes in key order.
    pub fn standard_attributes(&self) -> (r: Vec<(String, String)>)
        ensures
            pairs_view(r@) == self.set_spec().attributes_spec()@,
    {
        self.set.extra_attributes().pairs()
    }

    /// The extra attributes bucket.
    pub fn extra_attributes(&self) -> (r: &AttrMap)
        ensures
            *r == self.set_spec().attributes_spec(),
    {
        self.set.extra_attributes()
    }

    /// The full attribute list, led by the style's class.
    pub fn themed_attributes(&self) -> (r: Vec<(String, String)>)
        ensures
            pairs_view(r@) == themed_pairs(self.style_class(), self.set_spec().base_pairs()),
    {
        let base = self.set.base_attribute_pairs();
        themed_attributes(self.class.as_str(), &base)
    }

    /// `<div attrs>options</div>`, each option as its own SSR markup.
    pub fn to_ssr_html(&self) -> (r: String)
        ensures
            r@ == element_text(
                "div"@,
                attrs_html(themed_pairs(self.style_class(), self.set_spec().base_pairs())),
                radio_options_html(self.options_spec()),
            ),
    {
        let attrs = self.themed_attributes();
        let html = attributes_to_html(&attrs);
        let n = self.options.len();
        let mut body = String::new();
        let mut i: usize = 0;
        while i < n
            invariant
                n == self.options@.len(),
                i <= n,
                body@ == radio_options_html(self.options@.subrange(0, i as int)),
            decreases n - i,
        {
            let option_html = self.options[i].to_ssr_html();
            body.append(option_html.as_str());
            assert(self.options@.subrange(0, i + 1).drop_last() =~= self.options@.subrange(0, i as int));
            i = i + 1;
        }
        assert(self.options@.subrange(0, n as int) =~= self.options@);
        wrap_element("div", html.as_str(), body.as_str())
    }

}

impl RadioGroupAttributesBuilder {
    /// Scoped class of the control's themed style.
    pub closed spec fn style_class(&self) -> Seq<char> {
        self.class@
    }

    /// The attribute buckets.
    pub closed spec fn set_spec(&self) -> AttributeSet {
        self.set
    }

    /// The options.
    pub closed spec fn options_spec(&self) -> Seq<RadioOptionAttributes> {
        self.options@
    }

    /// Adds a class name.
    pub fn class(self, class: &str) -> (r: Self)
        ensures
            r.style_class() == self.style_class(),
            r.options_spec() == self.options_spec(),
            r.set_spec().classes_view() == self.set_spec().classes_view().push(class@),
            r.set_spec().aria_spec() == self.set_spec().aria_spec(),
            r.set_spec().data_spec() == self.set_spec().data_spec(),
            r.set_spec().automation_spec() == self.set_spec().automation_spec(),
            r.set_spec().attributes_spec() == self.set_spec().attributes_spec(),
    {
        let mut b = self;
        b.set.add_class(class);
        b
    }

    /// Adds several class names, in order.
    pub fn classes(self, classes: &[&str]) -> (r: Self)
        ensures
            r.style_class() == self.style_class(),
            r.options_spec() == self.options_spec(),
            r.set_spec().classes_view() == self.set_spec().classes_view() + crate::style_helpers::strs_view(classes@),
            r.set_spec().aria_spec() == self.set_spec().aria_spec(),
            r.set_spec().data_spec() == self.set_spec().data_spec(),
            r.set_spec().automation_spec() == self.set_spec().automation_spec(),
            r.set_spec().attributes_spec() == self.set_spec().attributes_spec(),
    {
        let mut b = self;
        let n = classes.len();
        let mut i: usize = 0;
        while i < n
            invariant
                n == classes@.len(),
                i <= n,
                b.style_class() == self.style_class(),
                b.options_spec() == self.options_spec(),
                b.set_spec().classes_view() == self.set_spec().classes_view() + crate::style_helpers::strs_view(
                    classes@.subrange(0, i as int),
                ),
                b.set_spec().aria_spec() == self.set_spec().aria_spec(),
                b.set_spec().data_spec() == self.set_spec().data_spec(),
                b.set_spec().automation_spec() == self.set_spec().automation_spec(),
                b.set_spec().attributes_spec() == self.set_spec().attributes_spec(),
            decreases n - i,
        {
            b.set.add_class(classes[i]);
            assert(crate::style_helpers::strs_view(classes@.subrange(0, i + 1)) =~= crate::style_helpers::strs_view(
                classes@.subrange(0, i as int),
            ).push(classes@[i as int]@));
            i = i + 1;
        }
        assert(classes@.subrange(0, n as int) =~= classes@);
        b
    }

    /// Sets an ARIA attribute.
    pub fn aria(self, key: &str, value: &str) -> (r: Self)
        ensures
            r.style_class() == self.style_class(),
            r.options_spec() == self.options_spec(),
            r.set_spec().classes_view() == self.set_spec().classes_view(),
            r.set_spec().aria_spec().map() == self.set_spec().aria_spec().map().insert(key@, value@),
            r.set_spec().data_spec() == self.set_spec().data_spec(),
            r.set_spec().automation_spec() == self.set_spec().automation_spec(),
            r.set_spec().attributes_spec() == self.set_spec().attributes_spec(),
    {
        let mut b = self;
        b.set.set_aria(key, value);
        b
    }

    /// Sets a data attribute; the key gets a `data-` prefix unless it has one.
    pub fn data(self, key: &str, value: &str) -> (r: Self)
        ensures
            r.style_class() == self.style_class(),
            r.options_spec() == self.options_spec(),
            r.set_spec().classes_view() == self.set_spec().classes_view(),
            r.set_spec().aria_spec() == self.set_spec().aria_spec(),
            r.set_spec().data_spec().map() == self.set_spec().data_spec().map().insert(data_key_text(key@), value@),
            r.set_spec().automation_spec() == self.set_spec().automation_spec(),
            r.set_spec().attributes_spec() == self.set_spec().attributes_spec(),
    {
        let mut b = self;
        b.set.set_data(key, value);
        b
    }

    /// Sets an automation id, emitted as `data-automation-<key>`.
    pub fn automation_id(self, key: &str, value: &str) -> (r: Self)
        ensures
            r.style_class() == self.style_class(),
            r.options_spec() == self.options_spec(),
            r.set_spec().classes_view() == self.set_spec().classes_view(),
            r.set_spec().aria_spec() == self.set_spec().aria_spec(),
            r.set_spec().data_spec() == self.set_spec().data_spec(),
            r.set_spec().automation_spec().map() == self.set_spec().automation_spec().map().insert(key@, value@),
            r.set_spec().attributes_spec() == self.set_spec().attributes_spec(),
    {
        let mut b = self;
        b.set.set_automation_id(key, value);
        b
    }

    /// Sets an extra attribute.
    pub fn attribute(self, key: &str, value: &str) -> (r: Self)
        ensures
            r.style_class() == self.style_class(),
            r.options_spec() == self.options_spec(),
            r.set_spec().classes_view() == self.set_spec().classes_view(),
            r.set_spec().aria_spec() == self.set_spec().aria_spec(),
            r.set_spec().data_spec() == self.set_spec().data_spec(),
            r.set_spec().automation_spec() == self.set_spec().automation_spec(),
            r.set_spec().attributes_spec().map() == self.set_spec().attributes_spec().map().insert(key@, value@),
    {
        let mut b = self;
        b.set.set_attribute(key, value);
        b
    }

    /// Appends an option.
    pub fn option(self, option: RadioOptionAttributes) -> (r: Self)
        ensures
            r.style_class() == self.style_class(),
            r.options_spec() == self.options_spec().push(option),
            r.set_spec() == self.set_spec(),
    {
        let mut b = self;
        b.options.push(option);
        b
    }

    /// Finishes the descriptor; class names end up sorted and unique. It
    /// builds from the builder as given: a process-wide customisation hook,
    /// which lives in a static this library does not hold, is run on the
    /// builder by the runtime layer before it calls `build`.
    pub fn build(self) -> (r: RadioGroupAttributes)
        ensures
            r.style_class() == self.style_class(),
            r.options_spec() == self.options_spec(),
            strictly_sorted(r.set_spec().classes_view()),
            r.set_spec().classes_view().to_set() == self.set_spec().classes_view().to_set(),
            r.set_spec().aria_spec() == self.set_spec().aria_spec(),
            r.set_spec().data_spec() == self.set_spec().data_spec(),
            r.set_spec().automation_spec() == self.set_spec().automation_spec(),
            r.set_spec().attributes_spec() == self.set_spec().attributes_spec(),
    {
        let mut set = self.set;
        set.normalise_classes();
        RadioGroupAttributes { class: self.class, set, options: self.options }
    }
}

/// Concatenated SSR markup of radio options.
pub open spec fn radio_options_html(options: Seq<RadioOptionAttributes>) -> Seq<char>
    decreases options.len(),
{
    if options.len() == 0 {
        Seq::empty()
    } else {
        radio_options_html(options.drop_last()) + element_text(
            "span"@,
            attrs_html(themed_pairs(options.last().style_class(), options.last().set_spec().base_pairs())),
            options.last().label_view(),
        )
    }
}
} // verus!
