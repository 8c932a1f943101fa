//! Attribute-list assembly and serialisation into HTML.
//!
//! A themed attribute list always starts with the scoped `class` produced by
//! the styled engine, followed by the component's own pairs in order; the HTML
//! form writes each pair as `key="value"`, separated by single spaces.

use vstd::prelude::*;

use crate::attr_map::{extend_attrs, pairs_view, push_attr};
use crate::text::{push_char, to_owned_string};

verus! {

/// `class`.
pub open spec fn class_key() -> Seq<char> {
    seq!['c', 'l', 'a', 's', 's']
}

/// One attribute written as `key="value"`.
pub open spec fn attr_text(key: Seq<char>, value: Seq<char>) -> Seq<char> {
    key + seq!['=', '"'] + value + seq!['"']
}

/// A list of attributes written as `k1="v1" k2="v2" ...`.
pub open spec fn attrs_html(pairs: Seq<(Seq<char>, Seq<char>)>) -> Seq<char>
    decreases pairs.len(),
{
    if pairs.len() == 0 {
        Seq::empty()
    } else if pairs.len() == 1 {
        attr_text(pairs[0].0, pairs[0].1)
    } else {
        attrs_html(pairs.drop_last()).push(' ') + attr_text(pairs.last().0, pairs.last().1)
    }
}

/// `<tag attrs>children</tag>`.
pub open spec fn element_text(tag: Seq<char>, attrs: Seq<char>, children: Seq<char>) -> Seq<char> {
    seq!['<'] + tag + seq![' '] + attrs + seq!['>'] + children + seq!['<', '/'] + tag + seq!['>']
}

/// The class pair followed by the given pairs.
pub open spec fn themed_pairs(class: Seq<char>, pairs: Seq<(Seq<char>, Seq<char>)>) -> Seq<
    (Seq<char>, Seq<char>),
> {
    seq![(class_key(), class)] + pairs
}

/// `"class"` as a `String`.
pub fn class_key_string() -> (r: String)
    ensures
        r@ == class_key(),
{
    let mut s = String::new();
    push_char(&mut s, 'c');
    push_char(&mut s, 'l');
    push_char(&mut s, 'a');
    push_char(&mut s, 's');
    push_char(&mut s, 's');
    assert(s@ =~= class_key());
    s
}

/// Serialise attribute pairs as `key="value"` separated by single spaces.
pub fn attributes_to_html(attrs: &Vec<(String, String)>) -> (r: String)
    ensures
        r@ == attrs_html(pairs_view(attrs@)),
{
    let ghost pv = pairs_view(attrs@);
    let n = attrs.len();
    let mut out = String::new();
    let mut i: usize = 0;
    while i < n
        invariant
            n == attrs@.len(),
            pv == pairs_view(attrs@),
            i <= n,
            out@ == attrs_html(pv.subrange(0, i as int)),
        decreases n - i,
    {
        if i > 0 {
            push_char(&mut out, ' ');
        }
        out.append(attrs[i].0.as_str());
        push_char(&mut out, '=');
        push_char(&mut out, '"');
        out.append(attrs[i].1.as_str());
        push_char(&mut out, '"');
        proof {
            let s = pv.subrange(0, i + 1);
            assert(s.drop_last() =~= pv.subrange(0, i as int));
            assert(s.last() == pv[i as int]);
            if i == 0 {
                assert(out@ =~= attr_text(s[0].0, s[0].1));
            } else {
                assert(out@ =~= attrs_html(s.drop_last()).push(' ') + attr_text(
                    s.last().0,
                    s.last().1,
                ));
            }
        }
        i = i + 1;
    }
    assert(pv.subrange(0, n as int) =~= pv);
    out
}

/// Attribute list led by the scoped class: `("class", class)` followed by
/// `pairs`, in order.
pub fn themed_attributes(class: &str, pairs: &Vec<(String, String)>) -> (r: Vec<
    (String, String),
>)
    ensures
        pairs_view(r@) == themed_pairs(class@, pairs_view(pairs@)),
{
    let mut out: Vec<(String, String)> = Vec::new();
    push_attr(&mut out, class_key_string(), to_owned_string(class));
    extend_attrs(&mut out, pairs);
    assert(pairs_view(out@) =~= themed_pairs(class@, pairs_view(pairs@)));
    out
}

/// [`themed_attributes`] serialised with [`attributes_to_html`].
pub fn themed_attributes_html(class: &str, pairs: &Vec<(String, String)>) -> (r: String)
    ensures
        r@ == attrs_html(themed_pairs(class@, pairs_view(pairs@))),
{
    let attrs = themed_attributes(class, pairs);
    attributes_to_html(&attrs)
}

/// `<tag class="..." k="v" ...>children</tag>`: an element whose attributes
/// are the themed list.
pub fn render_element_html(tag: &str, class: &str, pairs: &Vec<(String, String)>, children: &str) -> (r:
    String)
    ensures
        r@ == element_text(tag@, attrs_html(themed_pairs(class@, pairs_view(pairs@))), children@),
{
    let attrs = themed_attributes_html(class, pairs);
    let mut out = String::new();
    push_char(&mut out, '<');
    out.append(tag);
    push_char(&mut out, ' ');
    out.append(attrs.as_str());
    push_char(&mut out, '>');
    out.append(children);
    push_char(&mut out, '<');
    push_char(&mut out, '/');
    out.append(tag);
    push_char(&mut out, '>');
    assert(out@ =~= element_text(
        tag@,
        attrs_html(themed_pairs(class@, pairs_view(pairs@))),
        children@,
    ));
    out
}

/// `<div class="..." k="v" ...></div>`: an empty element for backdrop
/// surfaces.
pub fn render_backdrop_html(class: &str, pairs: &Vec<(String, String)>) -> (r: String)
    ensures
        r@ == element_text(
            seq!['d', 'i', 'v'],
            attrs_html(themed_pairs(class@, pairs_view(pairs@))),
            Seq::empty(),
        ),
{
    let mut tag = String::new();
    push_char(&mut tag, 'd');
    push_char(&mut tag, 'i');
    push_char(&mut tag, 'v');
    assert(tag@ =~= seq!['d', 'i', 'v']);
    let r = render_element_html(tag.as_str(), class, pairs, "");
    proof {
        reveal_strlit("");
    }
    assert(""@ =~= Seq::<char>::empty());
    r
}

/// Wraps already-serialised attributes and children in an element:
/// `<tag attrs>children</tag>`.
pub fn wrap_element(tag: &str, attrs: &str, children: &str) -> (r: String)
    ensures
        r@ == element_text(tag@, attrs@, children@),
{
    let mut out = String::new();
    push_char(&mut out, '<');
    out.append(tag);
    push_char(&mut out, ' ');
    out.append(attrs);
    push_char(&mut out, '>');
    out.append(children);
    push_char(&mut out, '<');
    push_char(&mut out, '/');
    out.append(tag);
    push_char(&mut out, '>');
    assert(out@ =~= element_text(tag@, attrs@, children@));
    out
}

} // verus!
