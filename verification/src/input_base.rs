//! Input base renderer: the `<input>` attribute list mirroring the headless
//! input state's analytics (dirty, visited, focused, errors, selection) into
//! `data-*` attributes, and the `<input />` markup.

use vstd::prelude::*;

use crate::attr_map::{first_value, lookup_first, opt_seq, pairs_view, push_attr, push_attr_str};
use crate::markup::{attrs_html, themed_attributes_html, themed_pairs};
use crate::style_helpers::{
    automation_data_attr, automation_data_attr_text, component_marker, component_marker_text, strs_view,
};
use crate::text::{bool_text, bool_to_string, decimal, push_char, to_owned_string, usize_to_string};

verus! {

/// Canonical `"true"` / `"false"` text of a flag.
pub fn bool_token(value: bool) -> (r: String)
    ensures
        r@ == bool_text(value),
{
    bool_to_string(value)
}

/// A caret selection.
#[derive(Debug, Clone, Copy, PartialEq, Eq, Structural)]
pub struct InputSelection {
    pub start: usize,
    pub end: usize,
}

/// What the renderer reads from the headless input state.
#[derive(Debug, Clone)]
pub struct InputSnapshot {
    pub value: String,
    pub dirty: bool,
    pub visited: bool,
    pub focused: bool,
    /// Validation messages, in order.
    pub errors: Vec<String>,
    pub selection: Option<InputSelection>,
}

/// The views of a list of strings.
pub open spec fn texts(v: Seq<String>) -> Seq<Seq<char>> {
    Seq::new(v.len(), |i: int| v[i]@)
}

/// The items joined with newlines.
pub open spec fn join_lines(items: Seq<Seq<char>>) -> Seq<char>
    decreases items.len(),
{
    if items.len() == 0 {
        Seq::empty()
    } else if items.len() == 1 {
        items[0]
    } else {
        join_lines(items.drop_last()).push('\n') + items.last()
    }
}

/// Joins messages with newlines (`[String]::join("\n")`).
pub fn join_messages(items: &Vec<String>) -> (r: String)
    ensures
        r@ == join_lines(texts(items@)),
{
    let ghost tv = texts(items@);
    let n = items.len();
    let mut out = String::new();
    let mut i: usize = 0;
    while i < n
        invariant
            n == items@.len(),
            tv == texts(items@),
            i <= n,
            out@ == join_lines(tv.subrange(0, i as int)),
        decreases n - i,
    {
        if i > 0 {
            push_char(&mut out, '\n');
        }
        out.append(items[i].as_str());
        assert(tv.subrange(0, i + 1).drop_last() =~= tv.subrange(0, i as int));
        i = i + 1;
    }
    assert(tv.subrange(0, n as int) =~= tv);
    out
}

/// `data-rustic-input-base-<segments>`.
pub open spec fn input_hook(segments: Seq<Seq<char>>) -> Seq<char> {
    automation_data_attr_text("input-base"@, segments)
}

/// The analytics pairs: component marker, dirty/visited/focused flags, the
/// error count, the selection bounds when there is a selection, the joined
/// messages (under the component hook and under `data-status-message`) when
/// there are errors, and the analytics id (under `data-analytics-id` and the
/// component hook) when given.
pub open spec fn analytics_pairs(s: InputSnapshot, analytics_id: Option<Seq<char>>) -> Seq<
    (Seq<char>, Seq<char>),
> {
    let errors = texts(s.errors@);
    let base = seq![
        ("data-component"@, component_marker_text("input-base"@)),
        (input_hook(seq!["dirty"@]), bool_text(s.dirty)),
        (input_hook(seq!["visited"@]), bool_text(s.visited)),
        (input_hook(seq!["focused"@]), bool_text(s.focused)),
        (input_hook(seq!["error-count"@]), decimal(errors.len())),
    ];
    let with_selection = match s.selection {
        Some(sel) => base + seq![
            (input_hook(seq!["selection-start"@]), decimal(sel.start as nat)),
            (input_hook(seq!["selection-end"@]), decimal(sel.end as nat)),
        ],
        None => base,
    };
    let with_status = if errors.len() > 0 {
        with_selection + seq![
            (input_hook(seq!["status-message"@]), join_lines(errors)),
            ("data-status-message"@, join_lines(errors)),
        ]
    } else {
        with_selection
    };
    match analytics_id {
        Some(id) => with_status + seq![("data-analytics-id"@, id), (input_hook(seq!["analytics"@, "id"@]), id)],
        None => with_status,
    }
}

fn hook(segments: &[&str]) -> (r: String)
    ensures
        r@ == input_hook(strs_view(segments@)),
{
    automation_data_attr("input-base", segments)
}

/// The analytics pairs of an input.
pub fn analytics_attributes(s: &InputSnapshot, analytics_id: Option<&str>) -> (r: Vec<(String, String)>)
    ensures
        pairs_view(r@) == analytics_pairs(
            *s,
            match analytics_id {
                Some(id) => Some(id@),
                None => None,
            },
        ),
{
    let ghost aid = match analytics_id {
        Some(id) => Some(id@),
        None => None,
    };
    let ghost errors = texts(s.errors@);
    let mut attrs: Vec<(String, String)> = Vec::new();
    push_attr(&mut attrs, to_owned_string("data-component"), component_marker("input-base"));
    let seg: [&str; 1] = ["dirty"];
    assert(strs_view(seg@) =~= seq!["dirty"@]);
    push_attr(&mut attrs, hook(&seg), bool_token(s.dirty));
    let seg: [&str; 1] = ["visited"];
    assert(strs_view(seg@) =~= seq!["visited"@]);
    push_attr(&mut attrs, hook(&seg), bool_token(s.visited));
    let seg: [&str; 1] = ["focused"];
    assert(strs_view(seg@) =~= seq!["focused"@]);
    push_attr(&mut attrs, hook(&seg), bool_token(s.focused));
    let seg: [&str; 1] = ["error-count"];
    assert(strs_view(seg@) =~= seq!["error-count"@]);
    push_attr(&mut attrs, hook(&seg), usize_to_string(s.errors.len()));
    let ghost base = pairs_view(attrs@);
    if let Some(sel) = s.selection {
        let seg: [&str; 1] = ["selection-start"];
        assert(strs_view(seg@) =~= seq!["selection-start"@]);
        push_attr(&mut attrs, hook(&seg), usize_to_string(sel.start));
        let seg: [&str; 1] = ["selection-end"];
        assert(strs_view(seg@) =~= seq!["selection-end"@]);
        push_attr(&mut attrs, hook(&seg), usize_to_string(sel.end));
    }
    let ghost with_selection = pairs_view(attrs@);
    assert(with_selection =~= match s.selection {
        Some(sel) => base + seq![
            (input_hook(seq!["selection-start"@]), decimal(sel.start as nat)),
            (input_hook(seq!["selection-end"@]), decimal(sel.end as nat)),
        ],
        None => base,
    });
    if s.errors.len() > 0 {
        let seg: [&str; 1] = ["status-message"];
        assert(strs_view(seg@) =~= seq!["status-message"@]);
        push_attr(&mut attrs, hook(&seg), join_messages(&s.errors));
        push_attr(&mut attrs, to_owned_string("data-status-message"), join_messages(&s.errors));
    }
    let ghost with_status = pairs_view(attrs@);
    assert(with_status =~= if errors.len() > 0 {
        with_selection + seq![
            (input_hook(seq!["status-message"@]), join_lines(errors)),
            ("data-status-message"@, join_lines(errors)),
        ]
    } else {
        with_selection
    });
    if let Some(id) = analytics_id {
        push_attr_str(&mut attrs, "data-analytics-id", id);
        let seg: [&str; 2] = ["analytics", "id"];
        assert(strs_view(seg@) =~= seq!["analytics"@, "id"@]);
        push_attr(&mut attrs, hook(&seg), to_owned_string(id));
    }
    assert(pairs_view(attrs@) =~= analytics_pairs(*s, aid));
    attrs
}

/// The full `<input>` pairs: the analytics pairs, `type`, `value`,
/// `placeholder`, `aria-label`, the legacy `data-dirty`/`data-visited`/
/// `data-focused` flags, `aria-invalid` when there are errors,
/// `aria-describedby` when a status id is given, and the selection bounds.
pub open spec fn input_pairs(
    s: InputSnapshot,
    status_id: Option<Seq<char>>,
    analytics_id: Option<Seq<char>>,
    input_type: Seq<char>,
    placeholder: Seq<char>,
    aria_label: Seq<char>,
) -> Seq<(Seq<char>, Seq<char>)> {
    let base = analytics_pairs(s, analytics_id) + seq![
        ("type"@, input_type),
        ("value"@, s.value@),
        ("placeholder"@, placeholder),
        ("aria-label"@, aria_label),
        ("data-dirty"@, bool_text(s.dirty)),
        ("data-visited"@, bool_text(s.visited)),
        ("data-focused"@, bool_text(s.focused)),
    ];
    let invalid = if s.errors@.len() > 0 {
        base.push(("aria-invalid"@, "true"@))
    } else {
        base
    };
    let described = match status_id {
        Some(id) => invalid.push(("aria-describedby"@, id)),
        None => invalid,
    };
    match s.selection {
        Some(sel) => described + seq![
            ("data-selection-start"@, decimal(sel.start as nat)),
            ("data-selection-end"@, decimal(sel.end as nat)),
        ],
        None => described,
    }
}

/// The view of an optional string slice.
pub open spec fn opt_str(o: Option<&str>) -> Option<Seq<char>> {
    match o {
        Some(s) => Some(s@),
        None => None,
    }
}

/// The `<input>` attribute list.
pub fn input_attribute_pairs(
    s: &InputSnapshot,
    status_id: Option<&str>,
    analytics_id: Option<&str>,
    input_type: &str,
    placeholder: &str,
    aria_label: &str,
) -> (r: Vec<(String, String)>)
    ensures
        pairs_view(r@) == input_pairs(
            *s,
            opt_str(status_id),
            opt_str(analytics_id),
            input_type@,
            placeholder@,
            aria_label@,
        ),
{
    let mut pairs = analytics_attributes(s, analytics_id);
    push_attr_str(&mut pairs, "type", input_type);
    push_attr_str(&mut pairs, "value", s.value.as_str());
    push_attr_str(&mut pairs, "placeholder", placeholder);
    push_attr_str(&mut pairs, "aria-label", aria_label);
    push_attr(&mut pairs, to_owned_string("data-dirty"), bool_token(s.dirty));
    push_attr(&mut pairs, to_owned_string("data-visited"), bool_token(s.visited));
    push_attr(&mut pairs, to_owned_string("data-focused"), bool_token(s.focused));
    if s.errors.len() > 0 {
        push_attr_str(&mut pairs, "aria-invalid", "true");
    }
    if let Some(id) = status_id {
        push_attr_str(&mut pairs, "aria-describedby", id);
    }
    let ghost described = pairs_view(pairs@);
    if let Some(sel) = s.selection {
        push_attr(&mut pairs, to_owned_string("data-selection-start"), usize_to_string(sel.start));
        push_attr(&mut pairs, to_owned_string("data-selection-end"), usize_to_string(sel.end));
    }
    assert(pairs_view(pairs@) =~= input_pairs(
        *s,
        opt_str(status_id),
        opt_str(analytics_id),
        input_type@,
        placeholder@,
        aria_label@,
    ));
    pairs
}

/// Render configuration of an input.
#[derive(Debug, Clone, Copy)]
pub struct InputBaseRenderConfig<'a> {
    pub state: &'a InputSnapshot,
    pub placeholder: &'a str,
    pub aria_label: &'a str,
    pub input_type: &'a str,
    pub status_id: Option<&'a str>,
    pub analytics_id: Option<&'a str>,
    /// Scoped class of the input style.
    pub class: &'a str,
}

impl<'a> InputBaseRenderConfig<'a> {
    /// A text input with empty placeholder and label.
    pub fn new(state: &'a InputSnapshot, class: &'a str) -> (r: Self)
        ensures
            r.state == state,
            r.placeholder@ == Seq::<char>::empty(),
            r.aria_label@ == Seq::<char>::empty(),
            r.input_type@ == "text"@,
            r.status_id is None,
            r.analytics_id is None,
            r.class == class,
    {
        proof {
            reveal_strlit("");
        }
        InputBaseRenderConfig {
            state,
            placeholder: "",
            aria_label: "",
            input_type: "text",
            status_id: None,
            analytics_id: None,
            class,
        }
    }
}

/// Rendered input.
#[derive(Debug, Clone)]
pub struct InputBaseRenderOutput {
    /// `<input ... />`.
    pub html: String,
}

/// `<input attrs />`.
pub open spec fn input_html(c: InputBaseRenderConfig) -> Seq<char> {
    "<input "@ + attrs_html(
        themed_pairs(
            c.class@,
            input_pairs(
                *c.state,
                opt_str(c.status_id),
                opt_str(c.analytics_id),
                c.input_type@,
                c.placeholder@,
                c.aria_label@,
            ),
        ),
    ) + " />"@
}

/// Renders the input as `<input class=".." pairs />`.
pub fn render_input_base_html(config: &InputBaseRenderConfig) -> (r: String)
    ensures
        r@ == input_html(*config),
{
    let attrs = input_attribute_pairs(
        config.state,
        config.status_id,
        config.analytics_id,
        config.input_type,
        config.placeholder,
        config.aria_label,
    );
    let text = themed_attributes_html(config.class, &attrs);
    let mut out = to_owned_string("<input ");
    out.append(text.as_str());
    out.append(" />");
    out
}

/// [`render_input_base_html`] wrapped in the render output.
pub fn render_input_base(config: &InputBaseRenderConfig) -> (r: InputBaseRenderOutput)
    ensures
        r.html@ == input_html(*config),
{
    InputBaseRenderOutput { html: render_input_base_html(config) }
}

/// The value of the first pair under `key` (adapters look attributes up this
/// way).
pub fn attr_lookup(attrs: &[(String, String)], key: &str) -> (r: Option<String>)
    ensures
        opt_seq(r) == lookup_first(pairs_view(attrs@), key@),
{
    first_value(attrs, key)
}

} // verus!
