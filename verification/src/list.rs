//! List renderer: root and item attribute lists reflecting density, selection
//! mode, selection and highlight state, plus the item markup.

use vstd::prelude::*;

use crate::attr_map::{pairs_view, push_attr};
use crate::markup::{attrs_html, element_text, themed_attributes_html, themed_pairs, wrap_element};
use crate::style_helpers::{
    automation_data_attr, automation_data_attr_text, automation_id, automation_id_text, sanitise, sanitised, strs_view,
};
use crate::text::{bool_text, bool_to_string, decimal, push_decimal, to_owned_string, usize_to_string};

verus! {

/// Vertical rhythm of list rows.
#[derive(Clone, Copy, Debug, PartialEq, Eq, Structural)]
pub enum ListDensity {
    /// Roomy rows.
    Comfortable,
    /// Tight rows.
    Compact,
}

impl ListDensity {
    /// `comfortable` or `compact`.
    pub open spec fn data_text(self) -> Seq<char> {
        match self {
            ListDensity::Comfortable => "comfortable"@,
            ListDensity::Compact => "compact"@,
        }
    }

    /// Value of the `data-density` attribute.
    pub fn data_value(self) -> (r: &'static str)
        ensures
            r@ == self.data_text(),
    {
        match self {
            ListDensity::Comfortable => "comfortable",
            ListDensity::Compact => "compact",
        }
    }

    /// Vertical padding in spacing units: 2 when comfortable, 1 when compact.
    pub fn vertical_padding(self) -> (r: u16)
        ensures
            r == (if self == ListDensity::Comfortable {
                2u16
            } else {
                1u16
            }),
    {
        match self {
            ListDensity::Comfortable => 2,
            ListDensity::Compact => 1,
        }
    }

    /// Gap between the primary and secondary lines in spacing units: 1 when
    /// comfortable, 0 when compact.
    pub fn row_gap(self) -> (r: u16)
        ensures
            r == (if self == ListDensity::Comfortable {
                1u16
            } else {
                0u16
            }),
    {
        match self {
            ListDensity::Comfortable => 1,
            ListDensity::Compact => 0,
        }
    }
}

impl Default for ListDensity {
    fn default() -> (r: Self)
        ensures
            r == ListDensity::Comfortable,
    {
        ListDensity::Comfortable
    }
}

/// Typography variants for the primary and secondary lines.
#[derive(Clone, Copy, Debug, PartialEq, Eq, Structural)]
pub enum ListTypography {
    /// Body text.
    Body1,
    /// Smaller body text.
    Body2,
    /// Subtitle text.
    Subtitle1,
}

impl Default for ListTypography {
    fn default() -> (r: Self)
        ensures
            r == ListTypography::Body1,
    {
        ListTypography::Body1
    }
}

/// How many items may be selected.
#[derive(Clone, Copy, Debug, PartialEq, Eq, Structural)]
pub enum SelectionMode {
    /// Plain list, nothing selectable.
    Off,
    /// One item at a time.
    Single,
    /// Any number of items.
    Multiple,
}

/// One list row.
#[derive(Clone, Debug)]
pub struct ListItem {
    /// Primary line.
    pub primary: String,
    /// Secondary line, if any.
    pub secondary: Option<String>,
    /// Trailing metadata, if any.
    pub meta: Option<String>,
    /// Automation id of the row, if any.
    pub automation_id: Option<String>,
    /// Whether the row is disabled.
    pub disabled: bool,
}

impl ListItem {
    /// A row with only a primary line.
    pub fn new(primary: &str) -> (r: Self)
        ensures
            r.primary@ == primary@,
            r.secondary is None,
            r.meta is None,
            r.automation_id is None,
            !r.disabled,
    {
        ListItem {
            primary: to_owned_string(primary),
            secondary: None,
            meta: None,
            automation_id: None,
            disabled: false,
        }
    }

    /// Sets the secondary line.
    pub fn with_secondary(self, secondary: &str) -> (r: Self)
        ensures
            r.primary == self.primary,
            r.secondary matches Some(s) && s@ == secondary@,
            r.meta == self.meta,
            r.automation_id == self.automation_id,
            r.disabled == self.disabled,
    {
        ListItem { secondary: Some(to_owned_string(secondary)), ..self }
    }

    /// Sets the trailing metadata.
    pub fn with_meta(self, meta: &str) -> (r: Self)
        ensures
            r.primary == self.primary,
            r.secondary == self.secondary,
            r.meta matches Some(m) && m@ == meta@,
            r.automation_id == self.automation_id,
            r.disabled == self.disabled,
    {
        ListItem { meta: Some(to_owned_string(meta)), ..self }
    }

    /// Sets the row's automation id.
    pub fn with_automation_id(self, id: &str) -> (r: Self)
        ensures
            r.primary == self.primary,
            r.secondary == self.secondary,
            r.meta == self.meta,
            r.automation_id matches Some(a) && a@ == id@,
            r.disabled == self.disabled,
    {
        ListItem { automation_id: Some(to_owned_string(id)), ..self }
    }

    /// Marks the row disabled.
    pub fn disabled(self) -> (r: Self)
        ensures
            r.primary == self.primary,
            r.secondary == self.secondary,
            r.meta == self.meta,
            r.automation_id == self.automation_id,
            r.disabled,
    {
        ListItem { disabled: true, ..self }
    }
}

/// List configuration.
#[derive(Clone, Debug)]
pub struct ListProps {
    /// Rows, in order.
    pub items: Vec<ListItem>,
    /// Row density.
    pub density: ListDensity,
    /// Typography of primary lines.
    pub primary_typography: ListTypography,
    /// Typography of secondary lines.
    pub secondary_typography: ListTypography,
    /// Selection mode.
    pub selection_mode: SelectionMode,
    /// Automation id of the list, if any.
    pub automation_id: Option<String>,
}

impl ListProps {
    /// A plain comfortable list with body typography.
    pub fn new(items: Vec<ListItem>) -> (r: Self)
        ensures
            r.items == items,
            r.density == ListDensity::Comfortable,
            r.primary_typography == ListTypography::Body1,
            r.secondary_typography == ListTypography::Body2,
            r.selection_mode == SelectionMode::Off,
            r.automation_id is None,
    {
        ListProps {
            items,
            density: ListDensity::Comfortable,
            primary_typography: ListTypography::Body1,
            secondary_typography: ListTypography::Body2,
            selection_mode: SelectionMode::Off,
            automation_id: None,
        }
    }

    /// Sets the density.
    pub fn with_density(self, density: ListDensity) -> (r: Self)
        ensures
            r == (ListProps { density, ..self }),
    {
        ListProps { density, ..self }
    }

    /// Sets the primary typography.
    pub fn with_primary_typography(self, variant: ListTypography) -> (r: Self)
        ensures
            r == (ListProps { primary_typography: variant, ..self }),
    {
        ListProps { primary_typography: variant, ..self }
    }

    /// Sets the secondary typography.
    pub fn with_secondary_typography(self, variant: ListTypography) -> (r: Self)
        ensures
            r == (ListProps { secondary_typography: variant, ..self }),
    {
        ListProps { secondary_typography: variant, ..self }
    }

    /// Sets the selection mode.
    pub fn with_selection_mode(self, mode: SelectionMode) -> (r: Self)
        ensures
            r == (ListProps { selection_mode: mode, ..self }),
    {
        ListProps { selection_mode: mode, ..self }
    }

    /// Sets the list's automation id.
    pub fn with_automation_id(self, id: &str) -> (r: Self)
        ensures
            r.items == self.items,
            r.density == self.density,
            r.primary_typography == self.primary_typography,
            r.secondary_typography == self.secondary_typography,
            r.selection_mode == self.selection_mode,
            r.automation_id matches Some(a) && a@ == id@,
    {
        ListProps { automation_id: Some(to_owned_string(id)), ..self }
    }
}

/// What the renderer reads of the list state.
#[derive(Clone, Debug)]
pub struct ListSnapshot {
    /// Highlighted row, if any.
    pub highlighted: Option<usize>,
    /// Indices of the selected rows.
    pub selected: Vec<usize>,
}

/// Whether row `index` is selected.
pub open spec fn is_selected(state: ListSnapshot, index: nat) -> bool {
    state.selected@.contains(index as usize)
}

/// The view of an optional string.
pub open spec fn opt_view(o: Option<String>) -> Option<Seq<char>> {
    match o {
        Some(s) => Some(s@),
        None => None,
    }
}

/// Borrows an optional string.
pub fn opt_as_str(o: &Option<String>) -> (r: Option<&str>)
    ensures
        match r {
            Some(s) => opt_view(*o) == Some(s@),
            None => o is None,
        },
{
    match o {
        Some(s) => Some(s.as_str()),
        None => None,
    }
}

/// `rustic-list[-<list id>]`.
pub open spec fn list_base_text(props: ListProps) -> Seq<char> {
    automation_id_text("list"@, opt_view(props.automation_id), Seq::empty())
}

/// DOM id of row `index`: `<sanitised list id>-option-<index>` when the list
/// has an automation id, `rustic-list-option-<index>` otherwise.
pub open spec fn list_item_id_text(props: ListProps, index: nat) -> Seq<char> {
    match props.automation_id {
        Some(id) => sanitised(id@) + "-option-"@ + decimal(index),
        None => automation_id_text("list"@, None, seq!["option-"@ + decimal(index)]),
    }
}

/// Automation id of a row: the row's own id, or `item-<index>`, scoped under
/// the list.
pub open spec fn list_item_automation_text(props: ListProps, item: ListItem, index: nat) -> Seq<char> {
    match item.automation_id {
        Some(id) => automation_id_text("list"@, opt_view(props.automation_id), seq![id@]),
        None => automation_id_text(
            "list"@,
            opt_view(props.automation_id),
            seq!["item-"@ + decimal(index)],
        ),
    }
}

/// `none`, `single` or `multiple`.
pub open spec fn selection_mode_text(mode: SelectionMode) -> Seq<char> {
    match mode {
        SelectionMode::Off => "none"@,
        SelectionMode::Single => "single"@,
        SelectionMode::Multiple => "multiple"@,
    }
}

/// Root pairs of the list.
pub open spec fn list_root_pairs(props: ListProps, state: ListSnapshot) -> Seq<(Seq<char>, Seq<char>)> {
    let head = seq![
        ("data-component"@, automation_id_text("list"@, None, Seq::empty())),
        ("data-density"@, props.density.data_text()),
        ("data-selection-mode"@, selection_mode_text(props.selection_mode)),
    ];
    let aria = match props.selection_mode {
        SelectionMode::Off => seq![("role"@, "list"@)],
        _ => {
            let base = seq![("role"@, "listbox"@), ("tabindex"@, "0"@)];
            let multi = if props.selection_mode == SelectionMode::Multiple {
                base.push(("aria-multiselectable"@, "true"@))
            } else {
                base
            };
            match state.highlighted {
                Some(h) => multi.push(("aria-activedescendant"@, list_item_id_text(props, h as nat))),
                None => multi,
            }
        },
    };
    head + aria + seq![
        (automation_data_attr_text("list"@, seq!["id"@]), list_base_text(props)),
        (
            automation_data_attr_text("list"@, seq!["root"@]),
            automation_id_text("list"@, opt_view(props.automation_id), seq!["root"@]),
        ),
    ]
}

/// Pairs of row `index`.
pub open spec fn list_item_pairs(props: ListProps, state: ListSnapshot, item: ListItem, index: nat) -> Seq<
    (Seq<char>, Seq<char>),
> {
    let selected = is_selected(state, index);
    let head = seq![
        ("id"@, list_item_id_text(props, index)),
        ("data-index"@, decimal(index)),
        ("data-density"@, props.density.data_text()),
        ("data-selected"@, bool_text(selected)),
        ("data-highlighted"@, bool_text(state.highlighted == Some(index as usize))),
        ("data-disabled"@, bool_text(item.disabled)),
        (automation_data_attr_text("list"@, seq!["item"@]), list_item_automation_text(props, item, index)),
    ];
    let role = match props.selection_mode {
        SelectionMode::Off => seq![("role"@, "listitem"@)],
        _ => seq![("role"@, "option"@), ("aria-selected"@, bool_text(selected))],
    };
    if item.disabled {
        head + role + seq![("aria-disabled"@, "true"@)]
    } else {
        head + role
    }
}

fn automation_base(props: &ListProps) -> (r: String)
    ensures
        r@ == list_base_text(*props),
{
    let empty: [&str; 0] = [];
    let r = automation_id("list", opt_as_str(&props.automation_id), &empty);
    assert(strs_view(empty@) =~= Seq::<Seq<char>>::empty());
    r
}

fn item_id(props: &ListProps, index: usize) -> (r: String)
    ensures
        r@ == list_item_id_text(*props, index as nat),
{
    match &props.automation_id {
        Some(id) => {
            let mut out = sanitise(id.as_str());
            out.append("-option-");
            push_decimal(&mut out, index as u64);
            out
        },
        None => {
            let mut segment = to_owned_string("option-");
            push_decimal(&mut segment, index as u64);
            let segments = [segment.as_str()];
            let r = automation_id("list", None, &segments);
            assert(strs_view(segments@) =~= seq!["option-"@ + decimal(index as nat)]);
            r
        },
    }
}

fn item_automation_id(props: &ListProps, item: &ListItem, index: usize) -> (r: String)
    ensures
        r@ == list_item_automation_text(*props, *item, index as nat),
{
    match &item.automation_id {
        Some(id) => {
            let segments = [id.as_str()];
            let r = automation_id("list", opt_as_str(&props.automation_id), &segments);
            assert(strs_view(segments@) =~= seq![id@]);
            r
        },
        None => {
            let mut segment = to_owned_string("item-");
            push_decimal(&mut segment, index as u64);
            let segments = [segment.as_str()];
            let r = automation_id("list", opt_as_str(&props.automation_id), &segments);
            assert(strs_view(segments@) =~= seq!["item-"@ + decimal(index as nat)]);
            r
        },
    }
}

fn contains_index(v: &Vec<usize>, x: usize) -> (r: bool)
    ensures
        r == v@.contains(x),
{
    let n = v.len();
    let mut i: usize = 0;
    while i < n
        invariant
            n == v@.len(),
            i <= n,
            forall|j: int| 0 <= j < i ==> v@[j] != x,
        decreases n - i,
    {
        if v[i] == x {
            assert(v@[i as int] == x);
            return true;
        }
        i = i + 1;
    }
    false
}

/// The root pairs of the list: component marker, density and selection mode,
/// the ARIA contract of the mode (with the highlighted row as active
/// descendant), and automation hooks.
pub fn root_attributes(props: &ListProps, state: &ListSnapshot) -> (r: Vec<(String, String)>)
    ensures
        pairs_view(r@) == list_root_pairs(*props, *state),
{
    let mut attrs: Vec<(String, String)> = Vec::new();
    let empty: [&str; 0] = [];
    assert(strs_view(empty@) =~= Seq::<Seq<char>>::empty());
    push_attr(&mut attrs, to_owned_string("data-component"), automation_id("list", None, &empty));
    push_attr(&mut attrs, to_owned_string("data-density"), to_owned_string(props.density.data_value()));
    let mode = match props.selection_mode {
        SelectionMode::Off => to_owned_string("none"),
        SelectionMode::Single => to_owned_string("single"),
        SelectionMode::Multiple => to_owned_string("multiple"),
    };
    push_attr(&mut attrs, to_owned_string("data-selection-mode"), mode);
    let ghost head = pairs_view(attrs@);
    match props.selection_mode {
        SelectionMode::Off => {
            push_attr(&mut attrs, to_owned_string("role"), to_owned_string("list"));
        },
        _ => {
            push_attr(&mut attrs, to_owned_string("role"), to_owned_string("listbox"));
            push_attr(&mut attrs, to_owned_string("tabindex"), to_owned_string("0"));
            if props.selection_mode == SelectionMode::Multiple {
                push_attr(&mut attrs, to_owned_string("aria-multiselectable"), to_owned_string("true"));
            }
            if let Some(h) = state.highlighted {
                push_attr(&mut attrs, to_owned_string("aria-activedescendant"), item_id(props, h));
            }
        },
    }
    let id_segments = ["id"];
    assert(strs_view(id_segments@) =~= seq!["id"@]);
    push_attr(&mut attrs, automation_data_attr("list", &id_segments), automation_base(props));
    let root_segments = ["root"];
    assert(strs_view(root_segments@) =~= seq!["root"@]);
    push_attr(
        &mut attrs,
        automation_data_attr("list", &root_segments),
        automation_id("list", opt_as_str(&props.automation_id), &root_segments),
    );
    assert(pairs_view(attrs@) =~= list_root_pairs(*props, *state));
    attrs
}

/// The pairs of one row: id, index, density, selection/highlight/disabled
/// flags, automation hook, and the ARIA role of the mode.
pub fn item_attributes(props: &ListProps, state: &ListSnapshot, item: &ListItem, index: usize) -> (r: Vec<
    (String, String),
>)
    ensures
        pairs_view(r@) == list_item_pairs(*props, *state, *item, index as nat),
{
    let selected = contains_index(&state.selected, index);
    let highlighted = match state.highlighted {
        Some(h) => h == index,
        None => false,
    };
    let mut attrs: Vec<(String, String)> = Vec::new();
    push_attr(&mut attrs, to_owned_string("id"), item_id(props, index));
    push_attr(&mut attrs, to_owned_string("data-index"), usize_to_string(index));
    push_attr(&mut attrs, to_owned_string("data-density"), to_owned_string(props.density.data_value()));
    push_attr(&mut attrs, to_owned_string("data-selected"), bool_to_string(selected));
    push_attr(&mut attrs, to_owned_string("data-highlighted"), bool_to_string(highlighted));
    push_attr(&mut attrs, to_owned_string("data-disabled"), bool_to_string(item.disabled));
    let segments = ["item"];
    assert(strs_view(segments@) =~= seq!["item"@]);
    push_attr(&mut attrs, automation_data_attr("list", &segments), item_automation_id(props, item, index));
    match props.selection_mode {
        SelectionMode::Off => {
            push_attr(&mut attrs, to_owned_string("role"), to_owned_string("listitem"));
        },
        _ => {
            push_attr(&mut attrs, to_owned_string("role"), to_owned_string("option"));
            push_attr(&mut attrs, to_owned_string("aria-selected"), bool_to_string(selected));
        },
    }
    if item.disabled {
        push_attr(&mut attrs, to_owned_string("aria-disabled"), to_owned_string("true"));
    }
    assert(pairs_view(attrs@) =~= list_item_pairs(*props, *state, *item, index as nat));
    attrs
}

/// Inner markup of a row.
pub open spec fn item_markup_text(item: ListItem) -> Seq<char> {
    let primary = "<div class=\"rustic_ui_list_content\"><span class=\"rustic_ui_list_primary\">"@
        + item.primary@ + "</span>"@;
    let secondary = match item.secondary {
        Some(s) => "<span class=\"rustic_ui_list_secondary\">"@ + s@ + "</span>"@,
        None => Seq::empty(),
    };
    let meta = match item.meta {
        Some(m) => "<span class=\"rustic_ui_list_meta\">"@ + m@ + "</span>"@,
        None => Seq::empty(),
    };
    primary + secondary + "</div>"@ + meta
}

/// The row's content block: primary line, optional secondary line, optional
/// metadata.
pub fn item_markup(item: &ListItem) -> (r: String)
    ensures
        r@ == item_markup_text(*item),
{
    let mut html = String::new();
    html.append("<div class=\"rustic_ui_list_content\"><span class=\"rustic_ui_list_primary\">");
    html.append(item.primary.as_str());
    html.append("</span>");
    let ghost after_primary = html@;
    if let Some(secondary) = &item.secondary {
        html.append("<span class=\"rustic_ui_list_secondary\">");
        html.append(secondary.as_str());
        html.append("</span>");
    }
    html.append("</div>");
    if let Some(meta) = &item.meta {
        html.append("<span class=\"rustic_ui_list_meta\">");
        html.append(meta.as_str());
        html.append("</span>");
    }
    assert(html@ =~= item_markup_text(*item));
    html
}

/// The rows' `<li>` elements, concatenated.
pub open spec fn list_items_html(
    props: ListProps,
    state: ListSnapshot,
    item_class: Seq<char>,
    n: nat,
) -> Seq<char>
    decreases n,
{
    if n == 0 {
        Seq::empty()
    } else {
        let i = (n - 1) as nat;
        list_items_html(props, state, item_class, i) + element_text(
            "li"@,
            attrs_html(themed_pairs(item_class, list_item_pairs(props, state, props.items@[i as int], i))),
            item_markup_text(props.items@[i as int]),
        )
    }
}

/// `<ul ..><li ..>..</li>...</ul>`, the list and row classes leading their
/// attribute lists.
pub fn render_html(props: &ListProps, state: &ListSnapshot, list_class: &str, item_class: &str) -> (r:
    String)
    ensures
        r@ == element_text(
            "ul"@,
            attrs_html(themed_pairs(list_class@, list_root_pairs(*props, *state))),
            list_items_html(*props, *state, item_class@, props.items@.len()),
        ),
{
    let root = root_attributes(props, state);
    let root_attrs = themed_attributes_html(list_class, &root);
    let n = props.items.len();
    let mut body = String::new();
    let mut i: usize = 0;
    while i < n
        invariant
            n == props.items@.len(),
            i <= n,
            body@ == list_items_html(*props, *state, item_class@, i as nat),
        decreases n - i,
    {
        let item = &props.items[i];
        let pairs = item_attributes(props, state, item, i);
        let attrs = themed_attributes_html(item_class, &pairs);
        let markup = item_markup(item);
        let li = wrap_element("li", attrs.as_str(), markup.as_str());
        body.append(li.as_str());
        i = i + 1;
    }
    wrap_element("ul", root_attrs.as_str(), body.as_str())
}

/// The root's `aria-activedescendant` names the highlighted row: the root
/// carries the pair whose value is exactly the `id` the row is rendered with.
pub proof fn lemma_active_descendant_is_highlighted_row(props: ListProps, state: ListSnapshot, item: ListItem, h: usize)
    requires
        props.selection_mode != SelectionMode::Off,
        state.highlighted == Some(h),
    ensures
        list_item_pairs(props, state, item, h as nat)[0] == ("id"@, list_item_id_text(props, h as nat)),
        list_root_pairs(props, state).contains(("aria-activedescendant"@, list_item_id_text(props, h as nat))),
{
    let root = list_root_pairs(props, state);
    let base = seq![("role"@, "listbox"@), ("tabindex"@, "0"@)];
    let multi = if props.selection_mode == SelectionMode::Multiple {
        base.push(("aria-multiselectable"@, "true"@))
    } else {
        base
    };
    let aria = multi.push(("aria-activedescendant"@, list_item_id_text(props, h as nat)));
    assert(root[3 + multi.len() as int] == aria[multi.len() as int]);
}

/// The selection mode a token names.
pub open spec fn selection_mode_named(token: Seq<char>) -> Option<SelectionMode> {
    if token == "none"@ {
        Some(SelectionMode::Off)
    } else if token == "single"@ {
        Some(SelectionMode::Single)
    } else if token == "multiple"@ {
        Some(SelectionMode::Multiple)
    } else {
        None
    }
}

/// A selection mode's token reads back as that selection mode: `none` names Off, `single` names Single, `multiple` names Multiple.
pub proof fn law_selection_mode_round_trip(value: SelectionMode)
    ensures
        selection_mode_named(selection_mode_text(value)) == Some(value),
{
    let t0 = "none"@;
    let t1 = "single"@;
    let t2 = "multiple"@;
    reveal_strlit("none");
    reveal_strlit("single");
    reveal_strlit("multiple");
    assert(t0.len() != t1.len() || t0[0] != t1[0]);
    assert(t0.len() != t2.len() || t0[0] != t2[0]);
    assert(t1.len() != t2.len() || t1[0] != t2[0]);
}

/// Distinct selection modes have distinct tokens.
pub proof fn law_selection_modes_distinct(a: SelectionMode, b: SelectionMode)
    requires
        a != b,
    ensures
        selection_mode_text(a) != selection_mode_text(b),
{
    law_selection_mode_round_trip(a);
    law_selection_mode_round_trip(b);
}

} // verus!
