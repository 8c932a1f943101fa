//! Automation selectors, themed class handles and attribute serialisation.
//!
//! Every automation selector emitted by a component starts with
//! [`COMPONENT_PREFIX`], and all of its inputs are sanitised to kebab-case so
//! the same selector is produced whatever casing or punctuation the caller used.

use vstd::prelude::*;

use crate::text::push_char;

verus! {

/// Global prefix applied to every automation selector.
pub const COMPONENT_PREFIX: &'static str = "rustic";

/// The characters of [`COMPONENT_PREFIX`].
pub open spec fn prefix_text() -> Seq<char> {
    seq!['r', 'u', 's', 't', 'i', 'c']
}

/// How one input character is treated: ASCII letters are lower-cased, ASCII
/// digits kept, and everything else becomes a separator (`None`).
pub open spec fn sanitise_char(c: char) -> Option<char> {
    if 'A' <= c && c <= 'Z' {
        Some(((c as int) + 32) as char)
    } else if ('a' <= c && c <= 'z') || ('0' <= c && c <= '9') {
        Some(c)
    } else {
        None
    }
}

/// The characters a sanitised token may hold.
pub open spec fn is_token_char(c: char) -> bool {
    ('a' <= c && c <= 'z') || ('0' <= c && c <= '9') || c == '-'
}

/// Mapping every character and collapsing each run of separators to a single
/// dash.
pub open spec fn collapse_separators(s: Seq<char>) -> Seq<char>
    decreases s.len(),
{
    if s.len() == 0 {
        Seq::empty()
    } else {
        let r = collapse_separators(s.drop_last());
        match sanitise_char(s.last()) {
            Some(c) => r.push(c),
            None => if r.len() > 0 && r.last() == '-' {
                r
            } else {
                r.push('-')
            },
        }
    }
}

/// Removes leading dashes.
pub open spec fn trim_leading_dashes(s: Seq<char>) -> Seq<char>
    decreases s.len(),
{
    if s.len() > 0 && s[0] == '-' {
        trim_leading_dashes(s.drop_first())
    } else {
        s
    }
}

/// Removes trailing dashes.
pub open spec fn trim_trailing_dashes(s: Seq<char>) -> Seq<char>
    decreases s.len(),
{
    if s.len() > 0 && s.last() == '-' {
        trim_trailing_dashes(s.drop_last())
    } else {
        s
    }
}

/// `"component"`, the token used when nothing survives sanitising.
pub open spec fn fallback_token() -> Seq<char> {
    seq!['c', 'o', 'm', 'p', 'o', 'n', 'e', 'n', 't']
}

/// The sanitised (kebab-case) form of a string.
pub open spec fn sanitised(s: Seq<char>) -> Seq<char> {
    let t = trim_trailing_dashes(trim_leading_dashes(collapse_separators(s)));
    if t.len() == 0 {
        fallback_token()
    } else {
        t
    }
}

/// A clean token: only `[a-z0-9-]`, non-empty, no leading or trailing dash,
/// and no two dashes in a row.
pub open spec fn is_clean_token(s: Seq<char>) -> bool {
    &&& s.len() > 0
    &&& forall|i: int| 0 <= i < s.len() ==> is_token_char(#[trigger] s[i])
    &&& s[0] != '-'
    &&& s.last() != '-'
    &&& forall|i: int| 0 <= i < s.len() - 1 ==> !(#[trigger] s[i] == '-' && s[i + 1] == '-')
}

/// `parts[0]-parts[1]-...`: the parts joined with single dashes.
pub open spec fn join_dash(parts: Seq<Seq<char>>) -> Seq<char>
    decreases parts.len(),
{
    if parts.len() == 0 {
        Seq::empty()
    } else if parts.len() == 1 {
        parts[0]
    } else {
        join_dash(parts.drop_last()).push('-') + parts.last()
    }
}

/// The parts of an automation id: the component, the caller's id when given,
/// then each segment, all sanitised.
pub open spec fn automation_parts(
    component: Seq<char>,
    user_id: Option<Seq<char>>,
    segments: Seq<Seq<char>>,
) -> Seq<Seq<char>> {
    let head = match user_id {
        Some(id) => seq![sanitised(component), sanitised(id)],
        None => seq![sanitised(component)],
    };
    head + segments.map_values(|s: Seq<char>| sanitised(s))
}

/// `rustic-<component>[-<user id>]-<segment>...`.
pub open spec fn automation_id_text(
    component: Seq<char>,
    user_id: Option<Seq<char>>,
    segments: Seq<Seq<char>>,
) -> Seq<char> {
    prefix_text().push('-') + join_dash(automation_parts(component, user_id, segments))
}

/// `data-` followed by the automation id without a user segment.
pub open spec fn automation_data_attr_text(component: Seq<char>, segments: Seq<Seq<char>>) -> Seq<
    char,
> {
    seq!['d', 'a', 't', 'a', '-'] + automation_id_text(component, None, segments)
}

/// The views of a slice of string slices.
pub open spec fn strs_view(v: Seq<&str>) -> Seq<Seq<char>> {
    Seq::new(v.len(), |i: int| v[i]@)
}

fn sanitise_char_exec(c: char) -> (r: Option<char>)
    ensures
        r == sanitise_char(c),
{
    if 'A' <= c && c <= 'Z' {
        let b = c as u8;
        let l = (b + 32) as char;
        assert(l as int == (c as int) + 32);
        Some(l)
    } else if ('a' <= c && c <= 'z') || ('0' <= c && c <= '9') {
        Some(c)
    } else {
        None
    }
}

/// Sanitise an arbitrary string into a kebab-case token: ASCII letters are
/// lower-cased, digits kept, every run of other characters becomes one dash,
/// dashes at either end are dropped, and an empty result becomes
/// `"component"`.
pub fn sanitise(value: &str) -> (r: String)
    ensures
        r@ == sanitised(value@),
{
    let n = value.unicode_len();
    let mut raw = String::new();
    let mut prev_dash = false;
    let mut i: usize = 0;
    while i < n
        invariant
            n == value@.len(),
            i <= n,
            raw@ == collapse_separators(value@.subrange(0, i as int)),
            prev_dash == (raw@.len() > 0 && raw@.last() == '-'),
            forall|j: int| 0 <= j < raw@.len() - 1 ==> !(#[trigger] raw@[j] == '-' && raw@[j + 1] == '-'),
        decreases n - i,
    {
        let c = value.get_char(i);
        let ghost before = raw@;
        assert(value@.subrange(0, i + 1).drop_last() =~= value@.subrange(0, i as int));
        assert(value@.subrange(0, i + 1).last() == c);
        match sanitise_char_exec(c) {
            Some(mapped) => {
                push_char(&mut raw, mapped);
                prev_dash = false;
                assert(mapped != '-');
            },
            None => {
                if !prev_dash {
                    push_char(&mut raw, '-');
                    prev_dash = true;
                }
            },
        }
        proof {
            assert forall|j: int| 0 <= j < raw@.len() - 1 implies !(#[trigger] raw@[j] == '-'
                && raw@[j + 1] == '-') by {
                if j < before.len() - 1 {
                    assert(raw@[j] == before[j] && raw@[j + 1] == before[j + 1]);
                }
            }
        }
        i = i + 1;
    }
    assert(value@.subrange(0, n as int) =~= value@);
    let trimmed = trim_dashes(&raw);
    if trimmed.unicode_len_string() == 0 {
        fallback_string()
    } else {
        trimmed
    }
}

/// `"component"`.
fn fallback_string() -> (r: String)
    ensures
        r@ == fallback_token(),
{
    let mut s = String::new();
    push_char(&mut s, 'c');
    push_char(&mut s, 'o');
    push_char(&mut s, 'm');
    push_char(&mut s, 'p');
    push_char(&mut s, 'o');
    push_char(&mut s, 'n');
    push_char(&mut s, 'e');
    push_char(&mut s, 'n');
    push_char(&mut s, 't');
    assert(s@ =~= fallback_token());
    s
}

/// Number of characters of a `String`.
trait StringLen {
    fn unicode_len_string(&self) -> usize;
}

impl StringLen for String {
    fn unicode_len_string(&self) -> (r: usize)
        ensures
            r == self@.len(),
    {
        self.as_str().unicode_len()
    }
}

/// Number of dashes at the start of `s`.
pub open spec fn leading_dashes(s: Seq<char>) -> nat
    decreases s.len(),
{
    if s.len() > 0 && s[0] == '-' {
        1 + leading_dashes(s.drop_first())
    } else {
        0
    }
}

/// Length of `s` once its trailing dashes are gone.
pub open spec fn kept_before_trailing_dashes(s: Seq<char>) -> nat
    decreases s.len(),
{
    if s.len() > 0 && s.last() == '-' {
        kept_before_trailing_dashes(s.drop_last())
    } else {
        s.len()
    }
}

proof fn lemma_trim_leading(s: Seq<char>)
    ensures
        leading_dashes(s) <= s.len(),
        trim_leading_dashes(s) == s.subrange(leading_dashes(s) as int, s.len() as int),
        forall|j: int| 0 <= j < leading_dashes(s) ==> s[j] == '-',
        leading_dashes(s) < s.len() ==> s[leading_dashes(s) as int] != '-',
    decreases s.len(),
{
    if s.len() > 0 && s[0] == '-' {
        let t = s.drop_first();
        lemma_trim_leading(t);
        assert(t.subrange(leading_dashes(t) as int, t.len() as int) =~= s.subrange(
            leading_dashes(s) as int,
            s.len() as int,
        ));
        assert forall|j: int| 0 <= j < leading_dashes(s) implies s[j] == '-' by {
            if j > 0 {
                assert(s[j] == t[j - 1]);
            }
        }
        if leading_dashes(s) < s.len() {
            assert(s[leading_dashes(s) as int] == t[leading_dashes(t) as int]);
        }
    } else {
        assert(s.subrange(0, s.len() as int) =~= s);
    }
}

proof fn lemma_trim_trailing(s: Seq<char>)
    ensures
        kept_before_trailing_dashes(s) <= s.len(),
        trim_trailing_dashes(s) == s.subrange(0, kept_before_trailing_dashes(s) as int),
        forall|j: int| kept_before_trailing_dashes(s) <= j < s.len() ==> s[j] == '-',
        kept_before_trailing_dashes(s) > 0 ==> s[kept_before_trailing_dashes(s) - 1] != '-',
    decreases s.len(),
{
    if s.len() > 0 && s.last() == '-' {
        let t = s.drop_last();
        lemma_trim_trailing(t);
        let k = kept_before_trailing_dashes(s);
        assert(t.subrange(0, k as int) =~= s.subrange(0, k as int));
        assert forall|j: int| k <= j < s.len() implies s[j] == '-' by {
            if j < s.len() - 1 {
                assert(s[j] == t[j]);
            }
        }
        if k > 0 {
            assert(s[k - 1] == t[k - 1]);
        }
    } else {
        assert(s.subrange(0, s.len() as int) =~= s);
    }
}

/// Copies `s` without its leading and trailing dashes (`trim_matches('-')`).
fn trim_dashes(s: &String) -> (r: String)
    ensures
        r@ == trim_trailing_dashes(trim_leading_dashes(s@)),
{
    let n = s.unicode_len_string();
    let text = s.as_str();
    let mut start: usize = 0;
    while start < n && text.get_char(start) == '-'
        invariant
            n == s@.len(),
            text@ == s@,
            start <= n,
            forall|j: int| 0 <= j < start ==> s@[j] == '-',
        decreases n - start,
    {
        start = start + 1;
    }
    let mut end: usize = n;
    while end > start && text.get_char(end - 1) == '-'
        invariant
            n == s@.len(),
            text@ == s@,
            start <= end <= n,
            forall|j: int| end <= j < n ==> s@[j] == '-',
        decreases end,
    {
        end = end - 1;
    }
    let mut r = String::new();
    let mut i = start;
    while i < end
        invariant
            n == s@.len(),
            text@ == s@,
            start <= i <= end <= n,
            r@ == s@.subrange(start as int, i as int),
        decreases end - i,
    {
        push_char(&mut r, text.get_char(i));
        assert(s@.subrange(start as int, i + 1) =~= s@.subrange(start as int, i as int).push(
            s@[i as int],
        ));
        i = i + 1;
    }
    proof {
        lemma_trim_leading(s@);
        let k = leading_dashes(s@);
        if k < start {
            assert(s@[k as int] == '-');
        }
        if start < k {
            assert(s@[start as int] == '-');
        }
        assert(k == start);
        let u = trim_leading_dashes(s@);
        lemma_trim_trailing(u);
        let m = kept_before_trailing_dashes(u);
        assert(u.len() == n - start);
        if start + m < end {
            assert(u[end - 1 - start] == s@[end - 1]);
        }
        if end < start + m {
            assert(u[m - 1] == s@[start + m - 1]);
            assert(s@[start + m - 1] == '-');
        }
        assert(end == start + m);
        assert(r@ =~= u.subrange(0, m as int));
    }
    r
}

/// Collapsing yields only token characters and never two dashes in a row.
proof fn lemma_collapse_shape(s: Seq<char>)
    ensures
        forall|i: int|
            0 <= i < collapse_separators(s).len() ==> is_token_char(
                #[trigger] collapse_separators(s)[i],
            ),
        forall|i: int|
            0 <= i < collapse_separators(s).len() - 1 ==> !(#[trigger] collapse_separators(s)[i]
                == '-' && collapse_separators(s)[i + 1] == '-'),
    decreases s.len(),
{
    if s.len() > 0 {
        lemma_collapse_shape(s.drop_last());
        let r = collapse_separators(s.drop_last());
        let t = collapse_separators(s);
        assert forall|i: int| 0 <= i < t.len() implies is_token_char(#[trigger] t[i]) by {
            if i < r.len() {
                assert(t[i] == r[i]);
            }
        }
        assert forall|i: int| 0 <= i < t.len() - 1 implies !(#[trigger] t[i] == '-' && t[i + 1]
            == '-') by {
            if i < r.len() - 1 {
                assert(t[i] == r[i] && t[i + 1] == r[i + 1]);
            } else {
                assert(t[i] == r[i]);
            }
        }
    }
}

/// Every sanitised string is a clean token.
pub proof fn lemma_sanitised_is_clean(s: Seq<char>)
    ensures
        is_clean_token(sanitised(s)),
{
    let c = collapse_separators(s);
    lemma_collapse_shape(s);
    lemma_trim_leading(c);
    let u = trim_leading_dashes(c);
    let k = leading_dashes(c);
    lemma_trim_trailing(u);
    let m = kept_before_trailing_dashes(u);
    let t = trim_trailing_dashes(u);
    assert forall|i: int| 0 <= i < t.len() implies is_token_char(#[trigger] t[i]) by {
        assert(t[i] == c[k + i]);
    }
    assert forall|i: int| 0 <= i < t.len() - 1 implies !(#[trigger] t[i] == '-' && t[i + 1]
        == '-') by {
        assert(t[i] == c[k + i] && t[i + 1] == c[k + i + 1]);
    }
    if t.len() > 0 {
        assert(t[0] == u[0]);
        assert(u[0] == c[k as int]);
        assert(t.last() == u[m - 1]);
    } else {
        let f = fallback_token();
        assert(forall|i: int| 0 <= i < f.len() ==> is_token_char(#[trigger] f[i]));
        assert(forall|i: int| 0 <= i < f.len() ==> #[trigger] f[i] != '-');
    }
}

/// A string of token characters that does not start with a dash and never
/// holds two dashes in a row collapses to itself.
proof fn lemma_collapse_fixed(t: Seq<char>)
    requires
        forall|i: int| 0 <= i < t.len() ==> is_token_char(#[trigger] t[i]),
        forall|i: int| 0 <= i < t.len() - 1 ==> !(#[trigger] t[i] == '-' && t[i + 1] == '-'),
        t.len() > 0 ==> t[0] != '-',
    ensures
        collapse_separators(t) == t,
    decreases t.len(),
{
    if t.len() > 0 {
        let d = t.drop_last();
        assert forall|i: int| 0 <= i < d.len() implies is_token_char(#[trigger] d[i]) by {
            assert(d[i] == t[i]);
        }
        assert forall|i: int| 0 <= i < d.len() - 1 implies !(#[trigger] d[i] == '-' && d[i + 1]
            == '-') by {
            assert(d[i] == t[i] && d[i + 1] == t[i + 1]);
        }
        if d.len() > 0 {
            assert(d[0] == t[0]);
        }
        lemma_collapse_fixed(d);
        assert(is_token_char(t[t.len() - 1]));
        if t.last() == '-' {
            assert(t.len() >= 2);
            assert(t[t.len() - 2] != '-');
            assert(d.last() == t[t.len() - 2]);
        }
        assert(d.push(t.last()) =~= t);
    }
}

/// Sanitising is idempotent: a sanitised token is left unchanged.
pub proof fn lemma_sanitise_idempotent(s: Seq<char>)
    ensures
        sanitised(sanitised(s)) == sanitised(s),
{
    let t = sanitised(s);
    lemma_sanitised_is_clean(s);
    lemma_collapse_fixed(t);
    assert(leading_dashes(t) == 0);
    lemma_trim_leading(t);
    assert(t.subrange(0, t.len() as int) =~= t);
    lemma_trim_trailing(t);
    assert(trim_trailing_dashes(t) == t);
}

/// `"rustic-"`.
fn prefix_string() -> (r: String)
    ensures
        r@ == prefix_text().push('-'),
{
    let mut s = String::new();
    push_char(&mut s, 'r');
    push_char(&mut s, 'u');
    push_char(&mut s, 's');
    push_char(&mut s, 't');
    push_char(&mut s, 'i');
    push_char(&mut s, 'c');
    push_char(&mut s, '-');
    assert(s@ =~= prefix_text().push('-'));
    s
}

/// Compose a deterministic automation DOM id:
/// `rustic-<component>[-<user id>]-<segment>...`, every part sanitised to
/// kebab-case.
///
/// QA suites glob on `rustic-*`, and the same selector comes out whether the
/// caller wrote `snake_case`, spaces or upper case.
pub fn automation_id(component: &str, user_id: Option<&str>, segments: &[&str]) -> (r: String)
    ensures
        r@ == automation_id_text(
            component@,
            match user_id {
                Some(id) => Some(id@),
                None => None,
            },
            strs_view(segments@),
        ),
{
    let ghost uid = match user_id {
        Some(id) => Some(id@),
        None => None,
    };
    let ghost segs = strs_view(segments@);
    let mut out = prefix_string();
    let head = sanitise(component);
    out.append(head.as_str());
    let ghost mut parts: Seq<Seq<char>> = seq![sanitised(component@)];
    match user_id {
        Some(id) => {
            let part = sanitise(id);
            out.append("-");
            proof {
                reveal_strlit("-");
            }
            out.append(part.as_str());
            proof {
                assert(join_dash(parts.push(sanitised(id@))) == join_dash(parts).push('-') + sanitised(
                    id@,
                )) by {
                    assert(parts.push(sanitised(id@)).drop_last() =~= parts);
                }
                parts = parts.push(sanitised(id@));
            }
        },
        None => {},
    }
    assert(parts.len() >= 1);
    let ghost head_parts = parts;
    assert(out@ == prefix_text().push('-') + join_dash(parts));
    let n = segments.len();
    let mut i: usize = 0;
    while i < n
        invariant
            n == segments@.len(),
            segs == strs_view(segments@),
            i <= n,
            parts == head_parts + segs.subrange(0, i as int).map_values(|x: Seq<char>| sanitised(x)),
            head_parts.len() >= 1,
            out@ == prefix_text().push('-') + join_dash(parts),
        decreases n - i,
    {
        let part = sanitise(segments[i]);
        out.append("-");
        proof {
            reveal_strlit("-");
        }
        out.append(part.as_str());
        proof {
            let x = sanitised(segs[i as int]);
            assert(segments@[i as int]@ == segs[i as int]);
            let next = parts.push(x);
            assert(next.len() >= 2);
            assert(next.drop_last() =~= parts);
            assert(join_dash(next) == join_dash(parts).push('-') + x);
            assert(next =~= head_parts + segs.subrange(0, i + 1).map_values(
                |y: Seq<char>| sanitised(y),
            ));
            parts = next;
        }
        i = i + 1;
    }
    assert(segs.subrange(0, n as int) =~= segs);
    assert(parts =~= automation_parts(component@, uid, segs));
    out
}

/// Attribute name for automation `data-*` hooks:
/// `data-rustic-<component>-<segment>...`.  The caller's own id never takes
/// part, so the key stays stable across component instances.
pub fn automation_data_attr(component: &str, segments: &[&str]) -> (r: String)
    ensures
        r@ == automation_data_attr_text(component@, strs_view(segments@)),
{
    let mut out = String::new();
    out.append("data-");
    proof {
        reveal_strlit("data-");
    }
    let id = automation_id(component, None, segments);
    out.append(id.as_str());
    assert(out@ =~= automation_data_attr_text(component@, strs_view(segments@)));
    out
}

/// `rustic_ui_<component>`, the marker placed in `data-component`.
pub open spec fn component_marker_text(component: Seq<char>) -> Seq<char> {
    "rustic_ui_"@ + component
}

/// The component marker placed in `data-component`: `rustic_ui_<component>`.
pub fn component_marker(component: &str) -> (r: String)
    ensures
        r@ == component_marker_text(component@),
{
    let mut out = String::new();
    out.append("rustic_ui_");
    out.append(component);
    out
}

/// The segment list of a hook that has no segments.
pub const EMPTY_SEGMENTS: [&'static str; 0] = [];

/// Joining clean tokens with dashes gives a clean token.
pub proof fn lemma_join_clean(parts: Seq<Seq<char>>)
    requires
        parts.len() > 0,
        forall|i: int| 0 <= i < parts.len() ==> is_clean_token(#[trigger] parts[i]),
    ensures
        is_clean_token(join_dash(parts)),
    decreases parts.len(),
{
    if parts.len() > 1 {
        let d = parts.drop_last();
        assert forall|i: int| 0 <= i < d.len() implies is_clean_token(#[trigger] d[i]) by {
            assert(d[i] == parts[i]);
        }
        lemma_join_clean(d);
        let a = join_dash(d);
        let b = parts.last();
        assert(is_clean_token(b));
        let t = a.push('-') + b;
        assert(t == join_dash(parts));
        assert forall|i: int| 0 <= i < t.len() implies is_token_char(#[trigger] t[i]) by {
            if i < a.len() {
                assert(t[i] == a[i]);
            } else if i > a.len() {
                assert(t[i] == b[i - a.len() - 1]);
            }
        }
        assert forall|i: int| 0 <= i < t.len() - 1 implies !(#[trigger] t[i] == '-' && t[i + 1]
            == '-') by {
            if i < a.len() - 1 {
                assert(t[i] == a[i] && t[i + 1] == a[i + 1]);
            } else if i == a.len() - 1 {
                assert(t[i] == a[i]);
            } else if i == a.len() {
                assert(t[i + 1] == b[0]);
            } else {
                assert(t[i] == b[i - a.len() - 1] && t[i + 1] == b[i - a.len()]);
            }
        }
        assert(t[0] == a[0]);
        assert(t.last() == b.last());
    }
}

/// Every automation id starts with `rustic-` and continues with a clean
/// kebab-case token: lower-case letters, digits and single inner dashes.
pub proof fn lemma_automation_id_shape(
    component: Seq<char>,
    user_id: Option<Seq<char>>,
    segments: Seq<Seq<char>>,
)
    ensures
        ({
            let id = automation_id_text(component, user_id, segments);
            &&& has_prefix_seq(id, prefix_text().push('-'))
            &&& is_clean_token(id.subrange(7, id.len() as int))
        }),
{
    let parts = automation_parts(component, user_id, segments);
    assert forall|i: int| 0 <= i < parts.len() implies is_clean_token(#[trigger] parts[i]) by {
        match user_id {
            Some(u) => {
                if i == 0 {
                    lemma_sanitised_is_clean(component);
                } else if i == 1 {
                    lemma_sanitised_is_clean(u);
                } else {
                    lemma_sanitised_is_clean(segments[i - 2]);
                }
            },
            None => {
                if i == 0 {
                    lemma_sanitised_is_clean(component);
                } else {
                    lemma_sanitised_is_clean(segments[i - 1]);
                }
            },
        }
    }
    lemma_join_clean(parts);
    let id = automation_id_text(component, user_id, segments);
    assert(id.subrange(7, id.len() as int) =~= join_dash(parts));
    assert(id.subrange(0, 7) =~= prefix_text().push('-'));
}

/// Whether `p` is a prefix of `s`.
pub open spec fn has_prefix_seq(s: Seq<char>, p: Seq<char>) -> bool {
    p.len() <= s.len() && s.subrange(0, p.len() as int) == p
}

} // verus!
