//! Automation selectors do not depend on letter case or on how separators
//! are spelled: inputs that differ only there give the same selector.

use vstd::prelude::*;

use crate::style_helpers::{automation_id_text, automation_parts, collapse_separators, sanitise_char, sanitised};

verus! {

/// Two inputs that sanitise alike character by character and separator run
/// by separator run.
pub open spec fn same_token(a: Seq<char>, b: Seq<char>) -> bool {
    collapse_separators(a) == collapse_separators(b)
}

/// Changing the case of ASCII letters, or replacing separator characters by
/// other separator characters one for one, keeps a token the same.
pub proof fn lemma_same_token_pointwise(a: Seq<char>, b: Seq<char>)
    requires
        a.len() == b.len(),
        forall|i: int| 0 <= i < a.len() ==> sanitise_char(#[trigger] a[i]) == sanitise_char(b[i]),
    ensures
        same_token(a, b),
    decreases a.len(),
{
    if a.len() > 0 {
        let da = a.drop_last();
        let db = b.drop_last();
        assert forall|i: int| 0 <= i < da.len() implies sanitise_char(#[trigger] da[i]) == sanitise_char(db[i]) by {
            assert(da[i] == a[i] && db[i] == b[i]);
        }
        lemma_same_token_pointwise(da, db);
        assert(sanitise_char(a.last()) == sanitise_char(b.last()));
    }
}

proof fn lemma_collapse_ends_with_dash(s: Seq<char>)
    requires
        s.len() > 0,
        sanitise_char(s.last()) is None,
    ensures
        collapse_separators(s).len() > 0,
        collapse_separators(s).last() == '-',
{
}

/// Lengthening a separator run by one more separator character keeps a token
/// the same (read backwards: shortening a run of two or more does too).
pub proof fn lemma_same_token_longer_run(s: Seq<char>, i: int, c: char)
    requires
        0 < i <= s.len(),
        sanitise_char(s[i - 1]) is None,
        sanitise_char(c) is None,
    ensures
        same_token(s.insert(i, c), s),
    decreases s.len(),
{
    let t = s.insert(i, c);
    if i == s.len() {
        assert(t =~= s.push(c));
        assert(t.drop_last() =~= s);
        lemma_collapse_ends_with_dash(s);
    } else {
        let d = s.drop_last();
        assert(d[i - 1] == s[i - 1]);
        lemma_same_token_longer_run(d, i, c);
        assert(t.drop_last() =~= d.insert(i, c));
        assert(t.last() == s.last());
    }
}

/// The same token sanitises to the same selector part.
pub proof fn lemma_same_token_sanitised(a: Seq<char>, b: Seq<char>)
    requires
        same_token(a, b),
    ensures
        sanitised(a) == sanitised(b),
{
}

/// Two optional identifiers that are both absent, or both present and the
/// same token.
pub open spec fn same_optional_token(a: Option<Seq<char>>, b: Option<Seq<char>>) -> bool {
    match (a, b) {
        (None, None) => true,
        (Some(x), Some(y)) => same_token(x, y),
        _ => false,
    }
}

/// Automation ids built from inputs that are the same tokens (equal up to
/// ASCII letter case and the spelling of separator runs) are equal:
/// `"Team Menu"`, `"team_menu"` and `"TEAM--MENU"` select the same element.
pub proof fn law_automation_id_ignores_case_and_separators(
    component_a: Seq<char>,
    component_b: Seq<char>,
    user_id_a: Option<Seq<char>>,
    user_id_b: Option<Seq<char>>,
    segments_a: Seq<Seq<char>>,
    segments_b: Seq<Seq<char>>,
)
    requires
        same_token(component_a, component_b),
        same_optional_token(user_id_a, user_id_b),
        segments_a.len() == segments_b.len(),
        forall|i: int| 0 <= i < segments_a.len() ==> same_token(#[trigger] segments_a[i], segments_b[i]),
    ensures
        automation_id_text(component_a, user_id_a, segments_a) == automation_id_text(
            component_b,
            user_id_b,
            segments_b,
        ),
{
    let pa = automation_parts(component_a, user_id_a, segments_a);
    let pb = automation_parts(component_b, user_id_b, segments_b);
    assert(segments_a.map_values(|s: Seq<char>| sanitised(s)) =~= segments_b.map_values(
        |s: Seq<char>| sanitised(s),
    )) by {
        assert forall|i: int| 0 <= i < segments_a.len() implies sanitised(#[trigger] segments_a[i])
            == sanitised(segments_b[i]) by {
            lemma_same_token_sanitised(segments_a[i], segments_b[i]);
        }
    }
    assert(pa =~= pb);
}

/// Drops the trailing run of separator characters (those sanitising to
/// nothing).
pub open spec fn strip_trailing_separators(s: Seq<char>) -> Seq<char>
    decreases s.len(),
{
    if s.len() > 0 && sanitise_char(s.last()) is None {
        strip_trailing_separators(s.drop_last())
    } else {
        s
    }
}

/// Dropping a non-empty trailing separator run shortens the input.
pub proof fn lemma_strip_shorter(s: Seq<char>)
    requires
        s.len() > 0,
        sanitise_char(s.last()) is None,
    ensures
        strip_trailing_separators(s).len() < s.len(),
    decreases s.len(),
{
    let d = s.drop_last();
    assert(strip_trailing_separators(s) == strip_trailing_separators(d));
    if d.len() > 0 && sanitise_char(d.last()) is None {
        lemma_strip_shorter(d);
    } else {
        assert(strip_trailing_separators(d) == d);
    }
}

/// `a` and `b` are equal up to ASCII letter case and up to replacing each
/// maximal run of separator characters (anything but an ASCII letter or
/// digit) by another non-empty run: read from the end, letters and digits
/// match case-insensitively one for one, and a run of separators in one
/// matches a run of separators in the other, whatever their lengths.
pub open spec fn equal_up_to_case_and_runs(a: Seq<char>, b: Seq<char>) -> bool
    decreases a.len() + b.len(),
{
    if a.len() == 0 || b.len() == 0 {
        a.len() == 0 && b.len() == 0
    } else if sanitise_char(a.last()) is Some && sanitise_char(b.last()) is Some {
        sanitise_char(a.last()) == sanitise_char(b.last()) && equal_up_to_case_and_runs(a.drop_last(), b.drop_last())
    } else if sanitise_char(a.last()) is None && sanitise_char(b.last()) is None {
        proof {
            lemma_strip_shorter(a);
            lemma_strip_shorter(b);
        }
        equal_up_to_case_and_runs(strip_trailing_separators(a), strip_trailing_separators(b))
    } else {
        false
    }
}

proof fn lemma_collapse_letter_last(s: Seq<char>)
    requires
        s.len() > 0,
        sanitise_char(s.last()) is Some,
    ensures
        collapse_separators(s).len() > 0,
        collapse_separators(s).last() != '-',
{
}

proof fn lemma_collapse_trailing_run(s: Seq<char>)
    requires
        s.len() > 0,
        sanitise_char(s.last()) is None,
    ensures
        collapse_separators(s) == collapse_separators(strip_trailing_separators(s)).push('-'),
    decreases s.len(),
{
    let d = s.drop_last();
    assert(strip_trailing_separators(s) == strip_trailing_separators(d));
    if d.len() > 0 && sanitise_char(d.last()) is None {
        lemma_collapse_trailing_run(d);
        lemma_collapse_ends_with_dash(d);
    } else {
        assert(strip_trailing_separators(d) == d);
        if d.len() > 0 {
            lemma_collapse_letter_last(d);
        }
    }
}

/// Inputs equal up to letter case and separator runs are the same token.
pub proof fn lemma_case_and_runs_same_token(a: Seq<char>, b: Seq<char>)
    requires
        equal_up_to_case_and_runs(a, b),
    ensures
        same_token(a, b),
    decreases a.len() + b.len(),
{
    if a.len() > 0 && b.len() > 0 {
        if sanitise_char(a.last()) is Some && sanitise_char(b.last()) is Some {
            lemma_case_and_runs_same_token(a.drop_last(), b.drop_last());
        } else {
            lemma_strip_shorter(a);
            lemma_strip_shorter(b);
            lemma_case_and_runs_same_token(strip_trailing_separators(a), strip_trailing_separators(b));
            lemma_collapse_trailing_run(a);
            lemma_collapse_trailing_run(b);
        }
    }
}

/// Automation ids whose component, caller id and segments are each equal up
/// to ASCII letter case and the replacement of separator runs by other
/// non-empty runs are equal: `"Team Menu"`, `"team_menu"` and `"TEAM-MENU"`
/// give the same selector.
pub proof fn law_automation_id_case_and_runs(
    component_a: Seq<char>,
    component_b: Seq<char>,
    user_id_a: Option<Seq<char>>,
    user_id_b: Option<Seq<char>>,
    segments_a: Seq<Seq<char>>,
    segments_b: Seq<Seq<char>>,
)
    requires
        equal_up_to_case_and_runs(component_a, component_b),
        user_id_a is None <==> user_id_b is None,
        user_id_a is Some ==> equal_up_to_case_and_runs(user_id_a->0, user_id_b->0),
        segments_a.len() == segments_b.len(),
        forall|i: int| 0 <= i < segments_a.len() ==> equal_up_to_case_and_runs(#[trigger] segments_a[i], segments_b[i]),
    ensures
        automation_id_text(component_a, user_id_a, segments_a) == automation_id_text(
            component_b,
            user_id_b,
            segments_b,
        ),
{
    lemma_case_and_runs_same_token(component_a, component_b);
    if user_id_a is Some {
        lemma_case_and_runs_same_token(user_id_a->0, user_id_b->0);
    }
    assert forall|i: int| 0 <= i < segments_a.len() implies same_token(#[trigger] segments_a[i], segments_b[i]) by {
        lemma_case_and_runs_same_token(segments_a[i], segments_b[i]);
    }
    law_automation_id_ignores_case_and_separators(
        component_a,
        component_b,
        user_id_a,
        user_id_b,
        segments_a,
        segments_b,
    );
}

} // verus!
