//! Paper renderer: themed surface attributes with the state's tokens exposed
//! as `data-paper-*` attributes.

use vstd::prelude::*;

use crate::attr_map::{extend_attrs, pairs_view, push_attr};
use crate::markup::{themed_attributes, themed_pairs};

verus! {

/// What the paper renderer reads of the paper state.
#[derive(Debug, Clone)]
pub struct PaperSnapshot {
    /// Accessibility pairs of the surface.
    pub accessibility: Vec<(String, String)>,
    /// Named tokens (`elevation`, `variant`, ...) and their values.
    pub tokens: Vec<(String, String)>,
}

/// Rendered paper surface.
#[derive(Debug, Clone)]
pub struct PaperRenderOutput {
    attributes: Vec<(String, String)>,
}

impl PaperRenderOutput {
    /// Surface attributes.
    pub closed spec fn attributes_view(&self) -> Seq<(Seq<char>, Seq<char>)> {
        pairs_view(self.attributes@)
    }

    /// Attributes of the paper surface.
    pub fn attributes(&self) -> (r: &[(String, String)])
        ensures
            pairs_view(r@) == self.attributes_view(),
    {
        self.attributes.as_slice()
    }
}

/// Each token `(k, v)` as `("data-paper-k", v)`.
pub open spec fn paper_token_pairs(tokens: Seq<(Seq<char>, Seq<char>)>) -> Seq<
    (Seq<char>, Seq<char>),
> {
    Seq::new(tokens.len(), |i: int| ("data-paper-"@ + tokens[i].0, tokens[i].1))
}

/// Renders the surface: accessibility pairs, then one `data-paper-*` pair per
/// token, led by the class of the variant's style.
pub fn render_paper(state: &PaperSnapshot, class: &str) -> (r: PaperRenderOutput)
    ensures
        r.attributes_view() == themed_pairs(
            class@,
            pairs_view(state.accessibility@) + paper_token_pairs(pairs_view(state.tokens@)),
        ),
{
    let mut attrs: Vec<(String, String)> = Vec::new();
    extend_attrs(&mut attrs, &state.accessibility);
    let ghost base = pairs_view(attrs@);
    let ghost tv = pairs_view(state.tokens@);
    let n = state.tokens.len();
    let mut i: usize = 0;
    while i < n
        invariant
            n == state.tokens@.len(),
            tv == pairs_view(state.tokens@),
            i <= n,
            pairs_view(attrs@) == base + paper_token_pairs(tv.subrange(0, i as int)),
        decreases n - i,
    {
        let mut key = String::new();
        key.append("data-paper-");
        key.append(state.tokens[i].0.as_str());
        push_attr(&mut attrs, key, state.tokens[i].1.clone());
        assert(paper_token_pairs(tv.subrange(0, i + 1)) =~= paper_token_pairs(
            tv.subrange(0, i as int),
        ).push(("data-paper-"@ + tv[i as int].0, tv[i as int].1)));
        i = i + 1;
    }
    assert(tv.subrange(0, n as int) =~= tv);
    let attributes = themed_attributes(class, &attrs);
    PaperRenderOutput { attributes }
}

} // verus!
