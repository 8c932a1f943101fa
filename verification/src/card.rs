//! Card: a bordered, padded container.

use vstd::prelude::*;

use crate::text::to_owned_string;

verus! {

/// Props of a card.
#[derive(Debug, Clone, Default)]
pub struct CardProps {
    /// Inner HTML rendered inside the card.
    pub children: String,
}

/// `<div class="<class>">children</div>`.
pub open spec fn card_html(class: Seq<char>, children: Seq<char>) -> Seq<char> {
    "<div class=\""@ + class + "\">"@ + children + "</div>"@
}

/// Renders the card with the scoped class of its style.
pub fn render(props: &CardProps, class: &str) -> (r: String)
    ensures
        r@ == card_html(class@, props.children@),
{
    let mut out = to_owned_string("<div class=\"");
    out.append(class);
    out.append("\">");
    out.append(props.children.as_str());
    out.append("</div>");
    out
}

} // verus!
