//! Alert renderer: a themed `<div>` carrying the alert's ARIA attributes.

use vstd::prelude::*;

use crate::attr_map::pairs_view;
use crate::markup::{attrs_html, element_text, render_element_html, themed_pairs};

verus! {

/// Rendered alert markup.
#[derive(Debug, Clone, PartialEq, Eq)]
pub struct AlertRenderOutput {
    /// Serialised `<div>` element.
    pub html: String,
}

/// Input of [`render_alert`].
#[derive(Debug, Clone)]
pub struct AlertAdapterProps<'a> {
    /// Message shown in the alert, injected verbatim.
    pub message: &'a str,
    /// ARIA pairs of the alert state (`role`, `aria-live`, ...).
    pub aria: &'a Vec<(String, String)>,
    /// Scoped class of the severity's style.
    pub class: &'a str,
}

impl<'a> AlertAdapterProps<'a> {
    /// Bundles the message, ARIA pairs and class.
    pub fn new(message: &'a str, aria: &'a Vec<(String, String)>, class: &'a str) -> (r: Self)
        ensures
            r.message == message,
            r.aria == aria,
            r.class == class,
    {
        AlertAdapterProps { message, aria, class }
    }
}

/// `<div class=".." aria..>message</div>`.
pub fn render_alert(props: &AlertAdapterProps) -> (r: AlertRenderOutput)
    ensures
        r.html@ == element_text(
            "div"@,
            attrs_html(themed_pairs(props.class@, pairs_view(props.aria@))),
            props.message@,
        ),
{
    let html = render_element_html("div", props.class, props.aria, props.message);
    AlertRenderOutput { html }
}

} // verus!
