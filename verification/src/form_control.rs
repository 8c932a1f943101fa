//! Form control shell: a column container wrapping a control and its optional
//! helper text.

use vstd::prelude::*;

use crate::attr_map::pairs_view;
use crate::markup::{attrs_html, element_text, render_element_html, themed_pairs};
use crate::text::to_owned_string;

verus! {

/// Rendered form control.
#[derive(Debug, Clone)]
pub struct FormControlRenderOutput {
    /// `<div ...>control helper</div>`.
    pub html: String,
}

/// Input of [`render_form_control`].
#[derive(Debug, Clone)]
pub struct FormControlAdapterProps<'a> {
    /// ARIA pairs of the headless form-control state.
    pub aria: &'a Vec<(String, String)>,
    /// Scoped class of the container style.
    pub class: &'a str,
    /// Markup of the wrapped control.
    pub control_markup: &'a str,
    /// Markup of the helper text, if any.
    pub helper_markup: Option<&'a str>,
}

impl<'a> FormControlAdapterProps<'a> {
    /// Props without helper markup.
    pub fn new(aria: &'a Vec<(String, String)>, class: &'a str, control_markup: &'a str) -> (r: Self)
        ensures
            r.aria == aria,
            r.class == class,
            r.control_markup == control_markup,
            r.helper_markup is None,
    {
        FormControlAdapterProps { aria, class, control_markup, helper_markup: None }
    }

    /// The props with helper markup.
    pub fn with_helper_markup(self, helper_markup: &'a str) -> (r: Self)
        ensures
            r.aria == self.aria,
            r.class == self.class,
            r.control_markup == self.control_markup,
            r.helper_markup == Some(helper_markup),
    {
        FormControlAdapterProps { helper_markup: Some(helper_markup), ..self }
    }
}

/// The control markup followed by the helper markup, if any.
pub open spec fn form_body(control: Seq<char>, helper: Option<&str>) -> Seq<char> {
    match helper {
        Some(h) => control + h@,
        None => control,
    }
}

/// Renders `<div class=".." aria>control helper</div>`.
pub fn render_form_control(props: &FormControlAdapterProps) -> (r: FormControlRenderOutput)
    ensures
        r.html@ == element_text(
            "div"@,
            attrs_html(themed_pairs(props.class@, pairs_view(props.aria@))),
            form_body(props.control_markup@, props.helper_markup),
        ),
{
    let mut body = to_owned_string(props.control_markup);
    if let Some(helper) = props.helper_markup {
        body.append(helper);
    }
    FormControlRenderOutput { html: render_element_html("div", props.class, props.aria, body.as_str()) }
}

} // verus!
