//! Avatar renderer: themed container and media attribute lists.

use vstd::prelude::*;

use crate::attr_map::{pairs_view, push_attr};
use crate::markup::{themed_attributes, themed_pairs};
use crate::text::to_owned_string;

verus! {

/// What the avatar renderer reads of the avatar state.
#[derive(Debug, Clone)]
pub struct AvatarSnapshot {
    /// Accessibility pairs of the container (`role`, `aria-label`, ...).
    pub accessibility: Vec<(String, String)>,
    /// Alternative text of the image, if any.
    pub alt: Option<String>,
    /// Initials shown when no image loads, if any.
    pub fallback_initials: Option<String>,
}

/// Rendered avatar.
#[derive(Debug, Clone)]
pub struct AvatarRenderOutput {
    container_attributes: Vec<(String, String)>,
    media_attributes: Vec<(String, String)>,
}

impl AvatarRenderOutput {
    /// Container attributes.
    pub closed spec fn container_view(&self) -> Seq<(Seq<char>, Seq<char>)> {
        pairs_view(self.container_attributes@)
    }

    /// Media attributes.
    pub closed spec fn media_view(&self) -> Seq<(Seq<char>, Seq<char>)> {
        pairs_view(self.media_attributes@)
    }

    /// Attributes of the avatar container.
    pub fn container_attributes(&self) -> (r: &[(String, String)])
        ensures
            pairs_view(r@) == self.container_view(),
    {
        self.container_attributes.as_slice()
    }

    /// Attributes of the image or initials element.
    pub fn media_attributes(&self) -> (r: &[(String, String)])
        ensures
            pairs_view(r@) == self.media_view(),
    {
        self.media_attributes.as_slice()
    }
}

/// `alt` when given, then `data-avatar-fallback` when given.
pub open spec fn avatar_media_pairs(alt: Option<String>, initials: Option<String>) -> Seq<
    (Seq<char>, Seq<char>),
> {
    let with_alt = match alt {
        Some(a) => seq![("alt"@, a@)],
        None => Seq::empty(),
    };
    match initials {
        Some(f) => with_alt.push(("data-avatar-fallback"@, f@)),
        None => with_alt,
    }
}

/// Renders the avatar: the container carries the accessibility pairs, the
/// media element the alternative text and fallback initials.
pub fn render_avatar(state: &AvatarSnapshot, container_class: &str, media_class: &str) -> (r:
    AvatarRenderOutput)
    ensures
        r.container_view() == themed_pairs(container_class@, pairs_view(state.accessibility@)),
        r.media_view() == themed_pairs(
            media_class@,
            avatar_media_pairs(state.alt, state.fallback_initials),
        ),
{
    let container_attributes = themed_attributes(container_class, &state.accessibility);
    let mut media: Vec<(String, String)> = Vec::new();
    if let Some(alt) = &state.alt {
        push_attr(&mut media, to_owned_string("alt"), alt.clone());
    }
    if let Some(initials) = &state.fallback_initials {
        push_attr(&mut media, to_owned_string("data-avatar-fallback"), initials.clone());
    }
    assert(pairs_view(media@) =~= avatar_media_pairs(state.alt, state.fallback_initials));
    let media_attributes = themed_attributes(media_class, &media);
    AvatarRenderOutput { container_attributes, media_attributes }
}

} // verus!
