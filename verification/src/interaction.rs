//! Keyboard keys understood by the selection controls, and their text forms.

use vstd::prelude::*;

use crate::text::{str_eq, to_owned_string};

verus! {

/// A normalised control key.
#[derive(Debug, Clone, Copy, PartialEq, Eq, Structural)]
pub enum ControlKey {
    Space,
    Enter,
    ArrowUp,
    ArrowDown,
    ArrowLeft,
    ArrowRight,
    Home,
    End,
}

/// The key a browser `key` value names, for the keys that toggle a control:
/// `" "`, `"Spacebar"` and `"Space"` are Space, `"Enter"` is Enter.
pub open spec fn control_key_of(key: Seq<char>) -> Option<ControlKey> {
    if key == " "@ || key == "Spacebar"@ || key == "Space"@ {
        Some(ControlKey::Space)
    } else if key == "Enter"@ {
        Some(ControlKey::Enter)
    } else {
        None
    }
}

/// Maps a browser `key` value to the control key it toggles with, if any.
pub fn control_key_from_str(key: &str) -> (r: Option<ControlKey>)
    ensures
        r == control_key_of(key@),
{
    if str_eq(key, " ") || str_eq(key, "Spacebar") || str_eq(key, "Space") {
        Some(ControlKey::Space)
    } else if str_eq(key, "Enter") {
        Some(ControlKey::Enter)
    } else {
        None
    }
}

/// Kebab-case name of a key, as sent to telemetry sinks.
pub open spec fn control_key_text(key: ControlKey) -> Seq<char> {
    match key {
        ControlKey::Space => "space"@,
        ControlKey::Enter => "enter"@,
        ControlKey::ArrowUp => "arrow-up"@,
        ControlKey::ArrowDown => "arrow-down"@,
        ControlKey::ArrowLeft => "arrow-left"@,
        ControlKey::ArrowRight => "arrow-right"@,
        ControlKey::Home => "home"@,
        ControlKey::End => "end"@,
    }
}

/// The telemetry name of a key.
pub fn control_key_to_str(key: ControlKey) -> (r: String)
    ensures
        r@ == control_key_text(key),
{
    match key {
        ControlKey::Space => to_owned_string("space"),
        ControlKey::Enter => to_owned_string("enter"),
        ControlKey::ArrowUp => to_owned_string("arrow-up"),
        ControlKey::ArrowDown => to_owned_string("arrow-down"),
        ControlKey::ArrowLeft => to_owned_string("arrow-left"),
        ControlKey::ArrowRight => to_owned_string("arrow-right"),
        ControlKey::Home => to_owned_string("home"),
        ControlKey::End => to_owned_string("end"),
    }
}

/// The key a telemetry sink reads back from a key name.
pub open spec fn control_key_named(name: Seq<char>) -> Option<ControlKey> {
    if name == "space"@ {
        Some(ControlKey::Space)
    } else if name == "enter"@ {
        Some(ControlKey::Enter)
    } else if name == "arrow-up"@ {
        Some(ControlKey::ArrowUp)
    } else if name == "arrow-down"@ {
        Some(ControlKey::ArrowDown)
    } else if name == "arrow-left"@ {
        Some(ControlKey::ArrowLeft)
    } else if name == "arrow-right"@ {
        Some(ControlKey::ArrowRight)
    } else if name == "home"@ {
        Some(ControlKey::Home)
    } else if name == "end"@ {
        Some(ControlKey::End)
    } else {
        None
    }
}

/// A key's telemetry name reads back as that key: a sink decoding `"enter"`
/// gets Enter and `"space"` gets Space.
pub proof fn law_control_key_name_round_trip(key: ControlKey)
    ensures
        control_key_named(control_key_text(key)) == Some(key),
{
    reveal_strlit("space");
    reveal_strlit("enter");
    reveal_strlit("arrow-up");
    reveal_strlit("arrow-down");
    reveal_strlit("arrow-left");
    reveal_strlit("arrow-right");
    reveal_strlit("home");
    reveal_strlit("end");
    let space = "space"@;
    let enter = "enter"@;
    let up = "arrow-up"@;
    let down = "arrow-down"@;
    let left = "arrow-left"@;
    let right = "arrow-right"@;
    let home = "home"@;
    let end = "end"@;
    assert(enter[0] != space[0]);
    assert(up.len() != space.len() && up.len() != enter.len());
    assert(down[6] != up[6] && down.len() != space.len() && down.len() != enter.len());
    assert(left[6] != up[6] && left[6] != down[6] && left.len() != space.len() && left.len() != enter.len());
    assert(right.len() != space.len() && right.len() != enter.len() && right.len() != up.len()
        && right.len() != down.len() && right.len() != left.len());
    assert(home.len() != space.len() && home[0] != enter[0] && home.len() != up.len() && home.len() != down.len()
        && home.len() != left.len() && home.len() != right.len());
    assert(end.len() != space.len() && end.len() != enter.len() && end.len() != up.len() && end.len() != down.len()
        && end.len() != left.len() && end.len() != right.len() && end.len() != home.len());
}

/// Distinct keys have distinct telemetry names.
pub proof fn law_control_key_names_distinct(a: ControlKey, b: ControlKey)
    requires
        a != b,
    ensures
        control_key_text(a) != control_key_text(b),
{
    law_control_key_name_round_trip(a);
    law_control_key_name_round_trip(b);
}

} // verus!
