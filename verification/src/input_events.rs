//! How an input adapter answers blur and key events: Enter and blur commit
//! the value, Escape resets it.

use vstd::prelude::*;

use crate::text::str_eq;

verus! {

/// What an adapter does to the input state in answer to a DOM event.
#[derive(Debug, Clone, Copy, PartialEq, Eq, Structural)]
pub enum InputStateAction {
    /// Leave the state alone.
    Ignore,
    /// Commit the current value and notify the commit callback.
    Commit,
    /// Reset to the committed value and notify the reset callback.
    Reset,
}

/// The DOM events an input adapter reacts to beyond typing and focusing.
#[derive(Debug, Clone)]
pub enum InputDomEvent {
    /// Focus left the input.
    Blur,
    /// A key went down; the payload is the DOM `key` value.
    KeyDown(String),
}

/// An adapter's answer to a DOM event.
#[derive(Debug, Clone, Copy, PartialEq, Eq, Structural)]
pub struct InputEventDecision {
    /// What happens to the input state.
    pub action: InputStateAction,
    /// Whether the browser's default handling is suppressed.
    pub prevent_default: bool,
    /// Whether the adapter re-renders afterwards.
    pub refresh: bool,
}

/// Blur commits; Enter commits and Escape resets, both suppressing the
/// browser default; every other key is ignored. Each state change triggers a
/// re-render.
pub open spec fn input_event_decision(event: InputDomEvent) -> InputEventDecision {
    match event {
        InputDomEvent::Blur => InputEventDecision {
            action: InputStateAction::Commit,
            prevent_default: false,
            refresh: true,
        },
        InputDomEvent::KeyDown(key) => if key@ == "Enter"@ {
            InputEventDecision { action: InputStateAction::Commit, prevent_default: true, refresh: true }
        } else if key@ == "Escape"@ {
            InputEventDecision { action: InputStateAction::Reset, prevent_default: true, refresh: true }
        } else {
            InputEventDecision { action: InputStateAction::Ignore, prevent_default: false, refresh: false }
        },
    }
}

/// Decides how an input adapter answers a blur or a key press.
pub fn decide_input_event(event: &InputDomEvent) -> (r: InputEventDecision)
    ensures
        r == input_event_decision(*event),
{
    match event {
        InputDomEvent::Blur => InputEventDecision {
            action: InputStateAction::Commit,
            prevent_default: false,
            refresh: true,
        },
        InputDomEvent::KeyDown(key) => {
            if str_eq(key.as_str(), "Enter") {
                InputEventDecision { action: InputStateAction::Commit, prevent_default: true, refresh: true }
            } else if str_eq(key.as_str(), "Escape") {
                InputEventDecision { action: InputStateAction::Reset, prevent_default: true, refresh: true }
            } else {
                InputEventDecision { action: InputStateAction::Ignore, prevent_default: false, refresh: false }
            }
        },
    }
}

} // verus!
