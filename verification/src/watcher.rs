//! The activation watcher's logic: reduce a raw keyboard event to one of the
//! two semantic signals the controller listens for, or to nothing.

use vstd::prelude::*;

verus! {

/// The keys the engine distinguishes; every other key is reported as `Other`.
#[derive(Clone, Copy, PartialEq, Eq, Structural, Debug)]
pub enum KeyId {
    /// The activation hotkey: right control.
    ControlRight,
    /// The cancel hotkey: escape.
    Escape,
    /// Any other key.
    Other,
}

/// A raw event as the global input source reports it.
#[derive(Clone, Copy, PartialEq, Eq, Structural, Debug)]
pub enum InputEvent {
    /// A key went down.
    KeyPress(KeyId),
    /// A key came up.
    KeyRelease(KeyId),
    /// Anything else the source delivers (mouse movement, buttons, wheel).
    Other,
}

/// The two semantic signals the controller subscribes to.
#[derive(Clone, Copy, PartialEq, Eq, Structural, Debug)]
pub enum Signal {
    /// The activation hotkey was released.
    ActivationPressed,
    /// The cancel hotkey was released.
    CancelPressed,
}

/// What the watcher makes of a raw event: only the release of one of the two
/// hotkeys becomes a signal; presses and all other events are discarded, so
/// holding a hotkey down cannot re-trigger.
pub open spec fn spec_classify(e: InputEvent) -> Option<Signal> {
    match e {
        InputEvent::KeyRelease(KeyId::ControlRight) => Some(Signal::ActivationPressed),
        InputEvent::KeyRelease(KeyId::Escape) => Some(Signal::CancelPressed),
        _ => None,
    }
}

/// Map one raw event to its semantic signal, if it has one.
pub fn classify(e: InputEvent) -> (r: Option<Signal>)
    ensures
        r == spec_classify(e),
{
    match e {
        InputEvent::KeyRelease(KeyId::ControlRight) => Some(Signal::ActivationPressed),
        InputEvent::KeyRelease(KeyId::Escape) => Some(Signal::CancelPressed),
        _ => None,
    }
}

} // verus!
