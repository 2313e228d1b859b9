//! The arming state the controller owns: a staged payload and delay range,
//! and whether the next activation signal should dispatch them.

use vstd::prelude::*;

verus! {

/// The controller's session state. `armed` says whether an activation signal
/// should dispatch a job built from the staged payload and delay range.
pub struct SessionState {
    pub armed: bool,
    pub pending_text: Option<String>,
    pub delay_range: Option<(u64, u64)>,
}

/// The session as the contracts see it: the staged payload as a sequence of
/// characters, the delay range in milliseconds.
pub ghost struct SessionView {
    pub armed: bool,
    pub pending_text: Option<Seq<char>>,
    pub delay_range: Option<(u64, u64)>,
}

impl SessionView {
    /// An armed session always carries a payload and a well-ordered delay
    /// range, so dispatching can never fail or stall on a missing field.
    pub open spec fn wf(self) -> bool {
        self.armed ==> match (self.pending_text, self.delay_range) {
            (Some(_), Some(r)) => r.0 <= r.1,
            _ => false,
        }
    }
}

impl View for SessionState {
    type V = SessionView;

    open spec fn view(&self) -> SessionView {
        SessionView {
            armed: self.armed,
            pending_text: match self.pending_text {
                Some(t) => Some(t@),
                None => None,
            },
            delay_range: self.delay_range,
        }
    }
}

/// The state every session starts in: unarmed, nothing staged.
pub open spec fn spec_initial() -> SessionView {
    SessionView { armed: false, pending_text: None, delay_range: None }
}

impl SessionState {
    /// A fresh, unarmed session.
    pub fn new() -> (s: SessionState)
        ensures
            s@ == spec_initial(),
            s@.wf(),
    {
        SessionState { armed: false, pending_text: None, delay_range: None }
    }
}

} // verus!
