//! The window/tray lifecycle machine.
//!
//! Two states, `Visible` and `Hidden`.  A show request (tray left-click or the
//! tray menu's show entry) leads to `Visible`; a hide request (the `hide`
//! event or an intercepted close request) leads to `Hidden`.  No request
//! reaches a terminal state: only process termination leaves this machine,
//! and that bypasses it entirely.

use vstd::prelude::*;

verus! {

/// Window visibility, the state of the lifecycle machine.
#[derive(Clone, Copy, Debug, PartialEq, Eq, Structural)]
pub enum Visibility {
    Visible,
    Hidden,
}

/// What drives a visibility transition.
#[derive(Clone, Copy, Debug, PartialEq, Eq, Structural)]
pub enum Trigger {
    Show,
    Hide,
}

/// The transition function of the lifecycle machine.  The next state depends
/// only on the trigger, so both transitions are idempotent.
pub open spec fn next_visibility(v: Visibility, t: Trigger) -> Visibility {
    match t {
        Trigger::Show => Visibility::Visible,
        Trigger::Hide => Visibility::Hidden,
    }
}

/// Performs one transition of the lifecycle machine.
pub fn step_visibility(v: Visibility, t: Trigger) -> (r: Visibility)
    ensures
        r == next_visibility(v, t),
{
    match t {
        Trigger::Show => Visibility::Visible,
        Trigger::Hide => Visibility::Hidden,
    }
}

} // verus!
