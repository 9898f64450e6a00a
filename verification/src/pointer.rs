//! Pointer-event decisions for the touch layer: which GUI pointer event a
//! raw touch action becomes, given whether a press is already being tracked.
//!
//! Reading the controller and dispatching into the GUI stay with the
//! hardware glue; the decision is pure.

use vstd::prelude::*;

verus! {

/// A GUI pointer event.
#[derive(Clone, Copy, Debug, PartialEq, Eq)]
pub enum PointerAction {
    Press,
    Move,
    Release,
}

/// The event dispatched for a raw touch action (0 down, 1 up, 2 move) and
/// the new tracking flag.
pub open spec fn spec_pointer_transition(action_code: u8, pointer_active: bool) -> (
    Option<PointerAction>,
    bool,
) {
    if action_code == 0 {
        (Some(PointerAction::Press), true)
    } else if action_code == 1 {
        (if pointer_active {
            Some(PointerAction::Release)
        } else {
            None
        }, false)
    } else if action_code == 2 {
        if pointer_active {
            (Some(PointerAction::Move), true)
        } else {
            (Some(PointerAction::Press), true)
        }
    } else {
        (None, pointer_active)
    }
}

/// Decides the pointer event for one touch report: a down always presses, an
/// up releases only a tracked press, a move continues a tracked press or
/// starts one, anything else is ignored.
pub fn pointer_transition(action_code: u8, pointer_active: bool) -> (r: (
    Option<PointerAction>,
    bool,
))
    ensures
        r == spec_pointer_transition(action_code, pointer_active),
{
    match action_code {
        0 => (Some(PointerAction::Press), true),
        1 => {
            if pointer_active {
                (Some(PointerAction::Release), false)
            } else {
                (None, false)
            }
        },
        2 => {
            if pointer_active {
                (Some(PointerAction::Move), true)
            } else {
                (Some(PointerAction::Press), true)
            }
        },
        _ => (None, pointer_active),
    }
}

} // verus!
