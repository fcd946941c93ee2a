//! The dispatch decision: what one raw input event leads to.
//!
//! The blocking loop that pulls events belongs to the embedding; each event
//! it receives is decided here.  Only a key-press whose exact (code, state)
//! pair has a record reaches a callback, and an event yields at most one
//! callback handle.

use vstd::prelude::*;

use crate::registry::{key_of, BindingRegistry, CallbackId};

verus! {

/// The event type a key press is reported with.
pub const KEY_PRESS: i32 = 2;

/// One raw input event, as the platform reports it.
#[derive(Debug, Clone, Copy, PartialEq, Eq, Structural)]
pub struct InputEvent {
    pub event_type: i32,
    pub keycode: i32,
    pub state: u32,
}

/// Decide what `ev` leads to.  An event that is not a key press reaches no
/// callback; a key press reaches the one handle recorded under its exact
/// (code, state) pair, or none.
pub fn match_event(reg: &BindingRegistry, ev: &InputEvent) -> (r: Option<CallbackId>)
    ensures
        ev.event_type != KEY_PRESS ==> r is None,
        ev.event_type == KEY_PRESS ==> r == (if reg@.contains_key(key_of(ev.keycode, ev.state)) {
            Some(reg@[key_of(ev.keycode, ev.state)])
        } else {
            None::<CallbackId>
        }),
{
    if ev.event_type != KEY_PRESS {
        return None;
    }
    reg.lookup(ev.keycode, ev.state)
}

} // verus!
