//! Window events: the union enumeration and its per-device parts.

use vstd::prelude::*;
use crate::window::event::keyboard::KEventKeyboard;
use crate::window::event::mouse::KEventMouse;
use crate::window::event::window::KEventWindow;

pub mod dispatcher;

pub mod keyboard;

pub mod mouse;

pub mod window;

verus! {

/// Union of possible events into one enumeration.
#[derive(Debug, Clone, Copy, PartialEq, Eq)]
pub enum KEvent {
    /// Unknown event, ignored by the dispatcher.
    Unknown,

    /// Window events.
    Window(KEventWindow),

    /// Keyboard events.
    Keyboard(KEventKeyboard),

    /// Mouse events.
    Mouse(KEventMouse),
}

} // verus!
