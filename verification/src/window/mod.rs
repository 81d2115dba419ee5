//! Window interface: the events a window produces, the receiver trait and
//! the dispatcher that hands events out, and the window error enumeration.

use vstd::prelude::*;

pub use event::KEvent as KEvent;
pub use event::keyboard::KEventKeyboard as KEventKeyboard;
pub use event::mouse::KEventMouse as KEventMouse;
pub use event::window::KEventWindow as KEventWindow;
pub use event::dispatcher::KEventDispatcher as KEventDispatcher;
pub use event::dispatcher::KEventReceiver as KEventReceiver;

pub mod event;

verus! {

/// Enumeration of possible window errors.
#[derive(Debug, Clone, Copy, PartialEq, Eq)]
pub enum KWindowError {
    /// Happens when a window manager is not supported.
    NotSupported,

    /// Happens when no display server is found.
    NoDisplayServer,

    /// Happens when an error occurred while creating a window from a
    /// window manager.
    FromWindowManagerError,

    /// Happens when adding a receiver whose identity is already in the
    /// dispatch list.
    ReceiverAlreadyExists,

    /// Happens when removing a receiver whose identity is not in the
    /// dispatch list.
    ReceiverNotFound,

    /// Happens when dispatching events while no receiver is in the
    /// dispatch list.
    DispatchNoReceiver,
}

} // verus!
