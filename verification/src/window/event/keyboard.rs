//! Keyboard events.

use vstd::prelude::*;

verus! {

/// Enumeration of possible keyboard events.
#[derive(Debug, Clone, Copy, PartialEq, Eq)]
pub enum KEventKeyboard {
    /// Keyboard key down event. Provides the code of the key pressed.
    KeyDown(u16),

    /// Keyboard key up event. Provides the code of the key released.
    KeyUp(u16),
}

} // verus!
