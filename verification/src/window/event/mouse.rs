//! Mouse events.

use vstd::prelude::*;

verus! {

/// Enumeration of possible mouse events.
#[derive(Debug, Clone, Copy, PartialEq, Eq)]
pub enum KEventMouse {
    /// Mouse move event. Provides the new position and the old position,
    /// each as a pair of coordinates.
    Moved((i32, i32), (i32, i32)),

    /// Mouse button down event. Provides the button number and the cursor
    /// position.
    ButtonDown(u8, (i32, i32)),

    /// Mouse button up event. Provides the button number and the cursor
    /// position.
    ButtonUp(u8, (i32, i32)),

    /// Mouse wheel event. Provides the amount scrolled horizontally and
    /// vertically.
    Wheel(i32, i32),
}

} // verus!
