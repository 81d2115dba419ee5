//! Events of the window frame itself.

use vstd::prelude::*;

verus! {

/// Enumeration of possible events for a window.
#[derive(Debug, Clone, Copy, PartialEq, Eq)]
pub enum KEventWindow {
    /// Happens when the window is shown.
    Shown(),

    /// Happens when the window is hidden.
    Hidden(),

    /// Happens when the window is exposed.
    Exposed(),

    /// Happens when the window is moved. Provides the new position.
    Moved(usize, usize),

    /// Happens when the window is resized. Provides the new size.
    Resized(usize, usize),

    /// Happens when the window size changed without user input. Provides
    /// the new size.
    SizeChanged(usize, usize),

    /// Happens when the window is minimized.
    Minimized(),

    /// Happens when the window is maximized.
    Maximized(),

    /// Happens when the window is restored.
    Restored(),

    /// Happens when the mouse enters the window.
    MouseEnter(),

    /// Happens when the mouse leaves the window.
    MouseLeave(),

    /// Happens when the window gains focus.
    Focus(),

    /// Happens when the window loses focus.
    Blur(),

    /// Happens when the window closes.
    Close(),
}

} // verus!
