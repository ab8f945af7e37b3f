//! The caller-supplied callback object that receives draw requests and
//! classified pointer input from the event dispatch loop.

use vstd::prelude::*;

verus! {

/// A semantic pointer-input kind, produced from a raw platform button code by
/// the dispatch loop's fixed classification table.
#[derive(Clone, Copy, Debug, PartialEq, Eq, Structural)]
pub enum MouseEvent {
    LeftMouseButtonDown,
    MiddleMouseButtonDown,
    RightMouseButtonDown,
    ScrollUp,
    ScrollDown,
    ScrollLeft,
    ScrollRight,
    BackMouseButtonDown,
    ForwardMouseButtonDown,
}

/// A caller-owned, stateful callback object. After being moved into the
/// window host it is driven exclusively by the single background dispatch
/// thread, strictly sequentially: no call overlaps another.
pub trait GuiState: Send {
    /// Renders the current frame. Invoked once per redraw request, with the
    /// render context made current around the call by the platform glue.
    fn draw(&mut self);

    /// Handles one classified pointer-input event at event-local pixel
    /// coordinates (origin at the top-left of the embedded surface).
    fn handle_mouse(&mut self, mouse_event: MouseEvent, x: i32, y: i32);
}

} // verus!
