//! The visual configuration chosen for a window: the plain values the
//! window-creation logic reads from the platform's visual lookup. The
//! platform glue performs the lookup itself and records its outcome here.

use vstd::prelude::*;

verus! {

/// The chosen visual configuration: a handle naming the framebuffer
/// configuration the context builder consumes, and the screen, visual
/// identifier and color depth the window creation consumes.
#[derive(Clone, Copy, Debug, PartialEq, Eq, Structural)]
pub struct VisualInfo {
    /// The handle of the framebuffer configuration.
    pub glx_frame_buffer_config: u64,
    /// The screen the visual belongs to.
    pub screen: usize,
    /// The visual identifier.
    pub visual_id: u32,
    /// The color depth in bits.
    pub depth: u8,
}

impl VisualInfo {
    /// Records the outcome of the platform's visual lookup.
    pub fn new(glx_frame_buffer_config: u64, screen: usize, visual_id: u32, depth: u8) -> (v:
        VisualInfo)
        ensures
            v == (VisualInfo { glx_frame_buffer_config, screen, visual_id, depth }),
    {
        VisualInfo { glx_frame_buffer_config, screen, visual_id, depth }
    }

    /// The handle of the framebuffer configuration.
    pub fn glx_frame_buffer_config(&self) -> (c: u64)
        ensures
            c == self.glx_frame_buffer_config,
    {
        self.glx_frame_buffer_config
    }

    /// The screen the visual belongs to.
    pub fn screen(&self) -> (s: usize)
        ensures
            s == self.screen,
    {
        self.screen
    }

    /// The visual identifier.
    pub fn visual_id(&self) -> (v: u32)
        ensures
            v == self.visual_id,
    {
        self.visual_id
    }

    /// The color depth in bits.
    pub fn depth(&self) -> (d: u8)
        ensures
            d == self.depth,
    {
        self.depth
    }
}

} // verus!
