//! The native window record: the identifiers of the window and of the color
//! resource created with it, and the visual configuration both were created
//! from. The platform glue creates the native objects and records their
//! identifiers here; teardown destroys them in reverse creation order, the
//! window before the color resource.

use vstd::prelude::*;

use crate::visual_info::VisualInfo;

verus! {

/// One created native window with its color resource and visual
/// configuration.
#[derive(Clone, Copy, Debug, PartialEq, Eq, Structural)]
pub struct X11Window {
    /// The native window handle.
    pub id: u32,
    /// The identifier of the color resource created for the window.
    pub color_map_id: u32,
    /// The visual configuration the window was created from.
    pub visual_info: VisualInfo,
}

/// The parent a window is created under: the caller's foreign handle when
/// one was supplied, and the screen's root window otherwise (a zero handle
/// means no parent was supplied).
pub open spec fn spec_resolve_parent(parent_id: u32, root: u32) -> u32 {
    if parent_id == 0 {
        root
    } else {
        parent_id
    }
}

/// Picks the window to create under: the supplied foreign parent handle, or
/// the screen's root window when none (zero) was supplied.
pub fn resolve_parent(parent_id: u32, root: u32) -> (p: u32)
    ensures
        p == spec_resolve_parent(parent_id, root),
{
    if parent_id == 0 {
        root
    } else {
        parent_id
    }
}

impl X11Window {
    /// Records a created native window.
    pub fn new(id: u32, color_map_id: u32, visual_info: VisualInfo) -> (w: X11Window)
        ensures
            w == (X11Window { id, color_map_id, visual_info }),
    {
        X11Window { id, color_map_id, visual_info }
    }

    /// The native window handle.
    pub fn id(&self) -> (i: u32)
        ensures
            i == self.id,
    {
        self.id
    }

    /// The visual configuration the window was created from.
    pub fn visual_info(&self) -> (v: &VisualInfo)
        ensures
            v == self.visual_info,
    {
        &self.visual_info
    }
}

} // verus!
