//! Thread-gated window lifecycle and event-dispatch engine for a GPU-backed
//! rendering surface embedded in a foreign window.
//!
//! The library owns the logical core: the classification of raw platform
//! events, the dispatch state machine that drives a caller-supplied
//! [`gui_state::GuiState`] callback object, the published window identity, and
//! the synthetic termination message that unblocks a thread parked in a
//! blocking event wait. The platform glue (the windowing-system connection,
//! GL context negotiation, and the background thread itself) lives outside
//! the library and consumes these pieces.

pub mod dispatch;
pub mod events;
pub mod gl_utils;
pub mod gui_state;
pub mod visual_info;
pub mod x11_window;
