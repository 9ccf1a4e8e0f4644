//! The window bootstrap record: the fixed dimensions and title of the one
//! window, and the frame-paced event loop attached to it. The platform
//! surface and OpenGL context are created and owned at the process edge;
//! this record holds everything the rest of the program decides on.

use crate::event_loop::EventLoop;
use vstd::prelude::*;

verus! {

/// A window of fixed dimensions and title, with its event loop. The
/// dimensions and title never change after construction.
pub struct GliumWindow {
    /// Width in pixels, fixed at construction.
    pub width: u32,
    /// Height in pixels, fixed at construction.
    pub height: u32,
    /// The window title, fixed at construction.
    pub title: String,
    /// The frame-paced loop that yields this window's events.
    pub event_loop: EventLoop,
}

impl GliumWindow {
    /// A window records exactly the requested dimensions and title, and
    /// starts with a fresh loop that owes the UI a first update. `now_ms`
    /// is the clock at construction.
    pub fn new(width: u32, height: u32, title: &String, now_ms: u64) -> (r: Self)
        ensures
            r.width == width,
            r.height == height,
            r.title@ == title@,
            r.event_loop.ui_needs_update,
            r.event_loop.last_update_ms == now_ms,
    {
        GliumWindow {
            width,
            height,
            title: title.clone(),
            event_loop: EventLoop::new(now_ms),
        }
    }

    /// The event loop attached to this window.
    pub fn event_loop(&self) -> (r: &EventLoop)
        ensures
            *r == self.event_loop,
    {
        &self.event_loop
    }
}

} // verus!
