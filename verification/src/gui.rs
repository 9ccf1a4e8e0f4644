//! The UI bootstrap record and the decisions of one pass of the main loop:
//! which events end the program, and when the event loop is told that the
//! UI owes another update. Forwarding a translated event into the toolkit
//! and drawing happen at the process edge; every decision is made here.

use crate::event_loop::AppEvent;
use crate::window::GliumWindow;
use vstd::prelude::*;

verus! {

/// Whether an event asks the main loop to terminate: the window was asked
/// to close, or the Escape key was pressed.
pub open spec fn is_quit_spec(e: AppEvent) -> bool {
    e is CloseRequested || e is EscapePressed
}

/// The UI bootstrap record: the dimensions the UI state was built with,
/// and the window it draws into. The toolkit's widget state, renderer and
/// image map live at the process edge that owns the surface.
pub struct ConrodGUI {
    /// Width the UI state was built with, in pixels.
    pub ui_width: u32,
    /// Height the UI state was built with, in pixels.
    pub ui_height: u32,
    /// The window the UI draws into.
    pub window: GliumWindow,
}

impl ConrodGUI {
    /// The UI state's dimensions match the window's dimensions.
    pub open spec fn wf(self) -> bool {
        self.ui_width == self.window.width && self.ui_height == self.window.height
    }

    /// A UI is built with exactly the window's dimensions: the caller hands
    /// in the same width and height the window was created with.
    pub fn new(width: u32, height: u32, window: GliumWindow) -> (r: Self)
        requires
            width == window.width,
            height == window.height,
        ensures
            r.wf(),
            r.ui_width == width,
            r.ui_height == height,
            r.window == window,
    {
        ConrodGUI { ui_width: width, ui_height: height, window }
    }

    /// An event was translated into a toolkit input and forwarded: the
    /// event loop owes the UI another update.
    pub fn note_ui_input(&mut self)
        ensures
            final(self).window.event_loop.ui_needs_update,
            final(self).window.event_loop.last_update_ms == old(
                self,
            ).window.event_loop.last_update_ms,
            final(self).window.width == old(self).window.width,
            final(self).window.height == old(self).window.height,
            final(self).window.title == old(self).window.title,
            final(self).ui_width == old(self).ui_width,
            final(self).ui_height == old(self).ui_height,
    {
        self.window.event_loop.needs_update();
    }

    /// Whether this event ends the main loop.
    pub fn is_quit_event(e: &AppEvent) -> (r: bool)
        ensures
            r == is_quit_spec(*e),
    {
        match e {
            AppEvent::CloseRequested => true,
            AppEvent::EscapePressed => true,
            AppEvent::Other => false,
        }
    }

    /// The position of the first event in the batch that ends the main
    /// loop, if there is one. Events past that position are not handled.
    pub fn quit_index(events: &Vec<AppEvent>) -> (r: Option<usize>)
        ensures
            match r {
                Some(i) => i < events@.len() && is_quit_spec(events@[i as int]) && (forall|j: int|
                    0 <= j < i ==> !is_quit_spec(#[trigger] events@[j])),
                None => forall|j: int|
                    0 <= j < events@.len() ==> !is_quit_spec(#[trigger] events@[j]),
            },
    {
        let n = events.len();
        let mut i: usize = 0;
        while i < n
            invariant
                n == events@.len(),
                0 <= i <= n,
                forall|j: int| 0 <= j < i ==> !is_quit_spec(#[trigger] events@[j]),
            decreases n - i,
        {
            if Self::is_quit_event(&events[i]) {
                return Some(i);
            }
            i = i + 1;
        }
        None
    }

    /// The decisions of one pass of the main loop over a drained batch:
    /// events are handled in order; each one the toolkit translated marks
    /// the event loop dirty; the first quit event is still handled, then
    /// the pass stops and the main loop ends. `translated` says, position
    /// by position, which events the toolkit translated into UI inputs.
    pub fn process_events(&mut self, events: &Vec<AppEvent>, translated: &Vec<bool>) -> (quit:
        bool)
        requires
            translated@.len() == events@.len(),
        ensures
            quit == exists|i: int| 0 <= i < events@.len() && is_quit_spec(#[trigger] events@[i]),
            final(self).window.event_loop.ui_needs_update == (old(
                self,
            ).window.event_loop.ui_needs_update || exists|i: int|
                0 <= i < events@.len() && #[trigger] translated@[i] && (forall|j: int|
                    0 <= j < i ==> !is_quit_spec(#[trigger] events@[j]))),
            final(self).window.event_loop.last_update_ms == old(
                self,
            ).window.event_loop.last_update_ms,
            final(self).window.width == old(self).window.width,
            final(self).window.height == old(self).window.height,
            final(self).window.title == old(self).window.title,
            final(self).ui_width == old(self).ui_width,
            final(self).ui_height == old(self).ui_height,
    {
        let n = events.len();
        let mut i: usize = 0;
        let mut quit: bool = false;
        while i < n && !quit
            invariant
                n == events@.len(),
                translated@.len() == events@.len(),
                0 <= i <= n,
                !quit ==> forall|j: int| 0 <= j < i ==> !is_quit_spec(#[trigger] events@[j]),
                quit ==> i > 0 && is_quit_spec(events@[i - 1]) && (forall|j: int|
                    0 <= j < i - 1 ==> !is_quit_spec(#[trigger] events@[j])),
                self.window.event_loop.ui_needs_update == (old(
                    self,
                ).window.event_loop.ui_needs_update || exists|k: int|
                    0 <= k < i && #[trigger] translated@[k] && (forall|j: int|
                        0 <= j < k ==> !is_quit_spec(#[trigger] events@[j]))),
                self.window.event_loop.last_update_ms == old(
                    self,
                ).window.event_loop.last_update_ms,
                self.window.width == old(self).window.width,
                self.window.height == old(self).window.height,
                self.window.title == old(self).window.title,
                self.ui_width == old(self).ui_width,
                self.ui_height == old(self).ui_height,
            decreases n - i,
        {
            if translated[i] {
                self.window.event_loop.needs_update();
            }
            quit = Self::is_quit_event(&events[i]);
            i = i + 1;
        }
        quit
    }
}

} // verus!
