//! A frame-paced event loop: decides how long a poll must sleep to stay at
//! or below sixty polls per second, whether it must block for one more
//! platform event, and which events it yields. The sleeping and the waiting
//! themselves happen at the process edge that owns the platform event queue;
//! this module holds every decision.

use vstd::prelude::*;

verus! {

/// Milliseconds that must separate two consecutive returns of `poll`:
/// caps the loop at roughly sixty polls per second.
pub const FRAME_INTERVAL_MS: u64 = 16;

/// A platform event, reduced to what the loop decides on.
#[derive(Clone, Copy, PartialEq, Eq, Structural, Debug)]
pub enum AppEvent {
    /// The platform asked the window to close.
    CloseRequested,
    /// The Escape key was pressed.
    EscapePressed,
    /// Any other platform event.
    Other,
}

/// How long a poll at `now_ms` still has to sleep so that at least
/// `FRAME_INTERVAL_MS` elapse since the previous poll returned at `last_ms`.
pub open spec fn pace_delay_spec(last_ms: int, now_ms: int) -> int {
    if now_ms - last_ms < FRAME_INTERVAL_MS {
        FRAME_INTERVAL_MS - (now_ms - last_ms)
    } else {
        0
    }
}

/// Whether a poll that drained `pending` queued events must block for one
/// more: only when nothing was queued and no redraw is owed.
pub open spec fn blocks_spec(dirty: bool, pending: nat) -> bool {
    pending == 0 && !dirty
}

/// The poll pacing state: when the previous poll returned, and whether the
/// UI owes a redraw even without new input.
pub struct EventLoop {
    /// The UI asked for another update regardless of pending input.
    pub ui_needs_update: bool,
    /// When `poll` last returned, in milliseconds of a monotonic clock.
    pub last_update_ms: u64,
}

impl EventLoop {
    /// A fresh loop owes the UI a first update.
    pub fn new(now_ms: u64) -> (r: Self)
        ensures
            r.ui_needs_update,
            r.last_update_ms == now_ms,
    {
        EventLoop { ui_needs_update: true, last_update_ms: now_ms }
    }

    /// Milliseconds the caller must sleep before draining events, so that
    /// two consecutive polls return at least `FRAME_INTERVAL_MS` apart.
    pub fn pace_delay(&self, now_ms: u64) -> (r: u64)
        requires
            self.last_update_ms <= now_ms,
        ensures
            r == pace_delay_spec(self.last_update_ms as int, now_ms as int),
    {
        let since: u64 = now_ms - self.last_update_ms;
        if since < FRAME_INTERVAL_MS {
            FRAME_INTERVAL_MS - since
        } else {
            0
        }
    }

    /// Whether a poll that drained `pending` queued events must block until
    /// one more event arrives.
    pub fn must_block(&self, pending: usize) -> (r: bool)
        ensures
            r == blocks_spec(self.ui_needs_update, pending as nat),
    {
        pending == 0 && !self.ui_needs_update
    }

    /// One poll, after the caller slept for `pace_delay`, drained the
    /// platform queue into `drained` and, exactly where `must_block` held,
    /// blocked until `next` arrived; `now_ms` is the clock after all of
    /// that. Yields the drained events, or exactly the one awaited event,
    /// and clears the redraw debt.
    pub fn poll(&mut self, now_ms: u64, drained: Vec<AppEvent>, next: Option<AppEvent>) -> (r: Vec<
        AppEvent,
    >)
        requires
            next is Some <==> blocks_spec(old(self).ui_needs_update, drained@.len()),
        ensures
            !final(self).ui_needs_update,
            final(self).last_update_ms == now_ms,
            match next {
                Some(e) => r@ == seq![e],
                None => r@ == drained@,
            },
    {
        self.ui_needs_update = false;
        self.last_update_ms = now_ms;
        match next {
            Some(e) => {
                let mut single: Vec<AppEvent> = Vec::new();
                single.push(e);
                proof {
                    assert(single@ =~= seq![e]);
                }
                single
            },
            None => drained,
        }
    }

    /// Notes that the UI requires another update whether or not any events
    /// are pending (used while part of the UI is still animating).
    pub fn needs_update(&mut self)
        ensures
            final(self).ui_needs_update,
            final(self).last_update_ms == old(self).last_update_ms,
    {
        self.ui_needs_update = true;
    }
}

/// Frame pacing law: a poll issued less than `FRAME_INTERVAL_MS` after the
/// previous poll returned sleeps exactly up to the interval boundary, so it
/// cannot return before that boundary; a later poll does not sleep at all.
pub proof fn lemma_pace_to_boundary(last_ms: int, now_ms: int)
    requires
        last_ms <= now_ms,
    ensures
        now_ms < last_ms + FRAME_INTERVAL_MS ==> now_ms + pace_delay_spec(last_ms, now_ms)
            == last_ms + FRAME_INTERVAL_MS,
        now_ms >= last_ms + FRAME_INTERVAL_MS ==> pace_delay_spec(last_ms, now_ms) == 0,
{
}

/// Dirty-flag law: marking the loop dirty before a poll with input already
/// pending does not alter the draining of pending events — such a poll
/// blocks in neither state, so by `poll`'s contract it yields exactly the
/// drained queue either way — while the next poll that drains nothing no
/// longer blocks once the loop was marked dirty, and still blocks where it
/// was not.
pub proof fn lemma_mark_dirty(drained: Seq<AppEvent>)
    requires
        drained.len() > 0,
    ensures
        !blocks_spec(true, drained.len()),
        !blocks_spec(false, drained.len()),
        !blocks_spec(true, 0),
        blocks_spec(false, 0),
{
}

} // verus!
