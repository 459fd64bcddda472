//! On-screen controller state: when it shows and when it hides itself.
//! Drawing it is left to the caller. Time is passed in as milliseconds.

use vstd::prelude::*;

use crate::timer::elapsed;

verus! {

/// Auto-hide timeout in milliseconds.
pub const OSC_TIMEOUT_MS: u64 = 2000;

/// Actions triggered by controller buttons.
#[derive(Debug, Clone, Copy, PartialEq, Eq, Structural)]
pub enum OscAction {
    PlayPause,
    Previous,
    Next,
    ToggleShuffle,
    OpenSettings,
    Seek(usize),
}

/// Controller state.
pub struct Osc {
    /// Time of the last mouse activity.
    pub last_interaction_ms: u64,
    /// Whether the controller is visible.
    pub visible: bool,
    /// Whether the mouse is over the controller.
    pub hovering: bool,
}

impl Osc {
    /// A visible controller whose activity clock starts at `now_ms`.
    pub fn new(now_ms: u64) -> (o: Osc)
        ensures
            o.last_interaction_ms == now_ms,
            o.visible,
            !o.hovering,
    {
        Osc { last_interaction_ms: now_ms, visible: true, hovering: false }
    }

    /// Record mouse activity: show the controller and restart its clock.
    pub fn update_interaction(&mut self, now_ms: u64)
        ensures
            final(self).last_interaction_ms == now_ms,
            final(self).visible,
            final(self).hovering == old(self).hovering,
    {
        self.last_interaction_ms = now_ms;
        self.visible = true;
    }

    /// Hide the controller when the mouse is not over it and no activity
    /// happened for longer than the timeout; otherwise leave it as it is.
    pub fn check_autohide(&mut self, now_ms: u64)
        ensures
            final(self).visible == (old(self).visible && !(!old(self).hovering && elapsed(
                now_ms,
                old(self).last_interaction_ms,
            ) > OSC_TIMEOUT_MS)),
            final(self).last_interaction_ms == old(self).last_interaction_ms,
            final(self).hovering == old(self).hovering,
    {
        let since: u64 = if now_ms >= self.last_interaction_ms {
            now_ms - self.last_interaction_ms
        } else {
            0
        };
        if !self.hovering && since > OSC_TIMEOUT_MS {
            self.visible = false;
        }
    }
}

} // verus!
