//! Interval timer for slideshow auto-advance. Time is passed in explicitly
//! as milliseconds of a monotonic clock.

use vstd::prelude::*;

pub use crate::config::TIMER_MIN_MS;

verus! {

/// A raw interval made legal: non-positive means paused (`0`), anything
/// shorter than `TIMER_MIN_MS` is raised to it, longer values stay.
pub open spec fn sanitized(value_ms: int) -> int {
    if value_ms <= 0 {
        0
    } else if value_ms < TIMER_MIN_MS {
        TIMER_MIN_MS as int
    } else {
        value_ms
    }
}

/// Sanitize a raw timer value (milliseconds) to a legal interval.
pub fn sanitize_timer(value_ms: i64) -> (r: u64)
    ensures
        r == sanitized(value_ms as int),
{
    if value_ms <= 0 {
        0
    } else if (value_ms as u64) < TIMER_MIN_MS {
        TIMER_MIN_MS
    } else {
        value_ms as u64
    }
}

/// Milliseconds from `since` to `now`, or 0 if `now` is earlier.
pub open spec fn elapsed(now: u64, since: u64) -> int {
    if now >= since {
        now - since
    } else {
        0
    }
}

/// Shared pause and tick state of a timer.
pub struct TimerBase {
    pub paused: bool,
    pub last_tick_ms: u64,
}

impl TimerBase {
    /// A timer base whose clock starts at `now_ms`.
    pub fn new(paused: bool, now_ms: u64) -> (t: TimerBase)
        ensures
            t.paused == paused,
            t.last_tick_ms == now_ms,
    {
        TimerBase { paused, last_tick_ms: now_ms }
    }

    /// Flip the paused state; on resume the tick clock restarts at `now_ms`.
    /// Returns the new paused state.
    pub fn toggle_pause(&mut self, now_ms: u64) -> (paused: bool)
        ensures
            paused == !old(self).paused,
            final(self).paused == paused,
            final(self).last_tick_ms == (if paused {
                old(self).last_tick_ms
            } else {
                now_ms
            }),
    {
        self.paused = !self.paused;
        if !self.paused {
            self.last_tick_ms = now_ms;
        }
        self.paused
    }

    /// Restart the tick clock at `now_ms`; the paused state is unchanged.
    pub fn reset(&mut self, now_ms: u64)
        ensures
            final(self).paused == old(self).paused,
            final(self).last_tick_ms == now_ms,
    {
        self.last_tick_ms = now_ms;
    }
}

/// Slideshow timer: fires once per interval unless paused. It remembers
/// whether the user paused it, so that choosing a new duration does not
/// resume a timer the user stopped.
pub struct SlideshowTimer {
    pub base: TimerBase,
    pub interval_ms: u64,
    pub paused_by_user: bool,
}

impl SlideshowTimer {
    /// A pause the user asked for holds until the user resumes: whenever
    /// `paused_by_user` is set, the timer is paused. Every operation below
    /// keeps this.
    pub open spec fn user_pause_respected(&self) -> bool {
        self.paused_by_user ==> self.base.paused
    }

    /// A timer for the given raw interval. A non-positive interval starts
    /// paused (with the minimum interval kept for a later resume).
    pub fn new(interval_ms: i64, now_ms: u64) -> (t: SlideshowTimer)
        ensures
            t.base.paused == (sanitized(interval_ms as int) == 0),
            t.interval_ms == (if sanitized(interval_ms as int) > 0 {
                sanitized(interval_ms as int)
            } else {
                TIMER_MIN_MS as int
            }),
            t.base.last_tick_ms == now_ms,
            !t.paused_by_user,
            t.user_pause_respected(),
    {
        let s = sanitize_timer(interval_ms);
        SlideshowTimer {
            base: TimerBase::new(s == 0, now_ms),
            interval_ms: if s > 0 {
                s
            } else {
                TIMER_MIN_MS
            },
            paused_by_user: false,
        }
    }

    /// Whether the timer is paused.
    pub fn paused(&self) -> (b: bool)
        ensures
            b == self.base.paused,
    {
        self.base.paused
    }

    /// Returns `true` when a full interval has passed since the last tick,
    /// and then starts the next interval at `now_ms`. A paused timer never
    /// fires.
    pub fn update(&mut self, now_ms: u64) -> (fired: bool)
        ensures
            old(self).user_pause_respected() ==> final(self).user_pause_respected(),
            fired == (!old(self).base.paused && elapsed(now_ms, old(self).base.last_tick_ms)
                >= old(self).interval_ms),
            final(self).base.last_tick_ms == (if fired {
                now_ms
            } else {
                old(self).base.last_tick_ms
            }),
            final(self).base.paused == old(self).base.paused,
            final(self).interval_ms == old(self).interval_ms,
            final(self).paused_by_user == old(self).paused_by_user,
    {
        if self.base.paused {
            return false;
        }
        let since: u64 = if now_ms >= self.base.last_tick_ms {
            now_ms - self.base.last_tick_ms
        } else {
            0
        };
        if since >= self.interval_ms {
            self.base.last_tick_ms = now_ms;
            true
        } else {
            false
        }
    }

    /// Pause or resume at the user's request. Returns the new paused state.
    pub fn toggle_pause(&mut self, now_ms: u64) -> (paused: bool)
        ensures
            old(self).user_pause_respected() ==> final(self).user_pause_respected(),
            paused == !old(self).base.paused,
            final(self).base.paused == paused,
            final(self).paused_by_user == paused,
            final(self).base.last_tick_ms == (if paused {
                old(self).base.last_tick_ms
            } else {
                now_ms
            }),
            final(self).interval_ms == old(self).interval_ms,
    {
        let p = self.base.toggle_pause(now_ms);
        self.paused_by_user = p;
        p
    }

    /// Restart the current interval at `now_ms`.
    pub fn reset(&mut self, now_ms: u64)
        ensures
            old(self).user_pause_respected() ==> final(self).user_pause_respected(),
            final(self).base.last_tick_ms == now_ms,
            final(self).base.paused == old(self).base.paused,
            final(self).interval_ms == old(self).interval_ms,
            final(self).paused_by_user == old(self).paused_by_user,
    {
        self.base.reset(now_ms);
    }

    /// Choose a new interval. A non-positive value pauses the timer (not as
    /// a user pause). A positive value becomes the interval, restarts the
    /// clock, and resumes the timer unless the user paused it.
    pub fn set_duration(&mut self, duration_ms: i64, now_ms: u64)
        ensures
            old(self).user_pause_respected() ==> final(self).user_pause_respected(),
            sanitized(duration_ms as int) == 0 ==> {
                &&& final(self).base.paused
                &&& !final(self).paused_by_user
                &&& final(self).interval_ms == old(self).interval_ms
                &&& final(self).base.last_tick_ms == old(self).base.last_tick_ms
            },
            sanitized(duration_ms as int) > 0 ==> {
                &&& final(self).interval_ms == sanitized(duration_ms as int)
                &&& final(self).base.last_tick_ms == now_ms
                &&& final(self).base.paused == (old(self).paused_by_user && old(self).base.paused)
                &&& final(self).paused_by_user == old(self).paused_by_user
            },
    {
        let s = sanitize_timer(duration_ms);
        if s == 0 {
            self.base.paused = true;
            self.paused_by_user = false;
        } else {
            self.interval_ms = s;
            self.base.reset(now_ms);
            if !self.paused_by_user {
                self.base.paused = false;
            }
        }
    }
}


} // verus!
