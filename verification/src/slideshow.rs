//! The simpler slideshow timer: a fixed interval (at least 100 ms), paused
//! when constructed with a non-positive interval. Time is passed in as
//! milliseconds of a monotonic clock.

use vstd::prelude::*;

use crate::timer::elapsed;

verus! {

/// The shortest interval this timer uses, in milliseconds.
pub const MIN_INTERVAL_MS: u64 = 100;

/// The interval kept for a raw value: never below the minimum.
pub open spec fn kept_interval(ms: int) -> int {
    if ms < MIN_INTERVAL_MS {
        MIN_INTERVAL_MS as int
    } else {
        ms
    }
}

pub struct SlideshowTimer {
    pub interval_ms: u64,
    pub paused: bool,
    pub last_tick_ms: u64,
}

impl SlideshowTimer {
    /// A timer for `interval_ms`, paused when that is not positive.
    pub fn new(interval_ms: i64, now_ms: u64) -> (t: SlideshowTimer)
        ensures
            t.interval_ms == kept_interval(interval_ms as int),
            t.paused == (interval_ms <= 0),
            t.last_tick_ms == now_ms,
    {
        SlideshowTimer {
            interval_ms: if interval_ms < MIN_INTERVAL_MS as i64 {
                MIN_INTERVAL_MS
            } else {
                interval_ms as u64
            },
            paused: interval_ms <= 0,
            last_tick_ms: now_ms,
        }
    }

    /// While paused the tick clock follows `now_ms` and nothing fires;
    /// otherwise fires when a full interval has passed, restarting it.
    pub fn update(&mut self, now_ms: u64) -> (fired: bool)
        ensures
            old(self).paused ==> !fired && final(self).last_tick_ms == now_ms,
            !old(self).paused ==> fired == (elapsed(now_ms, old(self).last_tick_ms)
                >= old(self).interval_ms) && final(self).last_tick_ms == (if fired {
                now_ms
            } else {
                old(self).last_tick_ms
            }),
            final(self).paused == old(self).paused,
            final(self).interval_ms == old(self).interval_ms,
    {
        if self.paused {
            self.last_tick_ms = now_ms;
            return false;
        }
        let since: u64 = if now_ms >= self.last_tick_ms {
            now_ms - self.last_tick_ms
        } else {
            0
        };
        if since >= self.interval_ms {
            self.last_tick_ms = now_ms;
            true
        } else {
            false
        }
    }

    /// Flip the paused state; on resume the clock restarts at `now_ms`.
    pub fn toggle_pause(&mut self, now_ms: u64) -> (paused: bool)
        ensures
            paused == !old(self).paused,
            final(self).paused == paused,
            final(self).last_tick_ms == (if paused {
                old(self).last_tick_ms
            } else {
                now_ms
            }),
            final(self).interval_ms == old(self).interval_ms,
    {
        self.paused = !self.paused;
        if !self.paused {
            self.last_tick_ms = now_ms;
        }
        self.paused
    }

    /// Restart the clock at `now_ms`.
    pub fn reset(&mut self, now_ms: u64)
        ensures
            final(self).last_tick_ms == now_ms,
            final(self).paused == old(self).paused,
            final(self).interval_ms == old(self).interval_ms,
    {
        self.last_tick_ms = now_ms;
    }

    /// Set a new interval (at least the minimum); the pause state is kept.
    pub fn set_duration(&mut self, duration_ms: i64)
        ensures
            final(self).interval_ms == kept_interval(duration_ms as int),
            final(self).paused == old(self).paused,
            final(self).last_tick_ms == old(self).last_tick_ms,
    {
        self.interval_ms = if duration_ms < MIN_INTERVAL_MS as i64 {
            MIN_INTERVAL_MS
        } else {
            duration_ms as u64
        };
    }

    /// The interval in milliseconds.
    pub fn duration(&self) -> (ms: u64)
        ensures
            ms == self.interval_ms,
    {
        self.interval_ms
    }
}

} // verus!
