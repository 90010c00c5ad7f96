use vstd::prelude::*;
use crate::timefmt::{format_duration, spec_format_duration};

verus! {

/// Elapsed wall-clock milliseconds between a recorded start and `now_ms`,
/// zero when the clock appears to have gone backwards.
pub open spec fn elapsed_ms(start_ms: u64, now_ms: u64) -> nat {
    if now_ms >= start_ms {
        (now_ms - start_ms) as nat
    } else {
        0
    }
}

/// Whole minutes contained in `ms` milliseconds.
pub open spec fn whole_minutes(ms: nat) -> nat {
    ms / 60000
}

/// A stopwatch: idle, or running since `start_ms`.
#[derive(Clone, Copy, PartialEq, Eq, Structural, Debug)]
pub struct Stopwatch {
    pub running: bool,
    pub start_ms: u64,
}

impl Stopwatch {
    /// Minutes that stopping at `now_ms` would commit to the history.
    pub open spec fn commit_minutes(self, now_ms: u64) -> u64 {
        whole_minutes(elapsed_ms(self.start_ms, now_ms)) as u64
    }

    /// The toggle transition: starting records `now_ms`; stopping returns to
    /// idle and yields the whole minutes of the session.
    pub open spec fn toggle_spec(self, now_ms: u64) -> (Stopwatch, u64) {
        if self.running {
            (Stopwatch { running: false, start_ms: self.start_ms }, self.commit_minutes(now_ms))
        } else {
            (Stopwatch { running: true, start_ms: now_ms }, 0)
        }
    }

    pub fn new() -> (r: Stopwatch)
        ensures
            r == (Stopwatch { running: false, start_ms: 0u64 }),
    {
        Stopwatch { running: false, start_ms: 0 }
    }

    /// Start when idle; stop when running, returning the whole minutes
    /// elapsed, to be committed by the caller.
    pub fn toggle(&mut self, now_ms: u64) -> (commit: u64)
        ensures
            (*final(self), commit) == old(self).toggle_spec(now_ms),
    {
        if self.running {
            self.running = false;
            let elapsed: u64 = if now_ms >= self.start_ms {
                now_ms - self.start_ms
            } else {
                0
            };
            elapsed / 60000
        } else {
            self.running = true;
            self.start_ms = now_ms;
            0
        }
    }

    /// Minutes a stop at `now_ms` would commit; used on quit, which commits
    /// without resetting the stopwatch.
    pub fn minutes_elapsed(&self, now_ms: u64) -> (m: u64)
        ensures
            m == self.commit_minutes(now_ms),
    {
        let elapsed: u64 = if now_ms >= self.start_ms {
            now_ms - self.start_ms
        } else {
            0
        };
        elapsed / 60000
    }

    /// The stopwatch face: the live elapsed time while running, zero when idle.
    pub fn display(&self, now_ms: u64) -> (r: String)
        ensures
            self.running ==> r@ == spec_format_duration(elapsed_ms(self.start_ms, now_ms)),
            !self.running ==> r@ == spec_format_duration(0),
    {
        if self.running {
            let elapsed: u64 = if now_ms >= self.start_ms {
                now_ms - self.start_ms
            } else {
                0
            };
            format_duration(elapsed)
        } else {
            format_duration(0)
        }
    }
}

} // verus!
