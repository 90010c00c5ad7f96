use vstd::prelude::*;
use crate::stopwatch::elapsed_ms;
use crate::timefmt::{
    dec_digits, digit_char, format_duration, lemma_dec_digits_len, pad2, spec_format_duration,
};

verus! {

/// The smallest admissible countdown target: one minute.
pub const MIN_TOTAL_SECS: u64 = 60;

/// The largest admissible countdown target: 999 minutes.
pub const MAX_TOTAL_SECS: u64 = 59940;

/// The adjustment step: one minute.
pub const STEP_SECS: u64 = 60;

/// A countdown timer. Idle shows the full target; running counts down from
/// `start_ms`; done marks an expired countdown awaiting acknowledgement.
/// `logged` guards against committing one expiry twice.
#[derive(Clone, Copy, PartialEq, Eq, Structural, Debug)]
pub struct Timer {
    pub running: bool,
    pub done: bool,
    pub logged: bool,
    pub start_ms: u64,
    pub total_secs: u64,
}

impl Timer {
    /// The target stays within one to 999 minutes, and an expired timer is
    /// never also running.
    pub open spec fn wf(self) -> bool {
        &&& MIN_TOTAL_SECS <= self.total_secs <= MAX_TOTAL_SECS
        &&& !(self.running && self.done)
    }

    /// Milliseconds left on a running countdown at `now_ms`, floored at zero.
    pub open spec fn remaining_ms(self, now_ms: u64) -> nat {
        let total_ms = (self.total_secs * 1000) as nat;
        let e = elapsed_ms(self.start_ms, now_ms);
        if e >= total_ms {
            0
        } else {
            (total_ms - e) as nat
        }
    }

    /// The render tick: a running countdown whose remaining time has reached
    /// zero and is not yet logged expires, exactly once, yielding the whole
    /// minutes of the target for the history commit.
    pub open spec fn tick_spec(self, now_ms: u64) -> (Timer, u64) {
        if self.running && self.remaining_ms(now_ms) == 0 && !self.logged {
            (
                Timer { running: false, done: true, logged: true, ..self },
                (self.total_secs / 60) as u64,
            )
        } else {
            (self, 0)
        }
    }

    /// The toggle transition: acknowledge a done timer, stop a running one
    /// early (no commit), or start an idle one at `now_ms`.
    pub open spec fn toggle_spec(self, now_ms: u64) -> Timer {
        if self.done {
            Timer { done: false, ..self }
        } else if self.running {
            Timer { running: false, ..self }
        } else {
            Timer { running: true, start_ms: now_ms, logged: false, ..self }
        }
    }

    /// One minute more, capped at 999 minutes; a no-op while running.
    pub open spec fn adjust_up_spec(self) -> Timer {
        if self.running {
            self
        } else if self.total_secs + STEP_SECS <= MAX_TOTAL_SECS {
            Timer { total_secs: (self.total_secs + STEP_SECS) as u64, ..self }
        } else {
            Timer { total_secs: MAX_TOTAL_SECS, ..self }
        }
    }

    /// One minute less, floored at one minute; a no-op while running.
    pub open spec fn adjust_down_spec(self) -> Timer {
        if self.running {
            self
        } else if self.total_secs >= MIN_TOTAL_SECS + STEP_SECS {
            Timer { total_secs: (self.total_secs - STEP_SECS) as u64, ..self }
        } else {
            Timer { total_secs: MIN_TOTAL_SECS, ..self }
        }
    }

    /// An idle timer with the given default target in minutes.
    pub fn new(default_minutes: u64) -> (r: Timer)
        requires
            1 <= default_minutes <= 999,
        ensures
            r == (Timer {
                running: false,
                done: false,
                logged: false,
                start_ms: 0u64,
                total_secs: (default_minutes * 60) as u64,
            }),
            r.wf(),
    {
        Timer {
            running: false,
            done: false,
            logged: false,
            start_ms: 0,
            total_secs: default_minutes * 60,
        }
    }

    /// Apply one render tick; the result is the minutes to commit, nonzero
    /// exactly when this tick crossed the expiry.
    pub fn tick(&mut self, now_ms: u64) -> (commit: u64)
        requires
            old(self).wf(),
        ensures
            (*final(self), commit) == old(self).tick_spec(now_ms),
            final(self).wf(),
    {
        if self.running && !self.logged {
            let total_ms: u64 = self.total_secs * 1000;
            let elapsed: u64 = if now_ms >= self.start_ms {
                now_ms - self.start_ms
            } else {
                0
            };
            if elapsed >= total_ms {
                self.running = false;
                self.done = true;
                self.logged = true;
                return self.total_secs / 60;
            }
        }
        0
    }

    /// Acknowledge, stop, or start, as `toggle_spec` says.
    pub fn toggle(&mut self, now_ms: u64)
        requires
            old(self).wf(),
        ensures
            *final(self) == old(self).toggle_spec(now_ms),
            final(self).wf(),
    {
        if self.done {
            self.done = false;
        } else if self.running {
            self.running = false;
        } else {
            self.running = true;
            self.start_ms = now_ms;
            self.logged = false;
        }
    }

    pub fn adjust_up(&mut self)
        requires
            old(self).wf(),
        ensures
            *final(self) == old(self).adjust_up_spec(),
            final(self).wf(),
    {
        if !self.running {
            if self.total_secs + STEP_SECS <= MAX_TOTAL_SECS {
                self.total_secs = self.total_secs + STEP_SECS;
            } else {
                self.total_secs = MAX_TOTAL_SECS;
            }
        }
    }

    pub fn adjust_down(&mut self)
        requires
            old(self).wf(),
        ensures
            *final(self) == old(self).adjust_down_spec(),
            final(self).wf(),
    {
        if !self.running {
            if self.total_secs >= MIN_TOTAL_SECS + STEP_SECS {
                self.total_secs = self.total_secs - STEP_SECS;
            } else {
                self.total_secs = MIN_TOTAL_SECS;
            }
        }
    }

    /// The timer face: the live remaining time while running, zero once done,
    /// the full target when idle.
    pub fn display(&self, now_ms: u64) -> (r: String)
        requires
            self.wf(),
        ensures
            self.done ==> r@ == spec_format_duration(0),
            self.running ==> r@ == spec_format_duration(self.remaining_ms(now_ms)),
            !self.done && !self.running ==> r@ == spec_format_duration(
                (self.total_secs * 1000) as nat,
            ),
    {
        if self.done {
            format_duration(0)
        } else if self.running {
            let total_ms: u64 = self.total_secs * 1000;
            let elapsed: u64 = if now_ms >= self.start_ms {
                now_ms - self.start_ms
            } else {
                0
            };
            let remaining: u64 = if elapsed >= total_ms {
                0
            } else {
                total_ms - elapsed
            };
            format_duration(remaining)
        } else {
            format_duration(self.total_secs * 1000)
        }
    }

    /// True when the face should be highlighted: an expired countdown waiting
    /// to be acknowledged (its face reads zero).
    pub fn alert(&self) -> (r: bool)
        ensures
            r == (self.done && !self.running),
    {
        self.done && !self.running
    }
}

/// A highlighted face is the same thing as an idle face reading zero: the
/// face of an expired countdown reads exactly `00:00.00`, while the face of
/// an idle timer never does, its target being at least one minute.
pub proof fn lemma_alert_is_zero_face(t: Timer)
    requires
        t.wf(),
    ensures
        spec_format_duration(0) == "00:00.00"@,
        spec_format_duration((t.total_secs * 1000) as nat) != "00:00.00"@,
{
    reveal_strlit("00:00.00");
    assert(spec_format_duration(0) =~= "00:00.00"@);
    let ms = (t.total_secs * 1000) as nat;
    let mins = ms / 60000;
    assert(60000 <= ms <= 59940000);
    assert(1 <= mins <= 999);
    let s = spec_format_duration(ms);
    let m = pad2(dec_digits(mins));
    if mins < 10 {
        assert(dec_digits(mins) =~= seq![digit_char(mins)]);
        assert(m =~= seq!['0', digit_char(mins)]);
        assert(s[1] == digit_char(mins));
        assert(digit_char(mins) != '0');
        assert("00:00.00"@[1] == '0');
    } else if mins < 100 {
        assert(dec_digits(mins / 10) =~= seq![digit_char(mins / 10)]);
        assert(dec_digits(mins) =~= seq![digit_char(mins / 10), digit_char(mins % 10)]);
        assert(m == dec_digits(mins));
        assert(s[0] == digit_char(mins / 10));
        assert(1 <= mins / 10 <= 9);
        assert(digit_char(mins / 10) != '0');
        assert("00:00.00"@[0] == '0');
    } else {
        lemma_dec_digits_len(mins / 10);
        assert(dec_digits(mins).len() >= 3);
        lemma_dec_digits_len((ms / 1000) % 60);
        lemma_dec_digits_len((ms % 1000) / 10);
        assert(s.len() >= 9);
        assert("00:00.00"@.len() == 8);
    }
}

/// Adjustment is a no-op while the countdown runs, and otherwise moves the
/// target one minute at a time, clamped to one minute below and 999 minutes
/// above, never wrapping.
pub proof fn lemma_adjust_clamps(t: Timer)
    requires
        t.wf(),
    ensures
        t.running ==> t.adjust_up_spec() == t && t.adjust_down_spec() == t,
        MIN_TOTAL_SECS <= t.adjust_up_spec().total_secs <= MAX_TOTAL_SECS,
        MIN_TOTAL_SECS <= t.adjust_down_spec().total_secs <= MAX_TOTAL_SECS,
        t.total_secs == MAX_TOTAL_SECS ==> t.adjust_up_spec().total_secs == MAX_TOTAL_SECS,
        t.total_secs == MIN_TOTAL_SECS ==> t.adjust_down_spec().total_secs == MIN_TOTAL_SECS,
{
}

/// An expired countdown commits exactly once: a tick that commits leaves the
/// timer in a state from which every further tick commits nothing and
/// changes nothing.
pub proof fn lemma_timer_commits_once(t: Timer, now1: u64, now2: u64)
    requires
        t.wf(),
    ensures
        ({
            let (t1, c1) = t.tick_spec(now1);
            let (t2, c2) = t1.tick_spec(now2);
            c1 > 0 ==> t2 == t1 && c2 == 0
        }),
{
}

} // verus!
