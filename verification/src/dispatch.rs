use vstd::prelude::*;
use crate::history::{History, keys_unique, spec_add, spec_get};
use crate::stopwatch::{elapsed_ms, whole_minutes, Stopwatch};
use crate::timer::Timer;

verus! {

/// The key commands the loop dispatches on; anything else is `Other`.
#[derive(Clone, Copy, PartialEq, Eq, Structural, Debug)]
pub enum Key {
    Left,
    Right,
    Up,
    Down,
    Space,
    Quit,
    Other,
}

/// What one dispatched event asks of the surrounding loop: how many minutes
/// were just committed (a nonzero count obliges a persist), and whether to
/// leave the loop.
#[derive(Clone, Copy, PartialEq, Eq, Structural, Debug)]
pub struct Effect {
    pub minutes: u64,
    pub quit: bool,
}

/// The abstract state of the whole screen.
pub struct AppV {
    pub stopwatch: Stopwatch,
    pub timer: Timer,
    pub page: u8,
    pub history: Seq<(Seq<char>, u64)>,
    pub history_offset: usize,
}

impl AppV {
    pub open spec fn wf(self) -> bool {
        &&& self.page < 3
        &&& self.timer.wf()
        &&& keys_unique(self.history)
    }
}

/// A session is active while either the stopwatch or the timer runs.
pub open spec fn session_running(v: AppV) -> bool {
    v.stopwatch.running || v.timer.running
}

/// The history after committing `m` minutes under `today`; zero minutes
/// leave it untouched and create no entry.
pub open spec fn committed(h: Seq<(Seq<char>, u64)>, today: Seq<char>, m: u64) -> Seq<
    (Seq<char>, u64),
> {
    if m > 0 {
        spec_add(h, today, m)
    } else {
        h
    }
}

pub open spec fn no_effect() -> Effect {
    Effect { minutes: 0, quit: false }
}

/// The dispatch relation: one key, applied to the state at `now_ms` with
/// `today` as the current date key.
pub open spec fn step_spec(v: AppV, key: Key, now_ms: u64, today: Seq<char>) -> (AppV, Effect) {
    match key {
        Key::Right => if session_running(v) {
            (v, no_effect())
        } else {
            (AppV { page: ((v.page + 1) % 3) as u8, ..v }, no_effect())
        },
        Key::Left => if session_running(v) {
            (v, no_effect())
        } else {
            (AppV { page: ((v.page + 2) % 3) as u8, ..v }, no_effect())
        },
        Key::Up => if v.page == 1 {
            (AppV { timer: v.timer.adjust_up_spec(), ..v }, no_effect())
        } else if v.page == 2 {
            let off = if v.history_offset > 0 {
                (v.history_offset - 1) as usize
            } else {
                0
            };
            (AppV { history_offset: off, ..v }, no_effect())
        } else {
            (v, no_effect())
        },
        Key::Down => if v.page == 1 {
            (AppV { timer: v.timer.adjust_down_spec(), ..v }, no_effect())
        } else if v.page == 2 {
            let off = if v.history_offset < usize::MAX {
                (v.history_offset + 1) as usize
            } else {
                usize::MAX
            };
            (AppV { history_offset: off, ..v }, no_effect())
        } else {
            (v, no_effect())
        },
        Key::Space => if v.page == 0 {
            let (sw, m) = v.stopwatch.toggle_spec(now_ms);
            (
                AppV { stopwatch: sw, history: committed(v.history, today, m), ..v },
                Effect { minutes: m, quit: false },
            )
        } else if v.page == 1 {
            (AppV { timer: v.timer.toggle_spec(now_ms), ..v }, no_effect())
        } else {
            (v, no_effect())
        },
        Key::Quit => {
            let m = if v.stopwatch.running {
                v.stopwatch.commit_minutes(now_ms)
            } else {
                0
            };
            (
                AppV { history: committed(v.history, today, m), ..v },
                Effect { minutes: m, quit: true },
            )
        },
        Key::Other => (v, no_effect()),
    }
}

/// The render-tick relation: the timer may expire and commit its minutes.
pub open spec fn tick_spec(v: AppV, now_ms: u64, today: Seq<char>) -> (AppV, u64) {
    let (t, m) = v.timer.tick_spec(now_ms);
    (AppV { timer: t, history: committed(v.history, today, m), ..v }, m)
}

/// The scroll offset the history page settles on: zero when everything fits,
/// otherwise at most the first offset that shows a full last page.
pub open spec fn clamped_offset(off: int, total: int, avail: int) -> int {
    if total <= avail {
        0
    } else if off > total - avail {
        total - avail
    } else {
        off
    }
}

/// The state the loop threads through every frame: the three pages' state
/// machines, the history, and the history scroll position.
pub struct App {
    pub stopwatch: Stopwatch,
    pub timer: Timer,
    pub page: u8,
    pub history: History,
    pub history_offset: usize,
}

impl View for App {
    type V = AppV;

    open spec fn view(&self) -> AppV {
        AppV {
            stopwatch: self.stopwatch,
            timer: self.timer,
            page: self.page,
            history: self.history@,
            history_offset: self.history_offset,
        }
    }
}

impl App {
    pub open spec fn wf(&self) -> bool {
        self@.wf()
    }

    /// A fresh screen: both machines idle, the stopwatch page selected, the
    /// loaded history attached.
    pub fn new(default_minutes: u64, history: History) -> (r: App)
        requires
            1 <= default_minutes <= 999,
            history.wf(),
        ensures
            r.wf(),
            r@.stopwatch == (Stopwatch { running: false, start_ms: 0u64 }),
            r@.timer == (Timer {
                running: false,
                done: false,
                logged: false,
                start_ms: 0u64,
                total_secs: (default_minutes * 60) as u64,
            }),
            r@.page == 0,
            r@.history == history@,
            r@.history_offset == 0,
    {
        App {
            stopwatch: Stopwatch::new(),
            timer: Timer::new(default_minutes),
            page: 0,
            history,
            history_offset: 0,
        }
    }

    /// Dispatch one key event, as `step_spec` says.
    pub fn handle_key(&mut self, key: Key, now_ms: u64, today: &String) -> (eff: Effect)
        requires
            old(self).wf(),
        ensures
            (final(self)@, eff) == step_spec(old(self)@, key, now_ms, today@),
            final(self).wf(),
    {
        match key {
            Key::Right => {
                if !self.timer.running && !self.stopwatch.running {
                    self.page = (self.page + 1) % 3;
                }
                Effect { minutes: 0, quit: false }
            },
            Key::Left => {
                if !self.timer.running && !self.stopwatch.running {
                    self.page = (self.page + 2) % 3;
                }
                Effect { minutes: 0, quit: false }
            },
            Key::Up => {
                if self.page == 1 {
                    self.timer.adjust_up();
                } else if self.page == 2 {
                    if self.history_offset > 0 {
                        self.history_offset = self.history_offset - 1;
                    }
                }
                Effect { minutes: 0, quit: false }
            },
            Key::Down => {
                if self.page == 1 {
                    self.timer.adjust_down();
                } else if self.page == 2 {
                    if self.history_offset < usize::MAX {
                        self.history_offset = self.history_offset + 1;
                    }
                }
                Effect { minutes: 0, quit: false }
            },
            Key::Space => {
                if self.page == 0 {
                    let m = self.stopwatch.toggle(now_ms);
                    if m > 0 {
                        self.history.add_minutes(today, m);
                    }
                    Effect { minutes: m, quit: false }
                } else if self.page == 1 {
                    self.timer.toggle(now_ms);
                    Effect { minutes: 0, quit: false }
                } else {
                    Effect { minutes: 0, quit: false }
                }
            },
            Key::Quit => {
                let m = if self.stopwatch.running {
                    self.stopwatch.minutes_elapsed(now_ms)
                } else {
                    0
                };
                if m > 0 {
                    self.history.add_minutes(today, m);
                }
                Effect { minutes: m, quit: true }
            },
            Key::Other => Effect { minutes: 0, quit: false },
        }
    }

    /// Apply one render tick, as `tick_spec` says; the result is the minutes
    /// the timer just committed.
    pub fn on_tick(&mut self, now_ms: u64, today: &String) -> (m: u64)
        requires
            old(self).wf(),
        ensures
            (final(self)@, m) == tick_spec(old(self)@, now_ms, today@),
            final(self).wf(),
    {
        let m = self.timer.tick(now_ms);
        if m > 0 {
            self.history.add_minutes(today, m);
        }
        m
    }

    /// Clamp the history scroll to the window of `available_rows` rows.
    pub fn clamp_history_offset(&mut self, available_rows: usize)
        ensures
            final(self)@ == (AppV {
                history_offset: clamped_offset(
                    old(self).history_offset as int,
                    old(self)@.history.len() as int,
                    available_rows as int,
                ) as usize,
                ..old(self)@
            }),
    {
        let total = self.history.len();
        if total <= available_rows {
            self.history_offset = 0;
        } else {
            let max_off = total - available_rows;
            if self.history_offset > max_off {
                self.history_offset = max_off;
            }
        }
    }

    /// The minutes recorded for `today`, zero when no entry exists yet.
    pub fn minutes_today(&self, today: &String) -> (m: u64)
        requires
            self.wf(),
        ensures
            m == match spec_get(self@.history, today@) {
                Some(v) => v,
                None => 0u64,
            },
    {
        match self.history.get(today) {
            Some(v) => v,
            None => 0,
        }
    }
}

/// The default timer minutes the configuration yields: the stored value when
/// it lies in range, else the stock default of 25 minutes.
pub fn validated_default_minutes(stored: u64) -> (r: u64)
    ensures
        r == if 1 <= stored <= 999 {
            stored
        } else {
            25u64
        },
        1 <= r <= 999,
{
    if 1 <= stored && stored <= 999 {
        stored
    } else {
        25
    }
}

/// Page navigation is refused while a session runs, and otherwise cycles
/// through the three pages, right forward and left backward.
pub proof fn lemma_page_navigation(v: AppV, now_ms: u64, today: Seq<char>)
    requires
        v.wf(),
    ensures
        session_running(v) ==> step_spec(v, Key::Right, now_ms, today).0 == v,
        session_running(v) ==> step_spec(v, Key::Left, now_ms, today).0 == v,
        !session_running(v) ==> step_spec(v, Key::Right, now_ms, today).0.page == (v.page + 1) % 3,
        !session_running(v) ==> step_spec(v, Key::Left, now_ms, today).0.page == (v.page + 2) % 3,
{
}

/// Quitting while the stopwatch runs commits exactly the whole minutes of the
/// session to today's entry before the loop ends; quitting otherwise commits
/// nothing. Either way the effect asks to leave the loop.
pub proof fn lemma_quit_commits(v: AppV, now_ms: u64, today: Seq<char>)
    requires
        v.wf(),
    ensures
        ({
            let (v2, e) = step_spec(v, Key::Quit, now_ms, today);
            &&& e.quit
            &&& v.stopwatch.running ==> e.minutes == whole_minutes(
                elapsed_ms(v.stopwatch.start_ms, now_ms),
            )
            &&& (v.stopwatch.running && e.minutes > 0) ==> v2.history == spec_add(
                v.history,
                today,
                e.minutes,
            )
            &&& !v.stopwatch.running ==> v2.history == v.history && e.minutes == 0
            &&& e.minutes == 0 ==> v2.history == v.history
        }),
{
}

/// A stopwatch session on the stopwatch page: starting at `now0` and stopping
/// at `now1` commits exactly the whole minutes of the elapsed time; a session
/// under one minute commits nothing and leaves the history untouched.
pub proof fn lemma_stopwatch_session(v: AppV, now0: u64, now1: u64, today: Seq<char>)
    requires
        v.wf(),
        v.page == 0,
        !v.stopwatch.running,
    ensures
        ({
            let (v1, e1) = step_spec(v, Key::Space, now0, today);
            let (v2, e2) = step_spec(v1, Key::Space, now1, today);
            &&& e1.minutes == 0 && v1.history == v.history
            &&& e2.minutes == whole_minutes(elapsed_ms(now0, now1))
            &&& e2.minutes > 0 ==> v2.history == spec_add(v.history, today, e2.minutes)
            &&& elapsed_ms(now0, now1) < 60000 ==> e2.minutes == 0 && v2.history == v.history
            &&& !v2.stopwatch.running
        }),
{
}

/// An expired countdown is committed exactly once, however many render ticks
/// observe it: after a tick that commits, every further tick commits nothing
/// and changes nothing.
pub proof fn lemma_tick_commits_once(v: AppV, now1: u64, now2: u64, today: Seq<char>)
    requires
        v.wf(),
    ensures
        ({
            let (v1, m1) = tick_spec(v, now1, today);
            let (v2, m2) = tick_spec(v1, now2, today);
            m1 > 0 ==> m2 == 0 && v2 == v1
        }),
{
}

} // verus!
