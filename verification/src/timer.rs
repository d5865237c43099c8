//! The timer of one stage.
//!
//! Time is counted in whole units of the caller's choice. A timer plays a
//! pass of `duration` units again and again until the time it has consumed
//! reaches its budget. Progress within the pass is the fraction
//! `elapsed / duration`; it is kept as the pair, so no time is lost to
//! rounding. A timer of zero duration is a mere marker: it has no progress,
//! and where it plays at most once its first advance finishes it.

use vstd::prelude::*;
use vstd::arithmetic::div_mod::{
    lemma_div_by_multiple,
    lemma_div_is_ordered_by_denominator,
    lemma_mod_bound,
};
use crate::ratio::Ratio;

verus! {

/// How often a stage plays before it is finished.
#[derive(Clone, Copy, Debug, PartialEq, Eq, Structural)]
pub enum Repeat {
    /// A number of passes.
    Finite(u32),
    /// Without end.
    Infinite,
    /// For a span of time: as many passes, whole and partial, as fit in it.
    Duration(u64),
}

impl Default for Repeat {
    fn default() -> (r: Repeat)
        ensures
            r == Repeat::Finite(1),
    {
        Repeat::Finite(1)
    }
}

/// `x`, or the largest 64-bit count where `x` is larger.
pub open spec fn capped(x: int) -> u64 {
    if x > u64::MAX {
        u64::MAX
    } else {
        x as u64
    }
}

/// What a timer is: the length of one pass, the time into the current pass,
/// the passes completed, the budget and the finished flag.
pub struct TimerView {
    pub duration: u64,
    pub elapsed: u64,
    pub times: u64,
    pub repeat: Repeat,
    pub finished: bool,
}

impl TimerView {
    /// The time the stage may consume in all, where that is limited.
    pub open spec fn budget(self) -> Option<int> {
        match self.repeat {
            Repeat::Finite(n) => Some(n * self.duration),
            Repeat::Infinite => None,
            Repeat::Duration(d) => Some(d as int),
        }
    }

    /// The time consumed so far: the completed passes and the current one.
    pub open spec fn consumed(self) -> int {
        self.times * self.duration + self.elapsed
    }

    /// Whether the time consumed has reached the budget.
    pub open spec fn exhausted(self) -> bool {
        self.budget() matches Some(b) && self.consumed() >= b
    }

    /// Progress within the current pass as a fraction. A timer of zero
    /// duration has progress zero.
    pub open spec fn progress(self) -> Ratio {
        Ratio { negative: false, num: self.elapsed, den: self.duration }
    }

    /// Whether progress lies in the half-open interval from zero to one.
    pub open spec fn in_pass(self) -> bool {
        self.progress().in_unit_interval()
    }

    /// The timer at the start of its first pass.
    pub open spec fn reset(self) -> TimerView {
        TimerView { elapsed: 0, times: 0, finished: false, ..self }
    }

    /// The timer after `dt` more units with the end of one pass taken: a
    /// pass that is over is counted and its length taken off the elapsed
    /// time, once. The elapsed time and the count of passes stop at the
    /// largest 64-bit count rather than pass it.
    pub open spec fn wrapped(self, dt: u64) -> TimerView {
        let sum = capped(self.elapsed + dt);
        if sum >= self.duration {
            TimerView {
                elapsed: (sum - self.duration) as u64,
                times: capped(self.times + 1),
                ..self
            }
        } else {
            TimerView { elapsed: sum, ..self }
        }
    }

    /// The resting state of a timer whose budget `b` is used up: the whole
    /// passes that fit in the budget, and the part of a pass that is left,
    /// or a full pass where none is left.
    pub open spec fn settled(self, b: int) -> TimerView {
        let d = self.duration as int;
        TimerView {
            times: (b / d) as u64,
            elapsed: if b % d == 0 {
                self.duration
            } else {
                (b % d) as u64
            },
            finished: true,
            ..self
        }
    }

    /// Whether at most one pass is left to play. This is what finishes a
    /// timer of zero duration, whose passes take no time and are not
    /// counted: a budget of at most one pass more than those completed, or
    /// a span of no time.
    pub open spec fn on_last_pass(self) -> bool {
        match self.repeat {
            Repeat::Finite(n) => self.times + 1 >= n,
            Repeat::Infinite => false,
            Repeat::Duration(d) => d == 0,
        }
    }

    /// The timer after `dt` more units.
    ///
    /// A timer of zero duration keeps its progress and its count of passes,
    /// whatever `dt` is, and is finished if at most one pass is left to
    /// play. Otherwise the time is added, the end of a pass is taken once,
    /// and a timer that has used up its budget comes to rest and is
    /// finished.
    pub open spec fn advance(self, dt: u64) -> TimerView {
        if self.duration == 0 {
            TimerView { finished: self.finished || self.on_last_pass(), ..self }
        } else {
            let w = self.wrapped(dt);
            if w.exhausted() {
                self.settled(self.budget().unwrap())
            } else {
                w
            }
        }
    }
}

/// The timer of one stage.
#[derive(Clone, Copy, Debug)]
pub struct AniTimer {
    duration: u64,
    elapsed: u64,
    times: u64,
    repeat: Repeat,
    finish: bool,
}

impl View for AniTimer {
    type V = TimerView;

    closed spec fn view(&self) -> TimerView {
        TimerView {
            duration: self.duration,
            elapsed: self.elapsed,
            times: self.times,
            repeat: self.repeat,
            finished: self.finish,
        }
    }
}

impl Default for AniTimer {
    /// A timer of zero duration that plays once.
    fn default() -> (t: AniTimer)
        ensures
            t@ == (TimerView {
                duration: 0,
                elapsed: 0,
                times: 0,
                repeat: Repeat::Finite(1),
                finished: false,
            }),
    {
        AniTimer { duration: 0, elapsed: 0, times: 0, repeat: Repeat::Finite(1), finish: false }
    }
}

impl AniTimer {
    /// Puts the timer back to the start of its first pass.
    pub fn reset(&mut self)
        ensures
            final(self)@ == old(self)@.reset(),
    {
        self.elapsed = 0;
        self.times = 0;
        self.finish = false;
    }

    /// The budget as a count of time units, where it is limited.
    fn budget(&self) -> (b: Option<u128>)
        ensures
            match b {
                Some(v) => self@.budget() == Some(v as int),
                None => self@.budget() is None,
            },
    {
        match self.repeat {
            Repeat::Finite(n) => {
                assert(n * self.duration <= 0xffff_ffff * 0xffff_ffff_ffff_ffff)
                    by (nonlinear_arith)
                    requires
                        n <= 0xffff_ffff,
                        self.duration <= 0xffff_ffff_ffff_ffff,
                ;
                Some(n as u128 * self.duration as u128)
            },
            Repeat::Infinite => None,
            Repeat::Duration(d) => Some(d as u128),
        }
    }

    /// Lets `delta` units of time pass.
    pub fn tick(&mut self, delta: u64)
        ensures
            final(self)@ == old(self)@.advance(delta),
    {
        if self.duration == 0 {
            let last: bool = match self.repeat {
                Repeat::Finite(n) => self.times as u128 + 1 >= n as u128,
                Repeat::Infinite => false,
                Repeat::Duration(d) => d == 0,
            };
            if last {
                self.finish = true;
            }
            return;
        }
        let budget = self.budget();
        let sum: u64 = self.elapsed.saturating_add(delta);
        if sum >= self.duration {
            self.elapsed = sum - self.duration;
            self.times = self.times.saturating_add(1);
        } else {
            self.elapsed = sum;
        }
        assert(self@ == old(self)@.wrapped(delta));
        if let Some(b) = budget {
            assert(self.times * self.duration <= 0xffff_ffff_ffff_ffff * 0xffff_ffff_ffff_ffff)
                by (nonlinear_arith)
                requires
                    self.times <= 0xffff_ffff_ffff_ffff,
                    self.duration <= 0xffff_ffff_ffff_ffff,
            ;
            let consumed: u128 = self.times as u128 * self.duration as u128 + self.elapsed as u128;
            if consumed >= b {
                let pass: u128 = self.duration as u128;
                proof {
                    let d = self.duration as int;
                    lemma_mod_bound(b as int, d);
                    match self.repeat {
                        Repeat::Finite(n) => {
                            lemma_div_by_multiple(n as int, d);
                        },
                        _ => {
                            lemma_div_is_ordered_by_denominator(b as int, 1, d);
                        },
                    }
                }
                let whole: u128 = b / pass;
                let left: u128 = b % pass;
                self.times = whole as u64;
                self.elapsed = if left == 0 {
                    self.duration
                } else {
                    left as u64
                };
                self.finish = true;
            }
        }
    }

    /// Whether the timer has used up its budget and come to rest.
    pub fn is_finish(&self) -> (r: bool)
        ensures
            r == self@.finished,
    {
        self.finish
    }

    /// The length of one pass.
    pub fn get_duration(&self) -> (r: u64)
        ensures
            r == self@.duration,
    {
        self.duration
    }

    /// The passes completed so far.
    pub fn get_times(&self) -> (r: u64)
        ensures
            r == self@.times,
    {
        self.times
    }

    /// How often the stage plays.
    pub fn get_repeat(&self) -> (r: Repeat)
        ensures
            r == self@.repeat,
    {
        self.repeat
    }

    /// Sets the length of one pass. Zero makes the stage take no time.
    pub fn set_duration(&mut self, duration: u64)
        ensures
            final(self)@ == (TimerView { duration, ..old(self)@ }),
    {
        self.duration = duration;
    }

    /// Progress within the current pass.
    pub fn progress(&self) -> (r: Ratio)
        ensures
            r == self@.progress(),
    {
        Ratio { negative: false, num: self.elapsed, den: self.duration }
    }

    /// Sets how often the stage plays.
    pub fn set_repeat(&mut self, repeat: Repeat)
        ensures
            final(self)@ == (TimerView { repeat, ..old(self)@ }),
    {
        self.repeat = repeat;
    }
}

} // verus!
