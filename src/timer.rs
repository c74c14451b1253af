use vstd::prelude::*;

verus! {

/// Longest duration, in milliseconds, that a timer may be set to.
pub const MAX_DURATION_MS: u64 = 0x1_0000_0000;

/// Longest elapsed time, in milliseconds, that a single tick may carry.
pub const MAX_DELTA_MS: u64 = 0x1_0000_0000;

/// Whether a timer stops at its duration or starts over.
#[derive(Clone, Copy, Debug, PartialEq, Eq, Structural)]
pub enum TimerMode {
    Once,
    Repeating,
}

/// A countdown driven by elapsed time, in milliseconds.
///
/// A `Once` timer stops at its duration and stays finished; a `Repeating`
/// timer wraps around, counting how many times it completed during the
/// latest tick.
#[derive(Clone, Copy, Debug, PartialEq, Eq, Structural)]
pub struct Timer {
    pub duration: u64,
    pub elapsed: u64,
    pub mode: TimerMode,
    pub finished: bool,
    pub times_finished_this_tick: u64,
}

impl Timer {
    pub open spec fn wf(self) -> bool {
        &&& 0 < self.duration <= MAX_DURATION_MS
        &&& self.elapsed <= self.duration
        &&& self.mode == TimerMode::Repeating ==> self.elapsed < self.duration
        &&& self.mode == TimerMode::Once ==> (self.finished <==> self.elapsed == self.duration)
    }

    /// A fresh timer of the given duration and mode.
    pub open spec fn fresh(duration: u64, mode: TimerMode) -> Timer {
        Timer { duration, elapsed: 0, mode, finished: false, times_finished_this_tick: 0 }
    }

    /// The state of the timer after `delta` more milliseconds have passed.
    pub open spec fn tick_spec(self, delta: u64) -> Timer {
        let total = self.elapsed + delta;
        match self.mode {
            TimerMode::Once => if self.finished {
                Timer { times_finished_this_tick: 0, ..self }
            } else if total >= self.duration {
                Timer {
                    elapsed: self.duration,
                    finished: true,
                    times_finished_this_tick: 1,
                    ..self
                }
            } else {
                Timer { elapsed: total as u64, finished: false, times_finished_this_tick: 0, ..self }
            },
            TimerMode::Repeating => Timer {
                elapsed: (total % (self.duration as int)) as u64,
                finished: total >= self.duration,
                times_finished_this_tick: (total / (self.duration as int)) as u64,
                ..self
            },
        }
    }

    /// The timer completed at least once during its latest tick.
    pub open spec fn just_finished_spec(self) -> bool {
        self.times_finished_this_tick > 0
    }

    pub fn new(duration: u64, mode: TimerMode) -> (r: Timer)
        requires
            0 < duration <= MAX_DURATION_MS,
        ensures
            r == Timer::fresh(duration, mode),
            r.wf(),
    {
        Timer { duration, elapsed: 0, mode, finished: false, times_finished_this_tick: 0 }
    }

    /// Advances the timer by `delta` milliseconds.
    pub fn tick(&mut self, delta: u64)
        requires
            old(self).wf(),
            delta <= MAX_DELTA_MS,
        ensures
            *final(self) == old(self).tick_spec(delta),
            final(self).wf(),
    {
        let total: u64 = self.elapsed + delta;
        match self.mode {
            TimerMode::Once => {
                if self.finished {
                    self.times_finished_this_tick = 0;
                } else if total >= self.duration {
                    self.elapsed = self.duration;
                    self.finished = true;
                    self.times_finished_this_tick = 1;
                } else {
                    self.elapsed = total;
                    self.finished = false;
                    self.times_finished_this_tick = 0;
                }
            },
            TimerMode::Repeating => {
                let d = self.duration;
                proof {
                    assert((total as int) / (d as int) <= total as int) by (nonlinear_arith)
                        requires d > 0, total >= 0;
                }
                self.elapsed = total % d;
                self.finished = total >= d;
                self.times_finished_this_tick = total / d;
            },
        }
    }

    pub fn just_finished(&self) -> (r: bool)
        ensures
            r == self.just_finished_spec(),
    {
        self.times_finished_this_tick > 0
    }

    pub fn is_finished(&self) -> (r: bool)
        ensures
            r == self.finished,
    {
        self.finished
    }

    /// Starts the timer over from zero.
    pub fn reset(&mut self)
        requires
            old(self).wf(),
        ensures
            *final(self) == Timer::fresh(old(self).duration, old(self).mode),
            final(self).wf(),
    {
        self.elapsed = 0;
        self.finished = false;
        self.times_finished_this_tick = 0;
    }
}

} // verus!
