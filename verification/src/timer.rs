//! Accumulate-and-compare timers: the only form of waiting in the
//! simulation.  A timer adds each frame's elapsed microseconds to a counter;
//! `just_finished` is the edge-triggered query (the duration was crossed this
//! tick), `finished` the level-triggered one.  A repeating timer wraps its
//! counter and fires again each period.

use vstd::prelude::*;

use crate::constants::{DELTA_LIMIT, DURATION_LIMIT};

verus! {

#[derive(Clone, Copy, Debug, PartialEq, Eq, Structural)]
pub enum TimerMode {
    Once,
    Repeating,
}

#[derive(Clone, Copy, Debug, PartialEq, Eq, Structural)]
pub struct Timer {
    pub elapsed_us: u64,
    pub duration_us: u64,
    pub mode: TimerMode,
    pub fired: bool,
}

/// The timer `t` advanced by `dt` microseconds.
pub open spec fn ticked(t: Timer, dt: int) -> Timer {
    let total = t.elapsed_us + dt;
    if total < t.duration_us {
        Timer { elapsed_us: (t.elapsed_us + dt) as u64, fired: false, ..t }
    } else if t.mode is Repeating {
        Timer { elapsed_us: (total % (t.duration_us as int)) as u64, fired: true, ..t }
    } else {
        Timer {
            elapsed_us: t.duration_us,
            fired: t.elapsed_us < t.duration_us,
            ..t
        }
    }
}

impl Timer {
    /// A timer is well formed when its duration is positive and bounded and
    /// its counter has not escaped the duration.
    pub open spec fn wf(self) -> bool {
        &&& 0 < self.duration_us <= DURATION_LIMIT
        &&& self.elapsed_us <= self.duration_us
        &&& self.mode is Repeating ==> self.elapsed_us < self.duration_us
    }

    pub fn new(duration_us: u64, mode: TimerMode) -> (t: Timer)
        requires
            0 < duration_us <= DURATION_LIMIT,
        ensures
            t == (Timer { elapsed_us: 0, duration_us, mode, fired: false }),
            t.wf(),
    {
        Timer { elapsed_us: 0, duration_us, mode, fired: false }
    }

    /// Advance the timer by `dt` microseconds.
    pub fn tick(&mut self, dt: u64)
        requires
            old(self).wf(),
            dt <= DELTA_LIMIT,
        ensures
            *final(self) == ticked(*old(self), dt as int),
            final(self).wf(),
    {
        let total = self.elapsed_us + dt;
        if total < self.duration_us {
            self.elapsed_us = total;
            self.fired = false;
        } else {
            match self.mode {
                TimerMode::Repeating => {
                    self.elapsed_us = total % self.duration_us;
                    self.fired = true;
                }
                TimerMode::Once => {
                    self.fired = self.elapsed_us < self.duration_us;
                    self.elapsed_us = self.duration_us;
                }
            }
        }
    }

    /// Edge-triggered query: did the duration get crossed on the last tick?
    pub fn just_finished(&self) -> (r: bool)
        ensures
            r == self.fired,
    {
        self.fired
    }

    /// Level-triggered query: a once timer stays finished; a repeating timer
    /// reports only the tick it wrapped on.
    pub open spec fn spec_finished(self) -> bool {
        match self.mode {
            TimerMode::Once => self.elapsed_us >= self.duration_us,
            TimerMode::Repeating => self.fired,
        }
    }

    pub fn finished(&self) -> (r: bool)
        ensures
            r == self.spec_finished(),
    {
        match self.mode {
            TimerMode::Once => self.elapsed_us >= self.duration_us,
            TimerMode::Repeating => self.fired,
        }
    }
}

} // verus!
