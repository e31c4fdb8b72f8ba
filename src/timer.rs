//! A once-mode countdown timer measured in microseconds.
use vstd::prelude::*;

verus! {

/// Accumulates elapsed time up to a fixed duration and stays finished until
/// it is reset. Elapsed time never exceeds the duration.
#[derive(Clone, Copy, Debug, PartialEq, Eq)]
pub struct Timer {
    /// Fixed length of the countdown, in microseconds.
    pub duration: u64,
    /// Accumulated time, in microseconds.
    pub elapsed: u64,
    /// Whether the last tick took the timer from unfinished to finished.
    pub crossed: bool,
}

impl Timer {
    pub open spec fn wf(&self) -> bool {
        self.elapsed <= self.duration
    }

    pub open spec fn is_finished(&self) -> bool {
        self.elapsed >= self.duration
    }

    /// The timer after `delta` more microseconds: the elapsed time grows up to
    /// the duration, and the latch records whether this tick crossed it.
    pub open spec fn ticked(self, delta: u64) -> Timer {
        let sum: int = self.elapsed + delta;
        let elapsed: int = if sum < self.duration {
            sum
        } else {
            self.duration as int
        };
        Timer {
            duration: self.duration,
            elapsed: elapsed as u64,
            crossed: !self.is_finished() && elapsed >= self.duration,
        }
    }

    /// The fresh timer of the given duration: nothing elapsed.
    pub open spec fn new_spec(duration: u64) -> Timer {
        Timer { duration, elapsed: 0, crossed: false }
    }

    /// The same countdown started over: nothing elapsed, latch cleared.
    pub open spec fn restarted(self) -> Timer {
        Timer::new_spec(self.duration)
    }

    /// The same countdown armed as already finished.
    pub open spec fn armed(self) -> Timer {
        Timer { duration: self.duration, elapsed: self.duration, crossed: self.crossed }
    }

    /// A fresh timer of the given duration, with nothing elapsed.
    pub fn new(duration: u64) -> (r: Timer)
        ensures
            r.wf(),
            r == Timer::new_spec(duration),
    {
        Timer { duration, elapsed: 0, crossed: false }
    }

    /// True once the accumulated time has reached the duration.
    pub fn finished(&self) -> (r: bool)
        ensures
            r == self.is_finished(),
    {
        self.elapsed >= self.duration
    }

    /// True only when the last tick crossed the duration.
    pub fn just_finished(&self) -> (r: bool)
        ensures
            r == self.crossed,
    {
        self.crossed
    }

    /// Advances the timer by `delta` microseconds.
    pub fn tick(&mut self, delta: u64)
        requires
            old(self).wf(),
        ensures
            final(self).wf(),
            *final(self) == old(self).ticked(delta),
    {
        let was_finished = self.elapsed >= self.duration;
        let room: u64 = self.duration - self.elapsed;
        if delta < room {
            self.elapsed = self.elapsed + delta;
        } else {
            self.elapsed = self.duration;
        }
        self.crossed = !was_finished && self.elapsed >= self.duration;
    }

    /// Starts the countdown over: nothing elapsed and the latch cleared.
    pub fn reset(&mut self)
        ensures
            final(self).wf(),
            *final(self) == old(self).restarted(),
    {
        self.elapsed = 0;
        self.crossed = false;
    }

    /// Forces the accumulated time to `time`, held to at most the duration.
    /// Setting it to the duration arms the timer as already finished.
    pub fn set_elapsed(&mut self, time: u64)
        ensures
            final(self).wf(),
            final(self).duration == old(self).duration,
            final(self).elapsed == if time < old(self).duration { time } else { old(self).duration },
            final(self).crossed == old(self).crossed,
            final(self).is_finished() == (time >= old(self).duration),
    {
        if time < self.duration {
            self.elapsed = time;
        } else {
            self.elapsed = self.duration;
        }
    }
}

} // verus!
