use vstd::prelude::*;

verus! {

/// Length of the splash countdown, in nanoseconds (one second).
pub const SPLASH_NANOS: u64 = 1_000_000_000;

/// A one-shot countdown measured in nanoseconds.
///
/// The elapsed time saturates at the duration: once finished, the timer stays
/// finished and further ticks change nothing.
#[derive(Clone, Copy, Debug, PartialEq, Eq, Structural)]
pub struct SplashTimer {
    pub duration: u64,
    pub elapsed: u64,
}

impl SplashTimer {
    pub open spec fn wf(self) -> bool {
        self.elapsed <= self.duration
    }

    pub open spec fn is_finished(self) -> bool {
        self.elapsed >= self.duration
    }

    /// The timer after `delta` more nanoseconds have passed.
    pub open spec fn after_tick(self, delta: u64) -> SplashTimer {
        SplashTimer {
            duration: self.duration,
            elapsed: if self.elapsed + delta >= self.duration {
                self.duration
            } else {
                (self.elapsed + delta) as u64
            },
        }
    }

    /// A fresh timer that finishes after `duration` nanoseconds.
    pub fn new(duration: u64) -> (r: SplashTimer)
        ensures
            r.duration == duration,
            r.elapsed == 0,
            r.wf(),
    {
        SplashTimer { duration, elapsed: 0 }
    }

    /// Advances the timer by `delta` nanoseconds.
    pub fn tick(&mut self, delta: u64)
        requires
            old(self).wf(),
        ensures
            *final(self) == old(self).after_tick(delta),
            final(self).wf(),
    {
        if delta >= self.duration - self.elapsed {
            self.elapsed = self.duration;
        } else {
            self.elapsed = self.elapsed + delta;
        }
    }

    /// Whether the countdown has run out.
    pub fn finished(&self) -> (r: bool)
        ensures
            r == self.is_finished(),
    {
        self.elapsed >= self.duration
    }
}

} // verus!
