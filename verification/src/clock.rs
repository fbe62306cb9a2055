//! The server's tick counter and tick timing.
use vstd::prelude::*;
use std::time::Duration;

verus! {

/// Ticks the server aims to run each second.
pub const TICKS_PER_SECOND: u32 = 20;

/// Length of one tick, in milliseconds: `1000 / TICKS_PER_SECOND`.
pub const TICK_MILLIS: u64 = 50;

/// Names what `Duration::from_millis` gives for a number of milliseconds.
pub uninterp spec fn duration_of_millis(ms: u64) -> Duration;

/// Calls `Duration::from_millis`; the result is named, not described.
#[verifier::external_body]
fn duration_from_millis(ms: u64) -> (d: Duration)
    ensures
        d == duration_of_millis(ms),
{
    Duration::from_millis(ms)
}

/// How long one tick is meant to take.
#[must_use]
pub fn tick_duration() -> (r: Duration)
    ensures
        r == duration_of_millis(TICK_MILLIS),
{
    let millis: u64 = 1000 / (TICKS_PER_SECOND as u64);
    assert(millis == 50u64) by (nonlinear_arith)
        requires
            millis == 1000u64 / (TICKS_PER_SECOND as u64),
            TICKS_PER_SECOND == 20,
    ;
    duration_from_millis(millis)
}

/// Counts ticks and remembers how long the last one took.
#[derive(Debug)]
pub struct Clock {
    tick: u64,
    target: Duration,
    last_duration: Duration,
}

impl Clock {
    /// The next tick to run.
    pub closed spec fn spec_tick(&self) -> u64 {
        self.tick
    }

    pub closed spec fn spec_target(&self) -> Duration {
        self.target
    }

    pub closed spec fn spec_last_duration(&self) -> Duration {
        self.last_duration
    }

    /// Tick 0, the standard tick length, no tick measured yet.
    #[must_use]
    pub fn new() -> (r: Self)
        ensures
            r.spec_tick() == 0,
            r.spec_target() == duration_of_millis(TICK_MILLIS),
            r.spec_last_duration() == duration_of_millis(0),
    {
        Clock { tick: 0, target: tick_duration(), last_duration: duration_from_millis(0) }
    }

    #[must_use]
    pub fn current(&self) -> (r: u64)
        ensures
            r == self.spec_tick(),
    {
        self.tick
    }

    #[must_use]
    pub fn target(&self) -> (r: Duration)
        ensures
            r == self.spec_target(),
    {
        self.target
    }

    #[must_use]
    pub fn last_duration(&self) -> (r: Duration)
        ensures
            r == self.spec_last_duration(),
    {
        self.last_duration
    }

    /// Moves to the next tick and returns the one that was current.
    pub fn advance(&mut self) -> (r: u64)
        requires
            old(self).spec_tick() < u64::MAX,
        ensures
            r == old(self).spec_tick(),
            final(self).spec_tick() == old(self).spec_tick() + 1,
            final(self).spec_target() == old(self).spec_target(),
            final(self).spec_last_duration() == old(self).spec_last_duration(),
    {
        let tick = self.tick;
        self.tick = self.tick + 1;
        tick
    }

    /// Remembers how long the last tick took.
    pub fn record(&mut self, duration: Duration)
        ensures
            final(self).spec_last_duration() == duration,
            final(self).spec_tick() == old(self).spec_tick(),
            final(self).spec_target() == old(self).spec_target(),
    {
        self.last_duration = duration;
    }
}

impl Default for Clock {
    fn default() -> (r: Self)
        ensures
            r.spec_tick() == 0,
            r.spec_target() == duration_of_millis(TICK_MILLIS),
            r.spec_last_duration() == duration_of_millis(0),
    {
        Clock::new()
    }
}

} // verus!
