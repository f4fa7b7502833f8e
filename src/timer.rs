use vstd::prelude::*;

verus! {

/// Spawn interval at the start of a run and while the score is at most 60, in microseconds.
pub const BASE_INTERVAL_US: u64 = 500_000;

/// A repeating interval timer in whole microseconds: time accumulates, and
/// each time it reaches the interval the timer fires and keeps the remainder.
#[derive(Clone, Copy, Debug, PartialEq, Eq, Structural)]
pub struct SpawnTimer {
    pub interval_us: u64,
    pub elapsed_us: u64,
}

/// Whether a tick of `delta` fires a timer at `elapsed` of `interval`.
pub open spec fn fires(elapsed: int, interval: int, delta: int) -> bool {
    elapsed + delta >= interval
}

/// The accumulated time after a tick of `delta`.
pub open spec fn elapsed_after(elapsed: int, interval: int, delta: int) -> int {
    (elapsed + delta) % interval
}

/// The spawn interval, in microseconds, for a given score: the tightest
/// bracket that the score lies above.
pub open spec fn interval_for(score: int) -> int {
    if score > 250 {
        100_000
    } else if score > 150 {
        200_000
    } else if score > 60 {
        300_000
    } else {
        500_000
    }
}

impl SpawnTimer {
    pub open spec fn wf(&self) -> bool {
        self.interval_us > 0
    }

    /// A timer with the base interval and nothing accumulated.
    pub fn new() -> (r: SpawnTimer)
        ensures
            r.interval_us == BASE_INTERVAL_US,
            r.elapsed_us == 0,
            r.wf(),
    {
        SpawnTimer { interval_us: BASE_INTERVAL_US, elapsed_us: 0 }
    }

    /// Advances the timer by `delta_us`; returns whether it fired. It fires at
    /// most once per tick, however large the delta.
    pub fn tick(&mut self, delta_us: u64) -> (fired: bool)
        requires
            old(self).wf(),
        ensures
            final(self).wf(),
            final(self).interval_us == old(self).interval_us,
            fired == fires(old(self).elapsed_us as int, old(self).interval_us as int, delta_us as int),
            final(self).elapsed_us as int == elapsed_after(
                old(self).elapsed_us as int,
                old(self).interval_us as int,
                delta_us as int,
            ),
    {
        let total: u128 = self.elapsed_us as u128 + delta_us as u128;
        let interval: u128 = self.interval_us as u128;
        let rest: u128 = total % interval;
        self.elapsed_us = rest as u64;
        total >= interval
    }

    /// Sets the interval, keeping the time accumulated so far.
    pub fn set_interval(&mut self, interval_us: u64)
        requires
            interval_us > 0,
        ensures
            final(self).wf(),
            final(self).interval_us == interval_us,
            final(self).elapsed_us == old(self).elapsed_us,
    {
        self.interval_us = interval_us;
    }
}

/// Maps a score to the spawn interval, in microseconds: 0.5 s up to a score of
/// 60, 0.3 s above 60, 0.2 s above 150, 0.1 s above 250.
pub fn spawn_interval_for(score: u32) -> (r: u64)
    ensures
        r as int == interval_for(score as int),
        r > 0,
{
    if score > 250 {
        100_000
    } else if score > 150 {
        200_000
    } else if score > 60 {
        300_000
    } else {
        BASE_INTERVAL_US
    }
}

/// The interval never grows as the score rises.
pub proof fn lemma_interval_non_increasing(a: int, b: int)
    requires
        a <= b,
    ensures
        interval_for(b) <= interval_for(a),
{
}

} // verus!
