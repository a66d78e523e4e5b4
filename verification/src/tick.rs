//! Monotonic microsecond tick sources.

use vstd::prelude::*;

verus! {

/// A monotonically non-decreasing 64-bit microsecond counter that can be read
/// at any time without blocking.
///
/// `last` is the latest counter value the source has handed out; every future
/// reading is at least that value, which is what the polling loops rely on.
///
/// `lag` bounds how many more readings may come back unchanged while the
/// counter is below `u64::MAX`: every repeated reading strictly shrinks the
/// budget, and a reading that moves the counter forward may refill it. This
/// rules out a counter that stalls forever short of its end, and so lets the
/// polling loops prove that they terminate.
pub trait TickSource {
    /// The latest counter value this source has handed out.
    spec fn last(&self) -> u64;

    /// How many more readings may repeat the current counter value.
    spec fn lag(&self) -> nat;

    /// Read the counter. Successive readings never decrease, and a reading
    /// below the counter's end that does not advance shrinks the lag budget.
    fn tick(&mut self) -> (t: u64)
        ensures
            t >= old(self).last(),
            final(self).last() == t,
            t == old(self).last() && t < u64::MAX ==> final(self).lag() < old(self).lag(),
    ;
}

/// A deterministic, scripted tick source.
///
/// Each reading advances the clock by the next increment of the script and
/// returns the advanced value; once the script is exhausted the clock
/// advances by one microsecond per reading. The counter saturates at
/// `u64::MAX` instead of wrapping, so it is monotone for every script.
pub struct SimTicks {
    now: u64,
    steps: Vec<u64>,
    idx: usize,
    reads: usize,
}

impl SimTicks {
    /// The current counter value.
    pub closed spec fn now_spec(&self) -> u64 {
        self.now
    }

    /// How many readings have been taken so far.
    pub closed spec fn reads_spec(&self) -> usize {
        self.reads
    }

    /// A scripted clock that starts at `start` and advances by the increments
    /// of `steps`, one per reading.
    pub fn new(start: u64, steps: Vec<u64>) -> (s: SimTicks)
        ensures
            s.now_spec() == start,
            s.reads_spec() == 0,
    {
        SimTicks { now: start, steps, idx: 0, reads: 0 }
    }

    /// The current counter value, without taking a reading.
    pub fn reading(&self) -> (t: u64)
        ensures
            t == self.now_spec(),
    {
        self.now
    }

    /// The number of readings taken so far.
    pub fn reads(&self) -> (n: usize)
        ensures
            n == self.reads_spec(),
    {
        self.reads
    }
}

impl TickSource for SimTicks {
    closed spec fn last(&self) -> u64 {
        self.now
    }

    closed spec fn lag(&self) -> nat {
        if self.idx <= self.steps.len() {
            (self.steps.len() - self.idx) as nat
        } else {
            0
        }
    }

    fn tick(&mut self) -> (t: u64) {
        if self.idx < self.steps.len() {
            let d: u64 = self.steps[self.idx];
            if self.now <= u64::MAX - d {
                self.now = self.now + d;
            } else {
                self.now = u64::MAX;
            }
            self.idx = self.idx + 1;
        } else {
            if self.now < u64::MAX {
                self.now = self.now + 1;
            }
        }
        if self.reads < usize::MAX {
            self.reads = self.reads + 1;
        }
        self.now
    }
}

} // verus!
