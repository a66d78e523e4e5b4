//! The wait/gate engine: spin-wait delays and constant-period gating.

use crate::tick::TickSource;
use vstd::prelude::*;

verus! {

/// What a completed spin-wait guarantees: the tick source has advanced by at
/// least `us` microseconds beyond whatever it showed before the call.
pub open spec fn wait_elapsed(pre_last: u64, post_last: u64, us: u64) -> bool {
    post_last >= pre_last + us
}

/// How much of the target duration is still outstanding when the counter
/// shows `cur`, having started from `base`. Drives termination of the
/// polling loops.
pub open spec fn outstanding(target: u64, base: u64, cur: u64) -> int {
    if cur - base >= target {
        0
    } else {
        target - (cur - base)
    }
}

/// What one gate call with period `us` guarantees, relating the engine state
/// before (`pre`) and after (`post`) the call to its result `r`:
///
/// - a gating cycle is active afterwards, and the observed tick never moves
///   backwards;
/// - on the first call of a cycle (`!pre.is_gating()`) the call succeeds at
///   once and anchors at the tick it read;
/// - a later successful call advances the anchor by exactly `us`, so cadence
///   never drifts, and returns no earlier than one period past the old
///   anchor — unless the counter has reached its end (`u64::MAX`, treated as
///   unreachable in practice), where the wait gives up and anchors there;
/// - an overrun report means the call found strictly more than `us`
///   microseconds already elapsed since the old anchor; it carries the
///   excess, re-anchors at the tick it read, and waits no further;
/// - an overrun is owed whenever more than `us` microseconds past the old
///   anchor had already been observed before the call.
pub open spec fn gate_post<T: TickSource>(
    pre: Wait<T>,
    post: Wait<T>,
    us: u64,
    r: Result<(), u64>,
) -> bool {
    &&& post.wf()
    &&& post.is_gating()
    &&& post.last() >= pre.last()
    &&& (!pre.is_gating() ==> r is Ok && post.anchor() == post.last() && post.anchor()
        >= pre.last())
    &&& (pre.is_gating() && r is Ok ==> (post.anchor() == pre.anchor() + us && post.last()
        >= pre.anchor() + us) || (post.anchor() == u64::MAX && post.last() == u64::MAX))
    &&& (r matches Err(excess) ==> pre.is_gating() && post.anchor() == post.last()
        && post.anchor() > pre.anchor() + us && excess == post.anchor() - pre.anchor() - us)
    &&& (pre.is_gating() && pre.last() > pre.anchor() + us ==> r is Err)
}

/// Along a chain of gate calls, the observed tick never moves backwards.
proof fn lemma_last_monotone<T: TickSource>(
    states: Seq<Wait<T>>,
    results: Seq<Result<(), u64>>,
    us: u64,
    i: int,
    j: int,
)
    requires
        results.len() == states.len() - 1,
        forall|n: int|
            0 <= n < results.len() ==> gate_post(states[n], states[n + 1], us, #[trigger] results[n]),
        0 <= i <= j < states.len(),
    ensures
        states[j].last() >= states[i].last(),
    decreases j - i,
{
    if i < j {
        lemma_last_monotone(states, results, us, i, j - 1);
        let r = results[j - 1];
        assert(gate_post(states[j - 1], states[j], us, r));
    }
}

/// Cadence does not drift: across a run of successful gate calls with period
/// `us` on an engine whose cycle has already started, the anchor of the k-th
/// state lies exactly k periods past the first anchor, as long as the counter
/// stays short of its end.
pub proof fn lemma_gate_cadence<T: TickSource>(
    states: Seq<Wait<T>>,
    results: Seq<Result<(), u64>>,
    us: u64,
    k: int,
)
    requires
        results.len() == states.len() - 1,
        states.len() >= 1,
        states[0].is_gating(),
        forall|n: int|
            0 <= n < results.len() ==> gate_post(states[n], states[n + 1], us, #[trigger] results[n]),
        forall|n: int| 0 <= n < results.len() ==> #[trigger] results[n] is Ok,
        states[states.len() - 1].last() < u64::MAX,
        0 <= k < states.len(),
    ensures
        states[k].is_gating(),
        states[k].anchor() == states[0].anchor() + k * us,
    decreases k,
{
    if k > 0 {
        lemma_gate_cadence(states, results, us, k - 1);
        assert(gate_post(states[k - 1], states[k], us, results[k - 1]));
        assert(results[k - 1] is Ok);
        lemma_last_monotone(states, results, us, k, states.len() - 1);
        assert(states[k].last() < u64::MAX);
        assert(states[k].anchor() == states[k - 1].anchor() + us);
        assert((k - 1) * us + us == k * us) by (nonlinear_arith);
    }
}

/// Equality tie-break: a gate call that returns at the very tick at which
/// its period elapsed reports success, waits no further, and anchors exactly
/// one period past the old anchor.
pub proof fn lemma_gate_tie_break<T: TickSource>(
    pre: Wait<T>,
    post: Wait<T>,
    us: u64,
    r: Result<(), u64>,
)
    requires
        pre.is_gating(),
        gate_post(pre, post, us, r),
        post.last() == pre.anchor() + us,
    ensures
        r is Ok,
        post.anchor() == pre.anchor() + us,
        post.anchor() == post.last(),
{
}

/// Timing engine over a monotonic microsecond tick source.
///
/// `wait`-family methods block until a duration has elapsed and leave the
/// gating state alone; `gate`-family methods enforce a constant period
/// between successive calls, anchored at `gate_start`.
pub struct Wait<T: TickSource> {
    timer: T,
    gating: bool,
    gate_start: u64,
}

impl<T: TickSource> Wait<T> {
    /// The tick source this engine polls.
    pub closed spec fn source(&self) -> T {
        self.timer
    }

    /// The latest tick value observed through this engine.
    pub closed spec fn last(&self) -> u64 {
        self.timer.last()
    }

    /// Whether a gating cycle has been started.
    pub closed spec fn is_gating(&self) -> bool {
        self.gating
    }

    /// The tick at which the current gating period began. Meaningful only
    /// while `is_gating()` holds; a fresh engine carries 0.
    pub closed spec fn anchor(&self) -> u64 {
        self.gate_start
    }

    /// The anchor never lies ahead of the latest observed tick.
    pub closed spec fn wf(&self) -> bool {
        self.gate_start <= self.timer.last()
    }

    /// Bind a new engine to `timer`. No gating cycle is active yet.
    pub fn new(timer: T) -> (w: Wait<T>)
        ensures
            w.wf(),
            !w.is_gating(),
            w.anchor() == 0,
            w.source() == timer,
    {
        Wait { timer, gating: false, gate_start: 0 }
    }

    /// Read the current tick value of the underlying source.
    pub fn time(&mut self) -> (t: u64)
        requires
            old(self).wf(),
        ensures
            final(self).wf(),
            t == final(self).last(),
            t >= old(self).last(),
            final(self).is_gating() == old(self).is_gating(),
            final(self).anchor() == old(self).anchor(),
    {
        self.timer.tick()
    }

    /// Whether a gating cycle has been started.
    pub fn gating(&self) -> (b: bool)
        ensures
            b == self.is_gating(),
    {
        self.gating
    }

    /// The anchor of the current gating period (0 on a fresh engine).
    pub fn gate_anchor(&self) -> (a: u64)
        ensures
            a == self.anchor(),
    {
        self.gate_start
    }

    /// Recover the tick source when the engine is no longer needed.
    pub fn into_source(self) -> (t: T)
        ensures
            t == self.source(),
    {
        self.timer
    }

    /// Spin until at least `us` microseconds have elapsed, measured from the
    /// tick read at the start of the call (or until the counter reaches its
    /// end, treated as unreachable in practice). Gating state is untouched.
    pub fn wait_us(&mut self, us: u64)
        requires
            old(self).wf(),
        ensures
            final(self).wf(),
            wait_elapsed(old(self).last(), final(self).last(), us) || final(self).last()
                == u64::MAX,
            final(self).is_gating() == old(self).is_gating(),
            final(self).anchor() == old(self).anchor(),
    {
        let start: u64 = self.timer.tick();
        let mut cur: u64 = start;
        while cur - start < us && cur < u64::MAX
            invariant
                start <= cur,
                cur == self.timer.last(),
                start >= old(self).timer.last(),
                self.gating == old(self).gating,
                self.gate_start == old(self).gate_start,
                self.gate_start <= start,
            decreases outstanding(us, start, cur), self.timer.lag(),
        {
            cur = self.timer.tick();
        }
    }

    /// Spin for `ms` milliseconds: exactly `wait_us` of `ms * 1000`.
    pub fn wait_ms(&mut self, ms: u64)
        requires
            old(self).wf(),
            ms * 1000 <= u64::MAX,
        ensures
            final(self).wf(),
            wait_elapsed(old(self).last(), final(self).last(), (ms * 1000) as u64)
                || final(self).last() == u64::MAX,
            final(self).is_gating() == old(self).is_gating(),
            final(self).anchor() == old(self).anchor(),
    {
        self.wait_us(ms * 1000);
    }

    /// Spin for `sec` seconds: exactly `wait_us` of `sec * 1_000_000`.
    pub fn wait_sec(&mut self, sec: u64)
        requires
            old(self).wf(),
            sec * 1000000 <= u64::MAX,
        ensures
            final(self).wf(),
            wait_elapsed(old(self).last(), final(self).last(), (sec * 1000000) as u64)
                || final(self).last() == u64::MAX,
            final(self).is_gating() == old(self).is_gating(),
            final(self).anchor() == old(self).anchor(),
    {
        self.wait_ms(sec * 1000);
    }

    /// One gating step with period `us` microseconds.
    ///
    /// The first call of a cycle anchors at the current tick and succeeds at
    /// once. A later call measures the time elapsed since the anchor: if it
    /// already exceeds `us` the call reports the excess as an overrun and
    /// re-anchors at the current tick without waiting; otherwise it spins out
    /// the remainder of the period and advances the anchor by exactly `us`.
    pub fn gate_us(&mut self, us: u64) -> (r: Result<(), u64>)
        requires
            old(self).wf(),
        ensures
            gate_post(*old(self), *final(self), us, r),
    {
        let now: u64 = self.timer.tick();
        if !self.gating {
            self.gate_start = now;
            self.gating = true;
            return Ok(());
        }
        let elapsed: u64 = now - self.gate_start;
        if elapsed > us {
            self.gate_start = now;
            return Err(elapsed - us);
        }
        let mut cur: u64 = now;
        while cur - self.gate_start < us && cur < u64::MAX
            invariant
                self.gate_start <= cur,
                cur == self.timer.last(),
                cur >= old(self).timer.last(),
                self.gating,
                self.gating == old(self).gating,
                self.gate_start == old(self).gate_start,
            decreases outstanding(us, self.gate_start, cur), self.timer.lag(),
        {
            cur = self.timer.tick();
        }
        if cur - self.gate_start >= us {
            self.gate_start = self.gate_start + us;
        } else {
            self.gate_start = cur;
        }
        Ok(())
    }

    /// One gating step of `ms` milliseconds: exactly `gate_us` of
    /// `ms * 1000`, overrun excess reported in microseconds.
    pub fn gate_ms(&mut self, ms: u64) -> (r: Result<(), u64>)
        requires
            old(self).wf(),
            ms * 1000 <= u64::MAX,
        ensures
            gate_post(*old(self), *final(self), (ms * 1000) as u64, r),
    {
        self.gate_us(ms * 1000)
    }

    /// One gating step of `sec` seconds: exactly `gate_us` of
    /// `sec * 1_000_000`, overrun excess reported in microseconds.
    pub fn gate_sec(&mut self, sec: u64) -> (r: Result<(), u64>)
        requires
            old(self).wf(),
            sec * 1000000 <= u64::MAX,
        ensures
            gate_post(*old(self), *final(self), (sec * 1000000) as u64, r),
    {
        self.gate_ms(sec * 1000)
    }
}

} // verus!
