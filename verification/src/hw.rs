//! A tick source backed by the RP2040 timer peripheral.

use crate::tick::TickSource;
use vstd::prelude::*;

verus! {

/// The RP2040 HAL's timer handle: a reader of the chip's free-running
/// 64-bit microsecond counter.
#[verifier::external_type_specification]
#[verifier::external_body]
pub struct ExTimer(rp2040_hal::timer::Timer);

/// Tick source over the RP2040 timer peripheral.
///
/// The two ghost fields carry the model of the hardware counter that
/// [`TickSource`] asks for: the latest value handed out and the remaining
/// budget of repeated readings.
pub struct HwTicks {
    timer: rp2040_hal::timer::Timer,
    seen: Ghost<u64>,
    budget: Ghost<nat>,
}

impl HwTicks {
    /// Wrap an RP2040 timer handle. The counter starts counting from zero at
    /// reset, so zero is a sound lower bound for the first reading.
    pub fn new(timer: rp2040_hal::timer::Timer) -> (h: HwTicks)
        ensures
            h.last() == 0,
    {
        HwTicks { timer, seen: Ghost(0u64), budget: Ghost(0nat) }
    }
}

/// Relies on `rp2040_hal::timer::Timer::get_counter` (with
/// `fugit::Instant::ticks` unwrapping the raw count): it reads the RP2040's
/// free-running 64-bit counter, which the HAL documents as incrementing once
/// per microsecond, so successive readings never decrease, and short of the
/// counter's end (thousands of years away) the counter cannot return the
/// same value forever. The ghost fields of `HwTicks` record that model.
#[verifier::external_body]
fn read_hw_counter(h: &mut HwTicks) -> (t: u64)
    ensures
        t >= old(h).last(),
        final(h).last() == t,
        t == old(h).last() && t < u64::MAX ==> final(h).lag() < old(h).lag(),
{
    h.timer.get_counter().ticks()
}

impl TickSource for HwTicks {
    closed spec fn last(&self) -> u64 {
        self.seen@
    }

    closed spec fn lag(&self) -> nat {
        self.budget@
    }

    fn tick(&mut self) -> (t: u64) {
        read_hw_counter(self)
    }
}

} // verus!
