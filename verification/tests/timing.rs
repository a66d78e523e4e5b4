use wait_timer::SimTicks;
use wait_timer::Wait;

// Scripted clocks below advance by the next script increment on every
// reading, and by one microsecond per reading once the script is exhausted,
// so each test scripts every reading it expects.

#[test]
fn scenario_half_second_tie() {
    let src = SimTicks::new(0, vec![0, 500_000]);
    let mut w = Wait::new(src);
    assert_eq!(w.gate_ms(500), Ok(()));
    assert!(w.gating());
    assert_eq!(w.gate_anchor(), 0);
    assert_eq!(w.gate_ms(500), Ok(()));
    assert_eq!(w.gate_anchor(), 500_000);
    let src = w.into_source();
    // The second call found exactly one period elapsed: no extra reading.
    assert_eq!(src.reads(), 2);
    assert_eq!(src.reading(), 500_000);
}

#[test]
fn scenario_overrun_after_long_work() {
    let src = SimTicks::new(0, vec![0, 900_000]);
    let mut w = Wait::new(src);
    assert_eq!(w.gate_ms(500), Ok(()));
    assert_eq!(w.gate_anchor(), 0);
    assert_eq!(w.gate_ms(500), Err(400_000));
    assert_eq!(w.gate_anchor(), 900_000);
    let src = w.into_source();
    // Overrun is reported without any further blocking.
    assert_eq!(src.reads(), 2);
}

#[test]
fn scenario_wait_zero_returns_at_once() {
    let src = SimTicks::new(7, vec![0, 0]);
    let mut w = Wait::new(src);
    w.wait_us(0);
    assert_eq!(w.time(), 7);
    let src = w.into_source();
    // One reading to take the start tick, one for `time`; zero ticks elapsed.
    assert_eq!(src.reads(), 2);
}

#[test]
fn wait_until_duration_elapsed() {
    let src = SimTicks::new(0, vec![0, 3, 3, 3, 3]);
    let mut w = Wait::new(src);
    w.wait_us(10);
    let src = w.into_source();
    // Polled at 0, 3, 6, 9 and returned only at 12, the first tick >= 10.
    assert_eq!(src.reading(), 12);
    assert_eq!(src.reads(), 5);
}

#[test]
fn wait_exact_boundary() {
    let src = SimTicks::new(0, vec![0, 10]);
    let mut w = Wait::new(src);
    w.wait_us(10);
    let src = w.into_source();
    assert_eq!(src.reading(), 10);
    assert_eq!(src.reads(), 2);
}

#[test]
fn wait_ms_equals_wait_us() {
    let src = SimTicks::new(0, vec![0, 1500, 600]);
    let mut w = Wait::new(src);
    w.wait_ms(2);
    let a = w.into_source();

    let src = SimTicks::new(0, vec![0, 1500, 600]);
    let mut w = Wait::new(src);
    w.wait_us(2000);
    let b = w.into_source();

    assert_eq!(a.reading(), b.reading());
    assert_eq!(a.reads(), b.reads());
    assert_eq!(a.reading(), 2100);
    assert_eq!(a.reads(), 3);
}

#[test]
fn wait_sec_equals_wait_ms_equals_wait_us() {
    let script = vec![0, 999_999, 1];
    let src = SimTicks::new(0, script.clone());
    let mut w = Wait::new(src);
    w.wait_sec(1);
    let a = w.into_source();

    let src = SimTicks::new(0, script.clone());
    let mut w = Wait::new(src);
    w.wait_ms(1000);
    let b = w.into_source();

    let src = SimTicks::new(0, script);
    let mut w = Wait::new(src);
    w.wait_us(1_000_000);
    let c = w.into_source();

    assert_eq!(a.reading(), 1_000_000);
    assert_eq!(a.reads(), 3);
    assert_eq!(b.reading(), a.reading());
    assert_eq!(b.reads(), a.reads());
    assert_eq!(c.reading(), a.reading());
    assert_eq!(c.reads(), a.reads());
}

#[test]
fn first_gate_call_is_free() {
    let src = SimTicks::new(123, vec![0]);
    let mut w = Wait::new(src);
    assert!(!w.gating());
    assert_eq!(w.gate_us(u64::MAX), Ok(()));
    assert!(w.gating());
    assert_eq!(w.gate_anchor(), 123);
    let src = w.into_source();
    // The first call took a single reading and never waited.
    assert_eq!(src.reads(), 1);
}

#[test]
fn gate_cadence_does_not_drift() {
    let src = SimTicks::new(0, vec![0, 100, 250, 100, 100, 50, 200]);
    let mut w = Wait::new(src);
    assert_eq!(w.gate_us(250), Ok(()));
    assert_eq!(w.gate_anchor(), 0);
    assert_eq!(w.gate_us(250), Ok(()));
    assert_eq!(w.gate_anchor(), 250);
    assert_eq!(w.gate_us(250), Ok(()));
    assert_eq!(w.gate_anchor(), 500);
    assert_eq!(w.gate_us(250), Ok(()));
    assert_eq!(w.gate_anchor(), 750);
    let src = w.into_source();
    // The calls returned at ticks 350, 550 and 800, yet the anchors stay on
    // the exact 250-tick grid.
    assert_eq!(src.reading(), 800);
    assert_eq!(src.reads(), 7);
}

#[test]
fn gate_overrun_excess_and_reanchor() {
    let src = SimTicks::new(5, vec![0, 250]);
    let mut w = Wait::new(src);
    assert_eq!(w.gate_us(100), Ok(()));
    assert_eq!(w.gate_anchor(), 5);
    assert_eq!(w.gate_us(100), Err(150));
    assert_eq!(w.gate_anchor(), 255);
    let src = w.into_source();
    assert_eq!(src.reads(), 2);
}

#[test]
fn gate_zero_period() {
    let src = SimTicks::new(0, vec![0, 0, 7]);
    let mut w = Wait::new(src);
    assert_eq!(w.gate_us(0), Ok(()));
    assert_eq!(w.gate_anchor(), 0);
    // Elapsed equals the zero period exactly: tie-break, success, no wait.
    assert_eq!(w.gate_us(0), Ok(()));
    assert_eq!(w.gate_anchor(), 0);
    // Any elapsed time at all now exceeds the zero period.
    assert_eq!(w.gate_us(0), Err(7));
    assert_eq!(w.gate_anchor(), 7);
    let src = w.into_source();
    assert_eq!(src.reads(), 3);
}

#[test]
fn gate_sec_tie() {
    let src = SimTicks::new(0, vec![0, 1_000_000]);
    let mut w = Wait::new(src);
    assert_eq!(w.gate_sec(1), Ok(()));
    assert_eq!(w.gate_sec(1), Ok(()));
    assert_eq!(w.gate_anchor(), 1_000_000);
    let src = w.into_source();
    assert_eq!(src.reads(), 2);
}

#[test]
fn time_reads_the_counter() {
    let src = SimTicks::new(42, vec![0, 5]);
    let mut w = Wait::new(src);
    assert_eq!(w.time(), 42);
    assert_eq!(w.time(), 47);
}

#[test]
fn wait_leaves_gating_state_alone() {
    let src = SimTicks::new(0, vec![0, 10, 10]);
    let mut w = Wait::new(src);
    assert_eq!(w.gate_us(5), Ok(()));
    assert_eq!(w.gate_anchor(), 0);
    w.wait_us(10);
    assert!(w.gating());
    assert_eq!(w.gate_anchor(), 0);
}

#[test]
fn sim_clock_saturates_at_counter_end() {
    let src = SimTicks::new(u64::MAX - 5, vec![0, 10]);
    let mut w = Wait::new(src);
    w.wait_us(3);
    let src = w.into_source();
    assert_eq!(src.reading(), u64::MAX);
    assert_eq!(src.reads(), 2);
}

#[test]
fn sim_clock_keeps_moving_after_script() {
    let src = SimTicks::new(9, vec![]);
    let mut w = Wait::new(src);
    assert_eq!(w.time(), 10);
    assert_eq!(w.time(), 11);
}
