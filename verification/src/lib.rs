//! Busy-wait timing primitives over a monotonic microsecond tick source.
//!
//! The crate offers two families of operations on a [`gate::Wait`] value bound
//! to a [`tick::TickSource`]:
//!
//! - `wait_us` / `wait_ms` / `wait_sec` block by polling the tick source in a
//!   tight loop until at least the requested duration has elapsed.
//! - `gate_us` / `gate_ms` / `gate_sec` enforce a constant period between
//!   successive calls on the same value, waiting only for the remaining part
//!   of the period and reporting an overrun when the period has already been
//!   exceeded.
//!
//! Tick counts are 64-bit microsecond values; wraparound of the counter is
//! treated as unreachable over a device's lifetime.
//!
//! [`tick::SimTicks`] is a deterministic, scripted source for exercising the
//! engine; [`hw::HwTicks`] reads the RP2040's free-running timer peripheral.

pub mod gate;
pub mod hw;
pub mod tick;

pub use gate::Wait;
pub use hw::HwTicks;
pub use tick::SimTicks;
pub use tick::TickSource;
