//! A blocking delay that burns CPU cycles.

use crate::hal::DelayNs;
use vstd::prelude::*;

verus! {

/// Spins taken per millisecond, on the rule of thumb of one spin per CPU
/// cycle on a 1 MHz core. The figure is approximate, not calibrated: the
/// real span depends on the clock speed and on how the compiler lowers the
/// spin.
pub const SPINS_PER_MS: u32 = 1_000;

/// Relies on core::hint::spin_loop: a hint to the processor that the caller
/// is busy-waiting, with no effect on program state.
#[verifier::external_body]
fn spin() {
    core::hint::spin_loop()
}

/// A very simple blocking delay that busy-waits, trading power and accuracy
/// for having no hardware-timer dependency at all.
pub struct BusyDelay {
    trace_ms: Ghost<Seq<u32>>,
    trace_ns: Ghost<Seq<u32>>,
}

impl BusyDelay {
    /// Create a delay provider with empty wait traces.
    pub fn new() -> (delay: BusyDelay)
        ensures
            delay.waits_ms() == Seq::<u32>::empty(),
            delay.waits_ns() == Seq::<u32>::empty(),
    {
        BusyDelay { trace_ms: Ghost(Seq::empty()), trace_ns: Ghost(Seq::empty()) }
    }
}

impl DelayNs for BusyDelay {
    closed spec fn waits_ms(&self) -> Seq<u32> {
        self.trace_ms@
    }

    closed spec fn waits_ns(&self) -> Seq<u32> {
        self.trace_ns@
    }

    /// Busy-wait for roughly `ms` milliseconds by spinning
    /// [`SPINS_PER_MS`] times per millisecond.
    fn delay_ms(&mut self, ms: u32) {
        let mut elapsed: u32 = 0;
        while elapsed < ms
            invariant
                elapsed <= ms,
            decreases ms - elapsed,
        {
            let mut spins: u32 = 0;
            while spins < SPINS_PER_MS
                invariant
                    spins <= SPINS_PER_MS,
                decreases SPINS_PER_MS - spins,
            {
                spin();
                spins = spins + 1;
            }
            elapsed = elapsed + 1;
        }
        self.trace_ms = Ghost(self.trace_ms@.push(ms));
    }

    /// Nanosecond requests are below this provider's resolution and are
    /// rounded down to nothing: the only calibrated path is the millisecond
    /// one.
    fn delay_ns(&mut self, ns: u32) {
        self.trace_ns = Ghost(self.trace_ns@.push(ns));
    }
}

} // verus!
