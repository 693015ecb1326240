//! The delay provider: a blocking wait capability calibrated against the
//! frozen clock configuration.

use vstd::prelude::*;

use crate::clock::Clocks;

verus! {

/// A blocking delay provider. Pure construction from the frozen clocks, no
/// failure path, never reconfigured.
#[derive(Clone, Copy, PartialEq, Eq, Structural, Debug)]
pub struct Delay {
    /// The frozen clock configuration the provider is calibrated against.
    pub clocks: Clocks,
}

impl Delay {
    /// Builds a delay provider calibrated against the frozen clocks.
    pub fn new(clocks: &Clocks) -> (r: Delay)
        ensures
            r == (Delay { clocks: *clocks }),
    {
        Delay { clocks: *clocks }
    }

    /// The number of CPU cycles the provider busy-waits to cover `us`
    /// microseconds.
    ///
    /// At the chip's whole-megahertz clock rates the budget converts back
    /// exactly, so the wait covers at least the requested interval.
    pub fn cycles_for_micros(&self, us: u32) -> (r: u64)
        ensures
            r == us * (self.clocks.cpu_clock_hz / 1_000_000),
            self.clocks.cpu_clock_hz % 1_000_000 == 0 ==> 1_000_000 * r
                == us * self.clocks.cpu_clock_hz,
    {
        let per_us: u32 = self.clocks.cpu_clock_hz / 1_000_000;
        proof {
            assert((us as int) * (per_us as int) <= 0xffff_ffff * 4294) by (nonlinear_arith)
                requires
                    us <= 0xffff_ffffu32,
                    per_us <= 4294,
            ;
            if self.clocks.cpu_clock_hz % 1_000_000 == 0 {
                assert(self.clocks.cpu_clock_hz == 1_000_000 * (per_us as int));
                assert(1_000_000 * ((us as int) * (per_us as int))
                    == (us as int) * (1_000_000 * (per_us as int))) by (nonlinear_arith);
            }
        }
        (us as u64) * (per_us as u64)
    }
}

} // verus!
