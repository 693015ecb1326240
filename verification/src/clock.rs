//! The clock configurator: selects the CPU speed class and freezes the
//! resulting clock tree into one immutable configuration value that every
//! clock-dependent constructor borrows read-only.

use vstd::prelude::*;

use crate::chip::{Chip, ClockControlBlock};

verus! {

/// The CPU speed classes this chip family can run at. Every variant listed
/// here is attainable on the chip, so configuring a class never fails.
#[derive(Clone, Copy, PartialEq, Eq, Structural, Debug)]
pub enum CpuClock {
    Clock80MHz,
    Clock160MHz,
    Clock240MHz,
}

/// The CPU rate of a speed class, in hertz.
pub open spec fn cpu_clock_hz(speed: CpuClock) -> u32 {
    match speed {
        CpuClock::Clock80MHz => 80_000_000u32,
        CpuClock::Clock160MHz => 160_000_000u32,
        CpuClock::Clock240MHz => 240_000_000u32,
    }
}

impl CpuClock {
    /// The CPU rate of this speed class, in hertz.
    pub fn hz(self) -> (r: u32)
        ensures
            r == cpu_clock_hz(self),
    {
        match self {
            CpuClock::Clock80MHz => 80_000_000,
            CpuClock::Clock160MHz => 160_000_000,
            CpuClock::Clock240MHz => 240_000_000,
        }
    }
}

/// A frozen clock configuration: the effective rates after configuration,
/// immutable for the remainder of execution.
#[derive(Clone, Copy, PartialEq, Eq, Structural, Debug)]
pub struct Clocks {
    /// The CPU clock rate, in hertz.
    pub cpu_clock_hz: u32,
    /// The peripheral bus clock rate, in hertz.
    pub apb_clock_hz: u32,
    /// The crystal rate the clock tree is derived from, in hertz.
    pub xtal_clock_hz: u32,
}

/// The clock tree this chip family derives from a speed class: the CPU runs
/// at the class rate, the peripheral bus at a fixed 80 MHz, both from the
/// 40 MHz crystal.
pub open spec fn derived_clocks(speed: CpuClock) -> Clocks {
    Clocks {
        cpu_clock_hz: cpu_clock_hz(speed),
        apb_clock_hz: 80_000_000u32,
        xtal_clock_hz: 40_000_000u32,
    }
}

/// The clock configurator: holds the clock-control block and the rates it
/// applied, until they are frozen into a [`Clocks`] value.
pub struct ClockControl {
    desired: Clocks,
    _block: ClockControlBlock,
}

impl ClockControl {
    /// Applies the requested CPU speed class to the chip's clock tree.
    ///
    /// Consumes the clock-control block, so the tree can be configured at
    /// most once per bring-up.
    pub fn configure(chip: &mut Chip, block: ClockControlBlock, speed: CpuClock) -> (r: ClockControl)
        ensures
            *final(chip) == (Chip { cpu_clock_hz: cpu_clock_hz(speed), ..*old(chip) }),
            r.rates() == derived_clocks(speed),
    {
        let hz = speed.hz();
        chip.cpu_clock_hz = hz;
        ClockControl {
            desired: Clocks { cpu_clock_hz: hz, apb_clock_hz: 80_000_000, xtal_clock_hz: 40_000_000 },
            _block: block,
        }
    }

    /// The rates this configurator applied.
    pub closed spec fn rates(self) -> Clocks {
        self.desired
    }

    /// Freezes the applied rates: the configurator is consumed and the
    /// rates can never change again.
    pub fn freeze(self) -> (r: Clocks)
        ensures
            r == self.rates(),
    {
        self.desired
    }
}

} // verus!
