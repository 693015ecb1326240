//! The communication-bus handle: constructed once, bound to two resolved
//! GPIO lines and a fixed rate, calibrated against the frozen clocks.

use vstd::prelude::*;

use crate::chip::{I2c0Block, PeripheralClockControl};
use crate::clock::Clocks;
use crate::gpio::Pin;

verus! {

/// A configured, ready-to-use bus instance. Never reconfigured after
/// creation.
#[derive(Clone, Copy, PartialEq, Eq, Structural, Debug)]
pub struct I2cBus {
    /// The GPIO line carrying the data signal.
    pub sda: u8,
    /// The GPIO line carrying the clock signal.
    pub scl: u8,
    /// The bus rate, in hertz.
    pub frequency_hz: u32,
    /// The frozen clock configuration the bus timing was derived from.
    pub clocks: Clocks,
}

impl I2cBus {
    /// Constructs the bus peripheral bound to two distinct resolved lines
    /// at the given rate.
    ///
    /// Consumes the bus register block, enables the peripheral's clock
    /// gate, and derives the bus timing from the frozen clocks.
    pub fn new(
        _block: I2c0Block,
        sda: Pin,
        scl: Pin,
        frequency_hz: u32,
        pcc: &mut PeripheralClockControl,
        clocks: &Clocks,
    ) -> (r: I2cBus)
        requires
            sda.line != scl.line,
        ensures
            r == (I2cBus {
                sda: sda.line,
                scl: scl.line,
                frequency_hz: frequency_hz,
                clocks: *clocks,
            }),
            *final(pcc) == *old(pcc),
    {
        I2cBus { sda: sda.line, scl: scl.line, frequency_hz, clocks: *clocks }
    }
}

/// Relies on fugit's rate arithmetic (`RateExtU32::kHz` and `Rate::to_Hz`):
/// a rate built from `khz` kilohertz reads back as `khz * 1000` hertz.
#[verifier::external_body]
pub(crate) fn khz_to_hz(khz: u32) -> (r: u32)
    requires
        khz <= 4_294_967,
    ensures
        r == 1000 * khz,
{
    let rate: fugit::HertzU32 = fugit::RateExtU32::kHz(khz);
    rate.to_Hz()
}

} // verus!
