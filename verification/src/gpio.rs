//! The pin table and the port multiplexer: resolves externally configured
//! pin identifiers to concrete GPIO lines.
//!
//! Which lines exist, and which of them can carry a bus signal, is fixed by
//! the chip's pin-numbering scheme; the table below is that scheme written
//! out, so resolution is a checked constant lookup and not a runtime guess.

use vstd::prelude::*;

use crate::chip::{GpioBlock, IoMuxBlock};

verus! {

/// The chip's pin-numbering scheme: lines 0 through 27 and 32 through 39
/// exist; 28 through 31 do not.
pub open spec fn gpio_line_exists(line: u8) -> bool {
    line <= 27 || (32 <= line && line <= 39)
}

/// The lines that can carry a bus signal. A bus line must both drive and
/// sense; lines 34 through 39 are input-only, so of the existing lines only
/// 0 through 27, 32 and 33 qualify.
pub open spec fn gpio_line_supports_bus(line: u8) -> bool {
    line <= 27 || line == 32 || line == 33
}

/// Whether a pin identifier names a line of this chip at all.
pub fn line_exists(line: u8) -> (r: bool)
    ensures
        r == gpio_line_exists(line),
{
    line <= 27 || (32 <= line && line <= 39)
}

/// Whether a pin identifier names a line that can carry a bus signal.
pub fn bus_capable(line: u8) -> (r: bool)
    ensures
        r == gpio_line_supports_bus(line),
{
    line <= 27 || line == 32 || line == 33
}

/// The two tables agree: a line that can carry a bus signal is a line the
/// chip has.
pub proof fn lemma_bus_lines_exist(line: u8)
    requires
        gpio_line_supports_bus(line),
    ensures
        gpio_line_exists(line),
{
}

/// A concrete GPIO line, resolved from a pin identifier.
pub struct Pin {
    /// The line's number in the chip's pin-numbering scheme.
    pub line: u8,
}

/// The port multiplexer: owns the chip's GPIO matrix and hands out its
/// lines.
pub struct Io {
    _gpio: GpioBlock,
    _io_mux: IoMuxBlock,
}

impl Io {
    /// Claims the GPIO matrix from its two register blocks.
    pub fn new(gpio: GpioBlock, io_mux: IoMuxBlock) -> (r: Io) {
        Io { _gpio: gpio, _io_mux: io_mux }
    }

    /// Resolves the bus's two pin identifiers to their GPIO lines.
    ///
    /// Consumes the port multiplexer: each line exists once, so the two
    /// identifiers must name distinct, bus-capable lines.
    pub fn bus_pins(self, sda: u8, scl: u8) -> (r: (Pin, Pin))
        requires
            gpio_line_supports_bus(sda),
            gpio_line_supports_bus(scl),
            sda != scl,
        ensures
            r.0.line == sda,
            r.1.line == scl,
    {
        (Pin { line: sda }, Pin { line: scl })
    }
}

} // verus!
