//! The capability bundle: a backend-agnostic accumulator for the handles
//! produced by a bring-up sequence.
//!
//! The bundle is generic over the concrete bus-handle and delay-provider
//! types, so application code depends only on the bundle's field-access
//! contract and not on the chip family that produced the handles.

use vstd::prelude::*;

verus! {

/// Accumulates the capability handles produced by bring-up.
///
/// Fields begin unset and are set at most once each through the builder
/// calls; a bundle is complete once both are set. Completeness is part of
/// the bring-up routine's contract, not of this type.
pub struct Peripherals<I2C, DELAY> {
    pub i2c: Option<I2C>,
    pub delay: Option<DELAY>,
}

impl<I2C, DELAY> Peripherals<I2C, DELAY> {
    /// Both capability slots of the bundle start out unset.
    pub fn new() -> (r: Peripherals<I2C, DELAY>)
        ensures
            r.i2c is None,
            r.delay is None,
    {
        Peripherals { i2c: None, delay: None }
    }

    /// Sets the communication-bus slot, leaving the delay slot untouched.
    pub fn i2c(self, bus: I2C) -> (r: Peripherals<I2C, DELAY>)
        ensures
            r.i2c == Some(bus),
            r.delay == self.delay,
    {
        Peripherals { i2c: Some(bus), ..self }
    }

    /// Sets the delay-provider slot, leaving the bus slot untouched.
    pub fn delay(self, provider: DELAY) -> (r: Peripherals<I2C, DELAY>)
        ensures
            r.delay == Some(provider),
            r.i2c == self.i2c,
    {
        Peripherals { delay: Some(provider), ..self }
    }

    /// Whether both capability slots have been set.
    pub open spec fn is_complete(self) -> bool {
        self.i2c is Some && self.delay is Some
    }

    /// Hands the bus handle out of a complete bundle.
    pub fn into_i2c(self) -> (r: I2C)
        requires
            self.i2c is Some,
        ensures
            self.i2c == Some(r),
    {
        match self.i2c {
            Some(bus) => bus,
            None => unreached(),
        }
    }

    /// Hands the delay provider out of a complete bundle.
    pub fn into_delay(self) -> (r: DELAY)
        requires
            self.delay is Some,
        ensures
            self.delay == Some(r),
    {
        match self.delay {
            Some(provider) => provider,
            None => unreached(),
        }
    }
}

} // verus!
