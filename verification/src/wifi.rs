//! The optional wireless bootstrap: sets up the wireless stack's dedicated
//! heap, then hands the stack a hardware timer, a randomness source and the
//! frozen clocks.
//!
//! Whether the stack's entry point succeeds is decided inside the external
//! subsystem; its outcome is passed in as a value, so the sequencing logic
//! here is checked for every outcome.

use vstd::prelude::*;

use crate::chip::{Chip, RngBlock};
use crate::clock::Clocks;
use crate::timer::HwTimer;

verus! {

/// The CPU rate the wireless stack mandates, in hertz.
pub const WIFI_REQUIRED_CPU_HZ: u32 = 240_000_000;

/// A hardware randomness source, handed to the wireless stack as its
/// entropy input.
pub struct RandomSource {}

impl RandomSource {
    /// Claims the randomness source from its register block.
    pub fn new(_block: RngBlock) -> (r: RandomSource) {
        RandomSource {}
    }
}

/// What the wireless stack's initialization entry point reported.
#[derive(Clone, Copy, PartialEq, Eq, Structural, Debug)]
pub enum WifiInitOutcome {
    Success,
    Failure,
}

/// The wireless stack failed to initialize.
#[derive(Clone, Copy, PartialEq, Eq, Structural, Debug)]
pub struct WifiInitError {}

/// Sets up the dedicated heap region for the wireless stack. One-shot: a
/// heap that already exists must not be set up again.
pub fn init_wifi_heap(chip: &mut Chip)
    requires
        !old(chip).wifi_heap_initialized,
    ensures
        *final(chip) == (Chip { wifi_heap_initialized: true, ..*old(chip) }),
{
    chip.wifi_heap_initialized = true;
}

/// Calls the wireless stack's initialization entry point with its timer,
/// randomness source and the frozen clocks.
///
/// The stack mandates the fixed high CPU frequency and a heap that is
/// already set up. On failure the subsystem stays uninitialized and the
/// chip is otherwise unchanged.
pub fn initialize_wifi(
    chip: &mut Chip,
    _timer: HwTimer,
    _rng: RandomSource,
    clocks: &Clocks,
    outcome: WifiInitOutcome,
) -> (r: Result<(), WifiInitError>)
    requires
        clocks.cpu_clock_hz == WIFI_REQUIRED_CPU_HZ,
        old(chip).wifi_heap_initialized,
        !old(chip).wifi_initialized,
    ensures
        outcome is Success ==> r is Ok && *final(chip) == (Chip {
            wifi_initialized: true,
            ..*old(chip)
        }),
        outcome is Failure ==> r is Err && *final(chip) == *old(chip),
{
    match outcome {
        WifiInitOutcome::Success => {
            chip.wifi_initialized = true;
            Ok(())
        },
        WifiInitOutcome::Failure => Err(WifiInitError {}),
    }
}

} // verus!
