//! The chip model: the raw peripheral singleton and the observable hardware
//! state that a bring-up sequence acts on.
//!
//! A [`Chip`] value stands for one physical chip over one process lifetime.
//! Taking the raw peripheral set consumes the singleton: the register blocks
//! come out as move-only tokens, so each configuration step owns exactly the
//! block it needs and no step can be replayed on a block that was already
//! handed on.

use vstd::prelude::*;

verus! {

/// The state of one independent watchdog unit.
#[derive(Clone, Copy, PartialEq, Eq, Structural, Debug)]
pub enum WdtState {
    /// The unit will reset the device unless it is acknowledged in time.
    Armed,
    /// The unit has been disarmed and cannot reset the device.
    Disabled,
}

/// Identifies one of the chip's two general-purpose timer groups.
#[derive(Clone, Copy, PartialEq, Eq, Structural, Debug)]
pub enum TimerGroupId {
    Group0,
    Group1,
}

/// The observable hardware state of the chip.
///
/// Bring-up threads a `&mut Chip` through its steps; each step's contract
/// says exactly which part of this state it changes.
pub struct Chip {
    /// Whether the raw peripheral singleton has been taken in this process.
    pub taken: bool,
    /// The real-time-clock watchdog.
    pub rtc_wdt: WdtState,
    /// The first timer group's watchdog unit.
    pub timg0_wdt: WdtState,
    /// The second timer group's watchdog unit.
    pub timg1_wdt: WdtState,
    /// The CPU clock rate the clock tree currently runs at, in hertz.
    pub cpu_clock_hz: u32,
    /// Which timer group's timer drives the cooperative-scheduling
    /// substrate, once one has been registered.
    pub sched_timer: Option<TimerGroupId>,
    /// Whether the wireless stack's dedicated heap region has been set up.
    pub wifi_heap_initialized: bool,
    /// Whether the wireless stack completed its initialization.
    pub wifi_initialized: bool,
}

impl Chip {
    /// The chip as it stands at reset: the singleton not yet taken, every
    /// watchdog armed, the boot clock running, no subsystem initialized.
    pub open spec fn boot() -> Chip {
        Chip {
            taken: false,
            rtc_wdt: WdtState::Armed,
            timg0_wdt: WdtState::Armed,
            timg1_wdt: WdtState::Armed,
            cpu_clock_hz: 80_000_000,
            sched_timer: None,
            wifi_heap_initialized: false,
            wifi_initialized: false,
        }
    }

    /// The states a real chip can reach: every subsystem is initialized by
    /// code that owns a register block, and no block exists before the
    /// peripheral singleton has been taken.
    pub open spec fn inv(self) -> bool {
        !self.taken ==> {
            &&& self.sched_timer is None
            &&& !self.wifi_heap_initialized
            &&& !self.wifi_initialized
        }
    }

    /// A chip at reset, as a process finds it at boot.
    pub fn new() -> (r: Chip)
        ensures
            r == Chip::boot(),
            r.inv(),
    {
        Chip {
            taken: false,
            rtc_wdt: WdtState::Armed,
            timg0_wdt: WdtState::Armed,
            timg1_wdt: WdtState::Armed,
            cpu_clock_hz: 80_000_000,
            sched_timer: None,
            wifi_heap_initialized: false,
            wifi_initialized: false,
        }
    }
}

/// Ownership of the system (clock and peripheral gating) register block.
pub struct DportBlock {}

/// Ownership of the clock-control registers, split out of the system block.
pub struct ClockControlBlock {}

/// Ownership of the peripheral clock-gating registers, split out of the
/// system block.
pub struct PeripheralClockControl {}

/// The system register block split into its two independent halves.
pub struct SystemParts {
    pub clock_control: ClockControlBlock,
    pub peripheral_clock_control: PeripheralClockControl,
}

impl DportBlock {
    /// Splits the system block into the clock-control half and the
    /// peripheral clock-gating half, each owned separately from here on.
    pub fn split(self) -> (r: SystemParts) {
        SystemParts {
            clock_control: ClockControlBlock {},
            peripheral_clock_control: PeripheralClockControl {},
        }
    }
}

/// Ownership of the real-time-clock control register block.
pub struct RtcCntlBlock {}

/// Ownership of one timer group's register block.
pub struct TimgBlock {
    /// Which of the two timer groups this block is.
    pub group: TimerGroupId,
}

/// Ownership of the hardware randomness source.
pub struct RngBlock {}

/// Ownership of the GPIO register block.
pub struct GpioBlock {}

/// Ownership of the pin-multiplexer register block.
pub struct IoMuxBlock {}

/// Ownership of the first communication-bus peripheral's register block.
pub struct I2c0Block {}

/// The raw peripheral singleton: exclusive ownership of every register
/// block on the chip, handed out at most once per process.
pub struct RawPeripherals {
    pub dport: DportBlock,
    pub rtc_cntl: RtcCntlBlock,
    pub timg0: TimgBlock,
    pub timg1: TimgBlock,
    pub rng: RngBlock,
    pub gpio: GpioBlock,
    pub io_mux: IoMuxBlock,
    pub i2c0: I2c0Block,
}

impl RawPeripherals {
    /// Acquires the raw peripheral singleton.
    ///
    /// The first acquisition in a process succeeds and consumes the
    /// singleton; every later one finds it gone and returns nothing, which
    /// callers must treat as a fatal programming error.
    pub fn take(chip: &mut Chip) -> (r: Option<RawPeripherals>)
        ensures
            old(chip).taken <==> r is None,
            old(chip).taken ==> *final(chip) == *old(chip),
            !old(chip).taken ==> *final(chip) == (Chip { taken: true, ..*old(chip) }),
            r matches Some(p) ==> {
                &&& p.timg0.group == TimerGroupId::Group0
                &&& p.timg1.group == TimerGroupId::Group1
            },
    {
        if chip.taken {
            None
        } else {
            chip.taken = true;
            Some(RawPeripherals {
                dport: DportBlock {},
                rtc_cntl: RtcCntlBlock {},
                timg0: TimgBlock { group: TimerGroupId::Group0 },
                timg1: TimgBlock { group: TimerGroupId::Group1 },
                rng: RngBlock {},
                gpio: GpioBlock {},
                io_mux: IoMuxBlock {},
                i2c0: I2c0Block {},
            })
        }
    }
}

} // verus!
