//! The bring-up sequence for this chip family: acquires the raw peripheral
//! singleton, freezes the clock tree at the rate the wireless stack
//! mandates, disarms the configured watchdogs, registers the scheduling
//! timer, optionally bootstraps the wireless subsystem, binds the bus pins,
//! and returns the completed capability bundle.
//!
//! No step here panics: every fatal condition comes back as a typed
//! [`BringUpError`], and the caller applies the abort policy. Firmware built
//! without wireless support calls [`get_peripherals`], which contains no
//! wireless code path; firmware built with it calls
//! [`get_peripherals_with_wifi`].

use vstd::prelude::*;

use crate::bundle::Peripherals;
use crate::chip::{Chip, RawPeripherals, TimerGroupId, WdtState};
use crate::clock::{derived_clocks, ClockControl, CpuClock};
use crate::delay::Delay;
use crate::gpio::{gpio_line_supports_bus, Io};
use crate::i2c::{khz_to_hz, I2cBus};
use crate::timer::{init_scheduler_timer, Rtc, TimerGroup};
use crate::wifi::{init_wifi_heap, initialize_wifi, RandomSource, WifiInitOutcome};

verus! {

/// The fixed bus rate, in kilohertz.
pub const I2C_BUS_RATE_KHZ: u32 = 400;

/// Which watchdog units bring-up disarms: an explicit configuration choice,
/// not a hardcoded subset.
#[derive(Clone, Copy, PartialEq, Eq, Structural, Debug)]
pub struct WatchdogConfig {
    /// Disarm the real-time-clock watchdog.
    pub disable_rtc: bool,
    /// Disarm the first timer group's watchdog unit.
    pub disable_timg0: bool,
    /// Disarm the second timer group's watchdog unit.
    pub disable_timg1: bool,
}

impl WatchdogConfig {
    /// The reference policy: the real-time-clock watchdog and the first
    /// timer group's unit are disarmed; the second group's unit is left as
    /// it stands.
    pub fn reference() -> (r: WatchdogConfig)
        ensures
            r == (WatchdogConfig { disable_rtc: true, disable_timg0: true, disable_timg1: false }),
    {
        WatchdogConfig { disable_rtc: true, disable_timg0: true, disable_timg1: false }
    }
}

/// The bring-up configuration, fixed per board at build time: the bus's two
/// pin identifiers and the watchdog policy.
#[derive(Clone, Copy, PartialEq, Eq, Structural, Debug)]
pub struct BringUpConfig {
    /// The pin identifier of the bus's data line.
    pub sda: u8,
    /// The pin identifier of the bus's clock line.
    pub scl: u8,
    /// Which watchdog units to disarm.
    pub watchdogs: WatchdogConfig,
}

impl BringUpConfig {
    /// A board configuration is well-formed when its two pin identifiers
    /// name distinct, bus-capable GPIO lines.
    pub open spec fn wf(self) -> bool {
        &&& gpio_line_supports_bus(self.sda)
        &&& gpio_line_supports_bus(self.scl)
        &&& self.sda != self.scl
    }
}

/// Everything that can end a bring-up call. Each variant is fatal by
/// policy: the caller aborts instead of continuing half-initialized.
#[derive(Clone, Copy, PartialEq, Eq, Structural, Debug)]
pub enum BringUpError {
    /// The raw peripheral singleton was already taken in this process: a
    /// misuse of the one-shot contract, never expected in correct firmware.
    PeripheralsAlreadyTaken,
    /// The wireless stack's initialization entry point failed.
    WifiInitFailed,
}

/// The clock configuration every bring-up freezes: the CPU at the rate the
/// wireless stack mandates.
pub open spec fn frozen_clocks() -> crate::clock::Clocks {
    derived_clocks(CpuClock::Clock240MHz)
}

/// What a completed bring-up leaves on the chip: the singleton consumed,
/// the clock tree at the mandated rate, each watchdog disarmed exactly when
/// the configuration designates it, and the first timer group's timer
/// driving the scheduling substrate.
pub open spec fn bringup_chip_effects(pre: Chip, post: Chip, w: WatchdogConfig) -> bool {
    &&& post.taken
    &&& post.cpu_clock_hz == frozen_clocks().cpu_clock_hz
    &&& post.rtc_wdt == (if w.disable_rtc { WdtState::Disabled } else { pre.rtc_wdt })
    &&& post.timg0_wdt == (if w.disable_timg0 { WdtState::Disabled } else { pre.timg0_wdt })
    &&& post.timg1_wdt == (if w.disable_timg1 { WdtState::Disabled } else { pre.timg1_wdt })
    &&& post.sched_timer == Some(TimerGroupId::Group0)
}

/// What the returned bundle holds: the bus bound to the configured lines at
/// the fixed rate, the delay provider beside it, both calibrated against
/// the one frozen clock configuration.
pub open spec fn bundle_ok(b: Peripherals<I2cBus, Delay>, cfg: BringUpConfig) -> bool {
    &&& b.is_complete()
    &&& b.i2c == Some(I2cBus {
        sda: cfg.sda,
        scl: cfg.scl,
        frequency_hz: (1000 * I2C_BUS_RATE_KHZ) as u32,
        clocks: frozen_clocks(),
    })
    &&& b.delay == Some(Delay { clocks: frozen_clocks() })
}

/// The full contract of a bring-up without wireless support: on a consumed
/// singleton it fails with the programming error and changes nothing;
/// otherwise it returns a complete bundle, leaves the chip configured, and
/// never touches the wireless state.
pub open spec fn bringup_outcome(
    pre: Chip,
    post: Chip,
    cfg: BringUpConfig,
    r: Result<Peripherals<I2cBus, Delay>, BringUpError>,
) -> bool {
    if pre.taken {
        &&& r == Err::<Peripherals<I2cBus, Delay>, BringUpError>(
            BringUpError::PeripheralsAlreadyTaken,
        )
        &&& post == pre
    } else {
        &&& bringup_chip_effects(pre, post, cfg.watchdogs)
        &&& post.wifi_heap_initialized == pre.wifi_heap_initialized
        &&& post.wifi_initialized == pre.wifi_initialized
        &&& r matches Ok(b) && bundle_ok(b, cfg)
    }
}

/// The full contract of a bring-up with wireless support: as without it,
/// except that the wireless heap is always set up and the call returns a
/// bundle exactly when the wireless stack reported success; on a reported
/// failure no bundle exists and the subsystem stays uninitialized.
pub open spec fn wifi_bringup_outcome(
    pre: Chip,
    post: Chip,
    cfg: BringUpConfig,
    outcome: WifiInitOutcome,
    r: Result<Peripherals<I2cBus, Delay>, BringUpError>,
) -> bool {
    if pre.taken {
        &&& r == Err::<Peripherals<I2cBus, Delay>, BringUpError>(
            BringUpError::PeripheralsAlreadyTaken,
        )
        &&& post == pre
    } else {
        &&& bringup_chip_effects(pre, post, cfg.watchdogs)
        &&& post.wifi_heap_initialized
        &&& match outcome {
            WifiInitOutcome::Success => {
                &&& post.wifi_initialized
                &&& r matches Ok(b) && bundle_ok(b, cfg)
            },
            WifiInitOutcome::Failure => {
                &&& post.wifi_initialized == pre.wifi_initialized
                &&& r == Err::<Peripherals<I2cBus, Delay>, BringUpError>(
                    BringUpError::WifiInitFailed,
                )
            },
        }
    }
}

/// Brings the chip up without wireless support and returns the capability
/// bundle.
///
/// The sequence: take the singleton, freeze the clock tree, disarm the
/// configured watchdogs, register the scheduling timer, resolve the bus
/// pins, construct the bus and the delay provider. No wireless code path
/// exists in this flavour.
pub fn get_peripherals(chip: &mut Chip, cfg: BringUpConfig) -> (r: Result<
    Peripherals<I2cBus, Delay>,
    BringUpError,
>)
    requires
        old(chip).inv(),
        cfg.wf(),
    ensures
        final(chip).inv(),
        bringup_outcome(*old(chip), *final(chip), cfg, r),
{
    let p = match RawPeripherals::take(chip) {
        Some(p) => p,
        None => {
            return Err(BringUpError::PeripheralsAlreadyTaken);
        },
    };

    let mut system = p.dport.split();
    // The wireless stack mandates this CPU rate; both build flavours run
    // the same clock tree so that enabling wireless never re-times the rest
    // of the firmware.
    let clocks = ClockControl::configure(chip, system.clock_control, CpuClock::Clock240MHz)
        .freeze();

    let timer0 = {
        let rtc = Rtc::new(p.rtc_cntl);
        let timer_group0 = TimerGroup::new(p.timg0, &clocks);
        let timer_group1 = TimerGroup::new(p.timg1, &clocks);

        if cfg.watchdogs.disable_rtc {
            rtc.rwdt.disable(chip);
        }
        if cfg.watchdogs.disable_timg0 {
            timer_group0.wdt.disable(chip);
        }
        if cfg.watchdogs.disable_timg1 {
            timer_group1.wdt.disable(chip);
        }

        timer_group0.timer0
    };

    init_scheduler_timer(chip, &clocks, timer0);

    let io = Io::new(p.gpio, p.io_mux);
    let (sda_pin, scl_pin) = io.bus_pins(cfg.sda, cfg.scl);
    let i2c = I2cBus::new(
        p.i2c0,
        sda_pin,
        scl_pin,
        khz_to_hz(I2C_BUS_RATE_KHZ),
        &mut system.peripheral_clock_control,
        &clocks,
    );

    let delay = Delay::new(&clocks);
    Ok(Peripherals::new().i2c(i2c).delay(delay))
}

/// Brings the chip up with wireless support and returns the capability
/// bundle.
///
/// Runs the same sequence as [`get_peripherals`] and, between the
/// scheduling timer and the pin binding, sets up the wireless heap and
/// hands the stack the second timer group's timer, the randomness source
/// and the frozen clocks. `wifi_outcome` is what the stack's entry point
/// reported; a reported failure is fatal and yields no bundle.
pub fn get_peripherals_with_wifi(
    chip: &mut Chip,
    cfg: BringUpConfig,
    wifi_outcome: WifiInitOutcome,
) -> (r: Result<Peripherals<I2cBus, Delay>, BringUpError>)
    requires
        old(chip).inv(),
        cfg.wf(),
    ensures
        final(chip).inv(),
        wifi_bringup_outcome(*old(chip), *final(chip), cfg, wifi_outcome, r),
{
    let p = match RawPeripherals::take(chip) {
        Some(p) => p,
        None => {
            return Err(BringUpError::PeripheralsAlreadyTaken);
        },
    };

    let mut system = p.dport.split();
    let clocks = ClockControl::configure(chip, system.clock_control, CpuClock::Clock240MHz)
        .freeze();

    let rtc = Rtc::new(p.rtc_cntl);
    let timer_group0 = TimerGroup::new(p.timg0, &clocks);
    let timer_group1 = TimerGroup::new(p.timg1, &clocks);

    if cfg.watchdogs.disable_rtc {
        rtc.rwdt.disable(chip);
    }
    if cfg.watchdogs.disable_timg0 {
        timer_group0.wdt.disable(chip);
    }
    if cfg.watchdogs.disable_timg1 {
        timer_group1.wdt.disable(chip);
    }

    init_scheduler_timer(chip, &clocks, timer_group0.timer0);

    init_wifi_heap(chip);
    let rng = RandomSource::new(p.rng);
    match initialize_wifi(chip, timer_group1.timer0, rng, &clocks, wifi_outcome) {
        Ok(()) => {},
        Err(_) => {
            return Err(BringUpError::WifiInitFailed);
        },
    }

    let io = Io::new(p.gpio, p.io_mux);
    let (sda_pin, scl_pin) = io.bus_pins(cfg.sda, cfg.scl);
    let i2c = I2cBus::new(
        p.i2c0,
        sda_pin,
        scl_pin,
        khz_to_hz(I2C_BUS_RATE_KHZ),
        &mut system.peripheral_clock_control,
        &clocks,
    );

    let delay = Delay::new(&clocks);
    Ok(Peripherals::new().i2c(i2c).delay(delay))
}

} // verus!
