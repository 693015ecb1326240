//! The guarantees that relate the bring-up contracts to each other, proved
//! once over the contract predicates so every caller can rely on them.

use vstd::prelude::*;

use crate::bundle::Peripherals;
use crate::chip::Chip;
use crate::clock::{derived_clocks, CpuClock};
use crate::delay::Delay;
use crate::esp32::{
    bringup_chip_effects, bringup_outcome, bundle_ok, wifi_bringup_outcome, BringUpConfig,
    BringUpError, WatchdogConfig,
};
use crate::i2c::I2cBus;
use crate::wifi::WifiInitOutcome;

verus! {

/// The singleton is taken at most once per process: on a chip whose
/// singleton was never taken, a first bring-up succeeds and consumes it, so
/// a second bring-up on the same chip — whatever its configuration — must
/// fail with the programming error and change nothing. Bring-up is not
/// idempotent by design.
pub proof fn lemma_second_bringup_fails(
    c0: Chip,
    c1: Chip,
    c2: Chip,
    cfg1: BringUpConfig,
    cfg2: BringUpConfig,
    r1: Result<Peripherals<I2cBus, Delay>, BringUpError>,
    r2: Result<Peripherals<I2cBus, Delay>, BringUpError>,
)
    requires
        !c0.taken,
        bringup_outcome(c0, c1, cfg1, r1),
        bringup_outcome(c1, c2, cfg2, r2),
    ensures
        r1 is Ok,
        r2 == Err::<Peripherals<I2cBus, Delay>, BringUpError>(
            BringUpError::PeripheralsAlreadyTaken,
        ),
        c2 == c1,
{
}

/// The same take-once guarantee for the wireless flavour, and stronger:
/// even a first bring-up that ended in a wireless failure has consumed the
/// singleton, so the second call still fails at acquisition.
pub proof fn lemma_second_wifi_bringup_fails(
    c0: Chip,
    c1: Chip,
    c2: Chip,
    cfg1: BringUpConfig,
    cfg2: BringUpConfig,
    o1: WifiInitOutcome,
    o2: WifiInitOutcome,
    r1: Result<Peripherals<I2cBus, Delay>, BringUpError>,
    r2: Result<Peripherals<I2cBus, Delay>, BringUpError>,
)
    requires
        !c0.taken,
        wifi_bringup_outcome(c0, c1, cfg1, o1, r1),
        wifi_bringup_outcome(c1, c2, cfg2, o2, r2),
    ensures
        r2 == Err::<Peripherals<I2cBus, Delay>, BringUpError>(
            BringUpError::PeripheralsAlreadyTaken,
        ),
        c2 == c1,
{
}

/// Every downstream consumer is calibrated against one frozen clock
/// configuration: the bus handle and the delay provider of any bundle a
/// bring-up returns carry the same clock values, the ones frozen at the
/// mandated CPU rate.
pub proof fn lemma_one_clock_configuration(b: Peripherals<I2cBus, Delay>, cfg: BringUpConfig)
    requires
        bundle_ok(b, cfg),
    ensures
        b.i2c matches Some(bus) && b.delay matches Some(d) && bus.clocks == d.clocks,
        b.i2c matches Some(bus) && bus.clocks == derived_clocks(CpuClock::Clock240MHz),
{
}

/// After a completed bring-up, every watchdog unit the configuration
/// designates for disarming is disarmed, and a unit the configuration
/// leaves alone keeps the state it had.
pub proof fn lemma_designated_watchdogs_disabled(pre: Chip, post: Chip, w: WatchdogConfig)
    requires
        bringup_chip_effects(pre, post, w),
    ensures
        w.disable_rtc ==> post.rtc_wdt is Disabled,
        w.disable_timg0 ==> post.timg0_wdt is Disabled,
        w.disable_timg1 ==> post.timg1_wdt is Disabled,
        !w.disable_rtc ==> post.rtc_wdt == pre.rtc_wdt,
        !w.disable_timg0 ==> post.timg0_wdt == pre.timg0_wdt,
        !w.disable_timg1 ==> post.timg1_wdt == pre.timg1_wdt,
{
}

/// A bring-up without wireless support leaves the wireless state exactly as
/// it found it, whether it succeeded or failed.
pub proof fn lemma_wireless_untouched(
    pre: Chip,
    post: Chip,
    cfg: BringUpConfig,
    r: Result<Peripherals<I2cBus, Delay>, BringUpError>,
)
    requires
        bringup_outcome(pre, post, cfg, r),
    ensures
        post.wifi_heap_initialized == pre.wifi_heap_initialized,
        post.wifi_initialized == pre.wifi_initialized,
{
}

/// A wireless bring-up whose stack reported failure never returns a bundle:
/// whatever the chip state, the call ends in an error.
pub proof fn lemma_wifi_failure_yields_no_bundle(
    pre: Chip,
    post: Chip,
    cfg: BringUpConfig,
    r: Result<Peripherals<I2cBus, Delay>, BringUpError>,
)
    requires
        wifi_bringup_outcome(pre, post, cfg, WifiInitOutcome::Failure, r),
    ensures
        r is Err,
        post.wifi_initialized == pre.wifi_initialized,
{
}

} // verus!
