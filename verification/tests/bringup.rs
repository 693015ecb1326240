use bringup::chip::{Chip, RawPeripherals, TimerGroupId, WdtState};
use bringup::clock::{ClockControl, Clocks, CpuClock};
use bringup::delay::Delay;
use bringup::esp32::{
    get_peripherals, get_peripherals_with_wifi, BringUpConfig, BringUpError, WatchdogConfig,
    I2C_BUS_RATE_KHZ,
};
use bringup::gpio::{bus_capable, line_exists};
use bringup::i2c::I2cBus;
use bringup::wifi::WifiInitOutcome;
use bringup::Peripherals;

fn reference_config() -> BringUpConfig {
    BringUpConfig { sda: 21, scl: 22, watchdogs: WatchdogConfig::reference() }
}

fn frozen() -> Clocks {
    Clocks { cpu_clock_hz: 240_000_000, apb_clock_hz: 80_000_000, xtal_clock_hz: 40_000_000 }
}

#[test]
fn end_to_end_reference_board() {
    let mut chip = Chip::new();
    let bundle = get_peripherals(&mut chip, reference_config()).expect("first bring-up succeeds");

    let bus = bundle.into_i2c();
    assert_eq!(
        bus,
        I2cBus { sda: 21, scl: 22, frequency_hz: 400_000, clocks: frozen() }
    );
    assert_eq!(I2C_BUS_RATE_KHZ * 1000, bus.frequency_hz);
}

#[test]
fn bus_and_delay_share_one_clock_configuration() {
    let mut chip = Chip::new();
    let bundle = get_peripherals(&mut chip, reference_config()).expect("first bring-up succeeds");
    let i2c = bundle.i2c.expect("bus handle set");
    let delay = bundle.delay.expect("delay handle set");
    assert_eq!(i2c.clocks, delay.clocks);
    assert_eq!(i2c.clocks, frozen());
}

#[test]
fn delay_covers_the_requested_interval() {
    let mut chip = Chip::new();
    let bundle = get_peripherals(&mut chip, reference_config()).expect("first bring-up succeeds");
    let delay = bundle.into_delay();
    // At 240 MHz, one microsecond costs 240 cycles, so the budget of a
    // nominal wait converts back to at least the requested interval.
    let cycles = delay.cycles_for_micros(1000);
    assert_eq!(cycles, 240_000);
    assert!(cycles * 1_000_000 >= 1000u64 * 240_000_000);
}

#[test]
fn second_bringup_fails_fatally() {
    let mut chip = Chip::new();
    assert!(get_peripherals(&mut chip, reference_config()).is_ok());
    match get_peripherals(&mut chip, reference_config()) {
        Ok(_) => panic!("second bring-up must not produce a bundle"),
        Err(e) => assert_eq!(e, BringUpError::PeripheralsAlreadyTaken),
    }
}

#[test]
fn singleton_take_once() {
    let mut chip = Chip::new();
    assert!(RawPeripherals::take(&mut chip).is_some());
    assert!(RawPeripherals::take(&mut chip).is_none());
    assert!(RawPeripherals::take(&mut chip).is_none());
}

#[test]
fn reference_watchdog_policy_leaves_second_group_armed() {
    let mut chip = Chip::new();
    assert_eq!(chip.rtc_wdt, WdtState::Armed);
    assert_eq!(chip.timg0_wdt, WdtState::Armed);
    get_peripherals(&mut chip, reference_config()).expect("first bring-up succeeds");
    assert_eq!(chip.rtc_wdt, WdtState::Disabled);
    assert_eq!(chip.timg0_wdt, WdtState::Disabled);
    assert_eq!(chip.timg1_wdt, WdtState::Armed);
    assert_eq!(chip.cpu_clock_hz, 240_000_000);
    assert_eq!(chip.sched_timer, Some(TimerGroupId::Group0));
}

#[test]
fn configured_watchdogs_are_all_disabled() {
    let mut chip = Chip::new();
    let cfg = BringUpConfig {
        sda: 21,
        scl: 22,
        watchdogs: WatchdogConfig { disable_rtc: true, disable_timg0: true, disable_timg1: true },
    };
    get_peripherals(&mut chip, cfg).expect("first bring-up succeeds");
    assert_eq!(chip.rtc_wdt, WdtState::Disabled);
    assert_eq!(chip.timg0_wdt, WdtState::Disabled);
    assert_eq!(chip.timg1_wdt, WdtState::Disabled);
}

#[test]
fn wireless_state_untouched_without_the_flag() {
    let mut chip = Chip::new();
    get_peripherals(&mut chip, reference_config()).expect("first bring-up succeeds");
    assert!(!chip.wifi_heap_initialized);
    assert!(!chip.wifi_initialized);
}

#[test]
fn wifi_bringup_succeeds_when_the_stack_does() {
    let mut chip = Chip::new();
    let bundle = get_peripherals_with_wifi(&mut chip, reference_config(), WifiInitOutcome::Success)
        .expect("bring-up with a healthy stack succeeds");
    assert!(chip.wifi_heap_initialized);
    assert!(chip.wifi_initialized);
    assert_eq!(bundle.into_i2c().sda, 21);
}

#[test]
fn injected_wifi_failure_is_fatal() {
    let mut chip = Chip::new();
    match get_peripherals_with_wifi(&mut chip, reference_config(), WifiInitOutcome::Failure) {
        Ok(_) => panic!("a failed wireless bootstrap must not produce a bundle"),
        Err(e) => assert_eq!(e, BringUpError::WifiInitFailed),
    }
    assert!(chip.taken);
    assert!(chip.wifi_heap_initialized);
    assert!(!chip.wifi_initialized);
}

#[test]
fn wifi_failure_still_consumes_the_singleton() {
    let mut chip = Chip::new();
    assert!(get_peripherals_with_wifi(&mut chip, reference_config(), WifiInitOutcome::Failure)
        .is_err());
    match get_peripherals_with_wifi(&mut chip, reference_config(), WifiInitOutcome::Success) {
        Ok(_) => panic!("second bring-up must not produce a bundle"),
        Err(e) => assert_eq!(e, BringUpError::PeripheralsAlreadyTaken),
    }
}

#[test]
fn pin_table_matches_the_chip() {
    for line in 0..=27u8 {
        assert!(bus_capable(line));
    }
    assert!(bus_capable(32));
    assert!(bus_capable(33));
    for line in 28..=31u8 {
        assert!(!bus_capable(line));
    }
    for line in 34..=40u8 {
        assert!(!bus_capable(line));
    }
}

#[test]
fn cpu_clock_classes() {
    assert_eq!(CpuClock::Clock80MHz.hz(), 80_000_000);
    assert_eq!(CpuClock::Clock160MHz.hz(), 160_000_000);
    assert_eq!(CpuClock::Clock240MHz.hz(), 240_000_000);
}

#[test]
fn clock_configuration_freezes_the_applied_rates() {
    let mut chip = Chip::new();
    assert_eq!(chip.cpu_clock_hz, 80_000_000);
    let p = RawPeripherals::take(&mut chip).expect("fresh chip");
    let system = p.dport.split();
    let clocks = ClockControl::configure(&mut chip, system.clock_control, CpuClock::Clock160MHz)
        .freeze();
    assert_eq!(chip.cpu_clock_hz, 160_000_000);
    assert_eq!(
        clocks,
        Clocks { cpu_clock_hz: 160_000_000, apb_clock_hz: 80_000_000, xtal_clock_hz: 40_000_000 }
    );
}

#[test]
fn delay_calibration_scales_with_the_cpu_clock() {
    let slow = Delay::new(&Clocks {
        cpu_clock_hz: 80_000_000,
        apb_clock_hz: 80_000_000,
        xtal_clock_hz: 40_000_000,
    });
    assert_eq!(slow.cycles_for_micros(5), 400);
    assert_eq!(slow.cycles_for_micros(0), 0);
}

#[test]
fn bundle_builder_sets_each_slot_once() {
    let bundle: Peripherals<u32, bool> = Peripherals::new();
    let bundle = bundle.i2c(7).delay(true);
    assert_eq!(bundle.i2c, Some(7));
    assert_eq!(bundle.delay, Some(true));
    let bundle = Peripherals::<u32, bool>::new().delay(false).i2c(9);
    assert_eq!(bundle.into_i2c(), 9);
}

#[test]
fn pin_existence_table() {
    assert!(line_exists(0));
    assert!(line_exists(27));
    assert!(!line_exists(28));
    assert!(!line_exists(31));
    assert!(line_exists(32));
    assert!(line_exists(39));
    assert!(!line_exists(40));
    // The input-only lines exist but cannot carry a bus signal.
    assert!(line_exists(34) && !bus_capable(34));
}
