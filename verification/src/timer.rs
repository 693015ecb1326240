//! Timer groups, watchdog disarming, and registration of a hardware timer
//! as the time source of the cooperative-scheduling substrate.

use vstd::prelude::*;

use crate::chip::{Chip, RtcCntlBlock, TimerGroupId, TimgBlock, WdtState};
use crate::clock::Clocks;

verus! {

/// One hardware timer of a timer group.
pub struct HwTimer {
    /// The timer group this timer belongs to.
    pub group: TimerGroupId,
}

/// The watchdog unit of a timer group.
pub struct TimerWdt {
    /// The timer group this watchdog belongs to.
    pub group: TimerGroupId,
}

/// A timer-group register block split into its first timer and its
/// watchdog unit.
pub struct TimerGroup {
    pub timer0: HwTimer,
    pub wdt: TimerWdt,
}

impl TimerGroup {
    /// Splits a timer-group block into its parts. Borrows the frozen clocks
    /// because the group's prescalers are derived from the peripheral bus
    /// clock.
    pub fn new(block: TimgBlock, _clocks: &Clocks) -> (r: TimerGroup)
        ensures
            r.timer0.group == block.group,
            r.wdt.group == block.group,
    {
        let group = block.group;
        TimerGroup { timer0: HwTimer { group }, wdt: TimerWdt { group } }
    }
}

impl TimerWdt {
    /// Disarms this timer group's watchdog unit, leaving the rest of the
    /// chip untouched.
    pub fn disable(&self, chip: &mut Chip)
        ensures
            self.group is Group0 ==> *final(chip) == (Chip {
                timg0_wdt: WdtState::Disabled,
                ..*old(chip)
            }),
            self.group is Group1 ==> *final(chip) == (Chip {
                timg1_wdt: WdtState::Disabled,
                ..*old(chip)
            }),
    {
        match self.group {
            TimerGroupId::Group0 => chip.timg0_wdt = WdtState::Disabled,
            TimerGroupId::Group1 => chip.timg1_wdt = WdtState::Disabled,
        }
    }
}

/// The real-time-clock watchdog unit.
pub struct RtcWatchdog {}

/// The real-time-clock control block, owning its watchdog unit.
pub struct Rtc {
    pub rwdt: RtcWatchdog,
}

impl Rtc {
    /// Claims the real-time-clock control block.
    pub fn new(_block: RtcCntlBlock) -> (r: Rtc) {
        Rtc { rwdt: RtcWatchdog {} }
    }
}

impl RtcWatchdog {
    /// Disarms the real-time-clock watchdog, leaving the rest of the chip
    /// untouched.
    pub fn disable(&self, chip: &mut Chip)
        ensures
            *final(chip) == (Chip { rtc_wdt: WdtState::Disabled, ..*old(chip) }),
    {
        chip.rtc_wdt = WdtState::Disabled;
    }
}

/// Registers a hardware timer as the time source driving the process's
/// suspend/resume scheduling substrate.
///
/// Must happen exactly once, after the clocks are frozen: it borrows the
/// frozen configuration and consumes the timer, and a chip that already has
/// a scheduling timer cannot be given a second one.
pub fn init_scheduler_timer(chip: &mut Chip, _clocks: &Clocks, timer: HwTimer)
    requires
        old(chip).sched_timer is None,
    ensures
        *final(chip) == (Chip { sched_timer: Some(timer.group), ..*old(chip) }),
{
    chip.sched_timer = Some(timer.group);
}

} // verus!
