//! The device's peripheral bundle: one model per peripheral block this
//! board-support layer programs, handed out at most once per run.

use vstd::prelude::*;
use crate::capsense::{Comparator, Prs, Timer};
use crate::cmu::Cmu;
use crate::gpio::GpioRegisters;
use crate::rtc::RtcRegisters;
use crate::tomu::Tomu;
use crate::watchdog::WdogRegisters;

verus! {

/// The peripheral blocks of the device that this layer models.
#[allow(non_snake_case)]
pub struct Peripherals {
    pub CMU: Cmu,
    pub GPIO: GpioRegisters,
    pub WDOG: WdogRegisters,
    pub RTC: RtcRegisters,
    pub ACMP0: Comparator,
    pub TIMER0: Timer,
    pub TIMER1: Timer,
    pub PRS: Prs,
}

impl Peripherals {
    /// The state in which the bootloader hands the device over: every
    /// modelled block in reset, except the watchdog, which arrives running.
    pub open spec fn is_boot(self) -> bool {
        &&& self.CMU.is_reset()
        &&& self.GPIO.is_reset()
        &&& self.WDOG.is_boot()
        &&& self.RTC.is_reset()
        &&& self.ACMP0.is_reset()
        &&& self.TIMER0.is_reset()
        &&& self.TIMER1.is_reset()
        &&& self.PRS.is_reset()
    }

    /// The one-time ownership gate. The caller holds the process-wide
    /// `taken` flag (a static cell in the runtime glue); the first call
    /// claims the bundle and marks the flag, every later call fails.
    pub fn take(taken: &mut bool) -> (r: Option<Peripherals>)
        ensures
            *final(taken) == true,
            *old(taken) ==> r is None,
            !*old(taken) ==> r is Some && r->0.is_boot(),
    {
        if *taken {
            None
        } else {
            *taken = true;
            Some(
                Peripherals {
                    CMU: Cmu::reset(),
                    GPIO: GpioRegisters::reset(),
                    WDOG: WdogRegisters::boot(),
                    RTC: RtcRegisters::reset(),
                    ACMP0: Comparator::reset(),
                    TIMER0: Timer::reset(),
                    TIMER1: Timer::reset(),
                    PRS: Prs::reset(),
                },
            )
        }
    }

    /// Wires the bundle into the board facade.
    pub fn constrain(self) -> (r: Tomu)
        ensures
            r.wf(),
            r.from_blocks(self.CMU, self.WDOG, self.GPIO),
    {
        Tomu::from(self)
    }
}

} // verus!
