//! One-time setup: claim the device, wire the LEDs and the touch buttons,
//! and hand the rest of the blocks out for further configuration.

use vstd::prelude::*;
use crate::capacitive::Capacitive;
use crate::capsense::{Comparator, Prs, Timer};
use crate::cmu::Cmu;
use crate::efm32hg;
use crate::gpio::{
    valid_pin, Disabled, GpioExt, GpioRegisters, Parts, B8, B11, B13, B14, C14, C15, F0, F1, F2,
    MODE_DISABLED, MODE_INPUTPULL, MODE_WIREDAND, MODE_WIREDANDPULLUP, PORT_A, PORT_B, PORT_C,
    PORT_E, PORT_F,
};
use crate::led::LEDs;
use crate::rtc::RtcRegisters;
use crate::watchdog::Watchdog;

verus! {

/// The pins that stay free after the board's fixed wiring is set up.
pub struct FreePins {
    pub b8: B8<Disabled>,
    pub b11: B11<Disabled>,
    pub b13: B13<Disabled>,
    pub b14: B14<Disabled>,
    pub c14: C14<Disabled>,
    pub c15: C15<Disabled>,
    pub f0: F0<Disabled>,
    pub f1: F1<Disabled>,
    pub f2: F2<Disabled>,
}

impl FreePins {
    /// Each pin value names its physical pin.
    pub open spec fn wf(self) -> bool {
        &&& self.b8.is_pin(PORT_B, 8)
        &&& self.b11.is_pin(PORT_B, 11)
        &&& self.b13.is_pin(PORT_B, 13)
        &&& self.b14.is_pin(PORT_B, 14)
        &&& self.c14.is_pin(PORT_C, 14)
        &&& self.c15.is_pin(PORT_C, 15)
        &&& self.f0.is_pin(PORT_F, 0)
        &&& self.f1.is_pin(PORT_F, 1)
        &&& self.f2.is_pin(PORT_F, 2)
    }
}

/// The mode-select map right after [`take`]: LED pins open-drain with
/// pull-up, button sinks pulled-down inputs, button sources open-drain,
/// everything else still disabled.
pub open spec fn boot_mode_sel(port: u8, bit: u8) -> u32 {
    if port == PORT_A && bit == 0 {
        MODE_WIREDANDPULLUP
    } else if port == PORT_B && bit == 7 {
        MODE_WIREDANDPULLUP
    } else if port == PORT_C && (bit == 0 || bit == 1) {
        MODE_INPUTPULL
    } else if port == PORT_E && (bit == 12 || bit == 13) {
        MODE_WIREDAND
    } else {
        MODE_DISABLED
    }
}

/// Everything the board offers once set up.
pub struct Peripherals {
    /// The GPIO register model every pin, LED and button operation works
    /// on.
    pub regs: GpioRegisters,
    /// The pins the fixed wiring leaves free.
    pub gpio: FreePins,
    /// The watchdog, still running as the bootloader left it.
    pub watchdog: Watchdog,
    /// The two LEDs.
    pub led: LEDs,
    /// The two capacitive buttons.
    pub touch: Capacitive,
    /// The remaining blocks, for the sensing engine and the counter.
    pub cmu: Cmu,
    pub rtc: RtcRegisters,
    pub acmp0: Comparator,
    pub timer0: Timer,
    pub timer1: Timer,
    pub prs: Prs,
}

impl Peripherals {
    pub open spec fn wf(self) -> bool {
        &&& self.gpio.wf()
        &&& self.led.wf()
        &&& self.touch.wf()
    }
}

/// Claims the device once and performs the board's fixed wiring: enables
/// the GPIO clock, configures the LED pins active-low open-drain with
/// pull-up and the touch pads' sink and source pins, and leaves every other
/// pin disabled with all data bits low. A second call fails.
pub fn take(taken: &mut bool) -> (r: Option<Peripherals>)
    ensures
        *final(taken) == true,
        *old(taken) ==> r is None,
        !*old(taken) ==> r is Some && {
            let p = r->0;
            &&& p.wf()
            &&& forall|port: u8, bit: u8|
                valid_pin(port, bit) ==> #[trigger] p.regs.mode_sel(port, bit) == boot_mode_sel(
                    port,
                    bit,
                )
            &&& forall|port: u8, bit: u8|
                valid_pin(port, bit) ==> #[trigger] p.regs.out_bit(port, bit) == false
            &&& forall|port: u8, bit: u8|
                valid_pin(port, bit) ==> #[trigger] p.regs.in_bit(port, bit) == false
            &&& p.cmu.gpio_clock == true
            &&& !p.cmu.acmp0_clock && !p.cmu.timer0_clock && !p.cmu.timer1_clock
                && !p.cmu.prs_clock && !p.cmu.le_clock && !p.cmu.lfrco_enabled && !p.cmu.rtc_clock
            &&& p.cmu.rtc_prescale_exp == 0
            &&& p.watchdog.ctrl() == 1 && p.watchdog.cmd() == 0
            &&& p.rtc.is_reset()
            &&& p.acmp0.is_reset()
            &&& p.timer0.is_reset()
            &&& p.timer1.is_reset()
            &&& p.prs.is_reset()
        },
{
    let dev = match efm32hg::Peripherals::take(taken) {
        Some(dev) => dev,
        None => {
            return None;
        },
    };
    proof {
        crate::gpio::lemma_zero_register();
    }
    let mut cmu = dev.CMU;
    let parts: Parts = dev.GPIO.split(&mut cmu);
    let Parts { regs, a0, b7, b8, b11, b13, b14, c0, c1, c14, c15, e12, e13, f0, f1, f2 } = parts;
    let mut regs = regs;
    let green = a0.into_output_open_drain_pull_up(&mut regs);
    let red = b7.into_output_open_drain_pull_up(&mut regs);
    let led = LEDs::new(green, red);
    let touch = Capacitive::new(c0, c1, e12, e13, &mut regs);
    Some(
        Peripherals {
            regs,
            gpio: FreePins { b8, b11, b13, b14, c14, c15, f0, f1, f2 },
            watchdog: Watchdog::new(dev.WDOG),
            led,
            touch,
            cmu,
            rtc: dev.RTC,
            acmp0: dev.ACMP0,
            timer0: dev.TIMER0,
            timer1: dev.TIMER1,
            prs: dev.PRS,
        },
    )
}

} // verus!
