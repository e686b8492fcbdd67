//! Board facade: the LED pins wired up, the watchdog handle, and the pins
//! the board leaves free.

use vstd::prelude::*;
use crate::cmu::Cmu;
use crate::gpio::{
    ins_eq, outs_eq, valid_pin, Disabled, GpioExt, GpioRegisters, Parts, B8, B11, B13, B14, C0,
    C1, C14, C15, E12, E13, F0, F1, F2, MODE_WIREDANDPULLUP, PORT_A, PORT_B, PORT_C, PORT_E,
    PORT_F,
};
use crate::led::LEDs;
use crate::watchdog::{Watchdog, WdogRegisters};

verus! {

/// The pins the board leaves unassigned, still disabled.
pub struct TomuFreeGPIO {
    pub pb8: B8<Disabled>,
    pub pb11: B11<Disabled>,
    pub pb13: B13<Disabled>,
    pub pb14: B14<Disabled>,
    pub pc0: C0<Disabled>,
    pub pc1: C1<Disabled>,
    pub pc14: C14<Disabled>,
    pub pc15: C15<Disabled>,
    pub pe12: E12<Disabled>,
    pub pe13: E13<Disabled>,
    pub pf0: F0<Disabled>,
    pub pf1: F1<Disabled>,
    pub pf2: F2<Disabled>,
}

impl TomuFreeGPIO {
    /// Each pin value names its physical pin.
    pub open spec fn wf(self) -> bool {
        &&& self.pb8.is_pin(PORT_B, 8)
        &&& self.pb11.is_pin(PORT_B, 11)
        &&& self.pb13.is_pin(PORT_B, 13)
        &&& self.pb14.is_pin(PORT_B, 14)
        &&& self.pc0.is_pin(PORT_C, 0)
        &&& self.pc1.is_pin(PORT_C, 1)
        &&& self.pc14.is_pin(PORT_C, 14)
        &&& self.pc15.is_pin(PORT_C, 15)
        &&& self.pe12.is_pin(PORT_E, 12)
        &&& self.pe13.is_pin(PORT_E, 13)
        &&& self.pf0.is_pin(PORT_F, 0)
        &&& self.pf1.is_pin(PORT_F, 1)
        &&& self.pf2.is_pin(PORT_F, 2)
    }
}

/// The assembled board: clock state, the GPIO register model, the free
/// pins, the two LEDs and the watchdog.
pub struct Tomu {
    pub cmu: Cmu,
    pub regs: GpioRegisters,
    pub gpio: TomuFreeGPIO,
    pub leds: LEDs,
    pub watchdog: Watchdog,
}

impl Tomu {
    pub open spec fn wf(self) -> bool {
        &&& self.leds.wf()
        &&& self.gpio.wf()
    }

    /// How the assembled board relates to the blocks it was built from: the
    /// GPIO clock is on, the two LED pins are open-drain with pull-up, no
    /// other pin's mode or data changed, and the watchdog block is owned
    /// unchanged.
    pub open spec fn from_blocks(self, cmu: Cmu, wdog: WdogRegisters, gpio: GpioRegisters) -> bool {
        &&& self.cmu.gpio_clock == true
        &&& self.cmu.acmp0_clock == cmu.acmp0_clock
        &&& self.cmu.timer0_clock == cmu.timer0_clock
        &&& self.cmu.timer1_clock == cmu.timer1_clock
        &&& self.cmu.prs_clock == cmu.prs_clock
        &&& self.cmu.le_clock == cmu.le_clock
        &&& self.cmu.lfrco_enabled == cmu.lfrco_enabled
        &&& self.cmu.rtc_clock == cmu.rtc_clock
        &&& self.cmu.rtc_prescale_exp == cmu.rtc_prescale_exp
        &&& self.regs.mode_sel(PORT_A, 0) == MODE_WIREDANDPULLUP
        &&& self.regs.mode_sel(PORT_B, 7) == MODE_WIREDANDPULLUP
        &&& forall|p: u8, i: u8|
            valid_pin(p, i) && !(p == PORT_A && i == 0) && !(p == PORT_B && i == 7)
                ==> gpio.mode_sel(p, i) == #[trigger] self.regs.mode_sel(p, i)
        &&& outs_eq(gpio, self.regs)
        &&& ins_eq(gpio, self.regs)
        &&& self.watchdog.ctrl() == wdog.ctrl
        &&& self.watchdog.cmd() == wdog.cmd
    }

    /// Assembles the board from its blocks: enables the GPIO clock, splits
    /// the pins, wires the two LED pins open-drain with pull-up, and takes
    /// over the watchdog.
    pub fn from_parts(cmu: Cmu, wdog: WdogRegisters, gpio: GpioRegisters) -> (r: Tomu)
        ensures
            r.wf(),
            r.from_blocks(cmu, wdog, gpio),
    {
        let mut cmu = cmu;
        let parts: Parts = gpio.split(&mut cmu);
        let Parts { regs, a0, b7, b8, b11, b13, b14, c0, c1, c14, c15, e12, e13, f0, f1, f2 } =
            parts;
        let mut regs = regs;
        let green = a0.into_output_open_drain_pull_up(&mut regs);
        let red = b7.into_output_open_drain_pull_up(&mut regs);
        Tomu {
            cmu,
            regs,
            gpio: TomuFreeGPIO {
                pb8: b8,
                pb11: b11,
                pb13: b13,
                pb14: b14,
                pc0: c0,
                pc1: c1,
                pc14: c14,
                pc15: c15,
                pe12: e12,
                pe13: e13,
                pf0: f0,
                pf1: f1,
                pf2: f2,
            },
            leds: LEDs::new(green, red),
            watchdog: Watchdog::new(wdog),
        }
    }

    /// Assembles the board from the full peripheral bundle, leaving the
    /// blocks the facade does not use behind.
    pub fn from(p: crate::efm32hg::Peripherals) -> (r: Tomu)
        ensures
            r.wf(),
            r.from_blocks(p.CMU, p.WDOG, p.GPIO),
    {
        Tomu::from_parts(p.CMU, p.WDOG, p.GPIO)
    }
}

} // verus!
