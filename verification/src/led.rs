//! LED facade: fixed active-low wiring over an output pin.

use vstd::prelude::*;
use crate::gpio::{
    GpioRegisters, OutputMode, Pin, WiredAndPullUp, ins_eq, modes_eq, outs_eq_except, PORT_A,
    PORT_B,
};

verus! {

/// One LED over an output pin, wired active low: on drives the pin low, off
/// drives it high.
pub struct LED<T>(T);

/// Common behaviour of the board's LEDs, hiding the active-low polarity from
/// callers.
pub trait LedTrait {
    /// The port of the pin the LED is wired to.
    spec fn led_port(&self) -> u8;

    /// The bit of the pin the LED is wired to.
    spec fn led_bit(&self) -> u8;

    /// The LED names a modelled pin location.
    spec fn wf(&self) -> bool;

    /// Turns the LED on by driving its pin low.
    fn on(&mut self, regs: &mut GpioRegisters)
        requires
            old(self).wf(),
        ensures
            final(self).led_port() == old(self).led_port(),
            final(self).led_bit() == old(self).led_bit(),
            final(self).wf() == old(self).wf(),
            final(regs).out_bit(old(self).led_port(), old(self).led_bit()) == false,
            outs_eq_except(*old(regs), *final(regs), old(self).led_port(), old(self).led_bit()),
            modes_eq(*old(regs), *final(regs)),
            ins_eq(*old(regs), *final(regs)),
    ;

    /// Turns the LED off by driving its pin high.
    fn off(&mut self, regs: &mut GpioRegisters)
        requires
            old(self).wf(),
        ensures
            final(self).led_port() == old(self).led_port(),
            final(self).led_bit() == old(self).led_bit(),
            final(self).wf() == old(self).wf(),
            final(regs).out_bit(old(self).led_port(), old(self).led_bit()) == true,
            outs_eq_except(*old(regs), *final(regs), old(self).led_port(), old(self).led_bit()),
            modes_eq(*old(regs), *final(regs)),
            ins_eq(*old(regs), *final(regs)),
    ;

    /// Inverts the LED by toggling its pin.
    fn toggle(&mut self, regs: &mut GpioRegisters)
        requires
            old(self).wf(),
        ensures
            final(self).led_port() == old(self).led_port(),
            final(self).led_bit() == old(self).led_bit(),
            final(self).wf() == old(self).wf(),
            final(regs).out_bit(old(self).led_port(), old(self).led_bit()) == !old(regs).out_bit(
                old(self).led_port(),
                old(self).led_bit(),
            ),
            outs_eq_except(*old(regs), *final(regs), old(self).led_port(), old(self).led_bit()),
            modes_eq(*old(regs), *final(regs)),
            ins_eq(*old(regs), *final(regs)),
    ;
}

impl<MODE: OutputMode> LedTrait for LED<Pin<MODE>> {
    closed spec fn led_port(&self) -> u8 {
        self.0.port_id()
    }

    closed spec fn led_bit(&self) -> u8 {
        self.0.bit_id()
    }

    closed spec fn wf(&self) -> bool {
        self.0.valid()
    }

    fn on(&mut self, regs: &mut GpioRegisters) {
        self.0.set_low(regs);
    }

    fn off(&mut self, regs: &mut GpioRegisters) {
        self.0.set_high(regs);
    }

    fn toggle(&mut self, regs: &mut GpioRegisters) {
        self.0.toggle(regs);
    }
}

/// The board's two LEDs. The green LED sits on pin A0, the red LED on pin
/// B7, both open-drain with pull-up.
pub struct LEDs {
    pub green: LED<Pin<WiredAndPullUp>>,
    pub red: LED<Pin<WiredAndPullUp>>,
}

impl LEDs {
    /// The LEDs sit on their wired pins.
    pub open spec fn wf(self) -> bool {
        &&& self.green.wf() && self.green.led_port() == PORT_A && self.green.led_bit() == 0
        &&& self.red.wf() && self.red.led_port() == PORT_B && self.red.led_bit() == 7
    }

    /// Takes ownership of the two LED pins.
    pub fn new(green: Pin<WiredAndPullUp>, red: Pin<WiredAndPullUp>) -> (r: LEDs)
        requires
            green.is_pin(PORT_A, 0),
            red.is_pin(PORT_B, 7),
        ensures
            r.wf(),
    {
        LEDs { green: LED(green), red: LED(red) }
    }
}

} // verus!
