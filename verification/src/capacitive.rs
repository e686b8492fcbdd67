//! Capacitive touch-pad buttons: per pad, one pull-down input pin (the sink)
//! and one open-drain output pin (the source).
//!
//! A press reads meaningfully only while the source pin is held high; after
//! `release`, readings are undefined until `hold` is called again.

use vstd::prelude::*;
use crate::gpio::{
    Disabled, GpioRegisters, InputPullDown, Pin, WiredAnd, C0, C1, E12, E13, MODE_INPUTPULL,
    MODE_WIREDAND, ins_eq, modes_eq, outs_eq_except, valid_pin, PORT_C, PORT_E,
};

verus! {

/// One touch pad: a sink pin that is read and a source pin that feeds it.
pub struct Button<Sink, Source> {
    sink: Sink,
    source: Source,
}

impl Button<Pin<InputPullDown>, Pin<WiredAnd>> {
    /// The port of the sink pin.
    pub closed spec fn sink_port(self) -> u8 {
        self.sink.port_id()
    }

    /// The bit of the sink pin.
    pub closed spec fn sink_bit(self) -> u8 {
        self.sink.bit_id()
    }

    /// The port of the source pin.
    pub closed spec fn source_port(self) -> u8 {
        self.source.port_id()
    }

    /// The bit of the source pin.
    pub closed spec fn source_bit(self) -> u8 {
        self.source.bit_id()
    }

    /// Both pins name modelled pin locations.
    pub open spec fn wf(self) -> bool {
        &&& valid_pin(self.sink_port(), self.sink_bit())
        &&& valid_pin(self.source_port(), self.source_bit())
    }

    /// Button state: true if pressed. Meaningful only between a `hold` and
    /// the next `release`.
    pub fn is_pressed(&self, regs: &GpioRegisters) -> (r: bool)
        requires
            self.wf(),
        ensures
            r == regs.in_bit(self.sink_port(), self.sink_bit()),
    {
        self.sink.is_high(regs)
    }

    /// Drives the source pin high so that presses can be read.
    pub fn hold(&mut self, regs: &mut GpioRegisters)
        requires
            old(self).wf(),
        ensures
            *final(self) == *old(self),
            final(regs).out_bit(old(self).source_port(), old(self).source_bit()) == true,
            outs_eq_except(
                *old(regs),
                *final(regs),
                old(self).source_port(),
                old(self).source_bit(),
            ),
            modes_eq(*old(regs), *final(regs)),
            ins_eq(*old(regs), *final(regs)),
    {
        self.source.set_high(regs);
    }

    /// Drives the source pin low; `is_pressed` is undefined until the next
    /// `hold`.
    pub fn release(&mut self, regs: &mut GpioRegisters)
        requires
            old(self).wf(),
        ensures
            *final(self) == *old(self),
            final(regs).out_bit(old(self).source_port(), old(self).source_bit()) == false,
            outs_eq_except(
                *old(regs),
                *final(regs),
                old(self).source_port(),
                old(self).source_bit(),
            ),
            modes_eq(*old(regs), *final(regs)),
            ins_eq(*old(regs), *final(regs)),
    {
        self.source.set_low(regs);
    }
}

/// The two capacitive buttons of the board: pad 0 pairs sink C0 with source
/// E12, pad 1 pairs sink C1 with source E13.
pub struct Capacitive {
    c0: Button<C0<InputPullDown>, E12<WiredAnd>>,
    c1: Button<C1<InputPullDown>, E13<WiredAnd>>,
}

/// Pins not named are unaffected by `Capacitive::new`: every mode-select
/// field other than the four button pins' is unchanged.
pub open spec fn button_pin(port: u8, bit: u8) -> bool {
    ||| port == PORT_C && bit == 0
    ||| port == PORT_C && bit == 1
    ||| port == PORT_E && bit == 12
    ||| port == PORT_E && bit == 13
}

impl Capacitive {
    /// The first button, as an abstract value.
    pub closed spec fn pad0(self) -> Button<C0<InputPullDown>, E12<WiredAnd>> {
        self.c0
    }

    /// The second button, as an abstract value.
    pub closed spec fn pad1(self) -> Button<C1<InputPullDown>, E13<WiredAnd>> {
        self.c1
    }

    /// The buttons sit on their wired pins.
    pub open spec fn wf(self) -> bool {
        &&& self.pad0().sink_port() == PORT_C && self.pad0().sink_bit() == 0
        &&& self.pad0().source_port() == PORT_E && self.pad0().source_bit() == 12
        &&& self.pad1().sink_port() == PORT_C && self.pad1().sink_bit() == 1
        &&& self.pad1().source_port() == PORT_E && self.pad1().source_bit() == 13
    }

    /// Wires the two buttons: configures the sinks as pull-down inputs and
    /// the sources as open-drain outputs, touching no other pin's mode.
    pub fn new(
        c0: C0<Disabled>,
        c1: C1<Disabled>,
        e12: E12<Disabled>,
        e13: E13<Disabled>,
        regs: &mut GpioRegisters,
    ) -> (r: Capacitive)
        requires
            c0.is_pin(PORT_C, 0),
            c1.is_pin(PORT_C, 1),
            e12.is_pin(PORT_E, 12),
            e13.is_pin(PORT_E, 13),
        ensures
            r.wf(),
            final(regs).mode_sel(PORT_C, 0) == MODE_INPUTPULL,
            final(regs).mode_sel(PORT_C, 1) == MODE_INPUTPULL,
            final(regs).mode_sel(PORT_E, 12) == MODE_WIREDAND,
            final(regs).mode_sel(PORT_E, 13) == MODE_WIREDAND,
            forall|p: u8, i: u8|
                valid_pin(p, i) && !button_pin(p, i) ==> old(regs).mode_sel(p, i)
                    == #[trigger] final(regs).mode_sel(p, i),
            final(regs).out_bit(PORT_C, 0) == false,
            final(regs).out_bit(PORT_C, 1) == false,
            forall|p: u8, i: u8|
                valid_pin(p, i) && !(p == PORT_C && (i == 0 || i == 1)) ==> old(regs).out_bit(p, i)
                    == #[trigger] final(regs).out_bit(p, i),
            ins_eq(*old(regs), *final(regs)),
    {
        let sink0 = c0.into_input_pull_down(regs);
        let sink1 = c1.into_input_pull_down(regs);
        let source0 = e12.into_output_open_drain(regs);
        let source1 = e13.into_output_open_drain(regs);
        Capacitive {
            c0: Button { sink: sink0, source: source0 },
            c1: Button { sink: sink1, source: source1 },
        }
    }

    /// Mutably borrows the first button (pad 0, on the right).
    pub fn cap0(&mut self) -> (r: &mut Button<C0<InputPullDown>, E12<WiredAnd>>)
        ensures
            *r == old(self).pad0(),
            final(self).pad0() == *final(r),
            final(self).pad1() == old(self).pad1(),
    {
        &mut self.c0
    }

    /// Mutably borrows the second button (pad 1, on the left).
    pub fn cap1(&mut self) -> (r: &mut Button<C1<InputPullDown>, E13<WiredAnd>>)
        ensures
            *r == old(self).pad1(),
            final(self).pad1() == *final(r),
            final(self).pad0() == old(self).pad0(),
    {
        &mut self.c1
    }
}

} // verus!
