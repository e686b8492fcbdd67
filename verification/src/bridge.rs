//! Interrupt / main-loop exchange for the sensing engine.
//!
//! Every handle shared between the main loop and the reference timer's
//! overflow interrupt lives in a single-slot cell of the [`Bridge`]: the
//! comparator, the two timers, the GPIO register model the LEDs drive, and
//! the LED handles, beside the engine state itself. Setup deposits the
//! handles exactly once; afterwards each execution context works on the
//! bridge only for the duration of its own critical section. The caller is
//! responsible for masking interrupts around every access — the model
//! carries the data discipline, not the masking itself. Likewise, the
//! capture timer's modelled counter stands for what the hardware counted in
//! the scan window that just ended: the runtime glue copies the hardware
//! counter in before it invokes the handler.

use vstd::prelude::*;
use crate::capsense::{
    measure_stop, spec_cycle, spec_touched, Comparator, Engine, Timer,
};
use crate::gpio::{ins_eq, modes_eq, outs_eq_except, GpioRegisters};
use crate::led::{LEDs, LedTrait};

verus! {

/// The shared slots: `None` is an empty cell. All cells are filled together
/// by [`Bridge::deposit`] and stay filled.
pub struct Bridge {
    pub acmp: Option<Comparator>,
    pub capture: Option<Timer>,
    pub reference: Option<Timer>,
    pub gpio: Option<GpioRegisters>,
    pub leds: Option<LEDs>,
    pub engine: Engine,
}

impl Bridge {
    /// The engine state is well-formed, and so is whatever has been
    /// deposited.
    pub open spec fn wf(self) -> bool {
        &&& self.engine.wf()
        &&& (self.acmp is Some ==> self.acmp->0.wf())
        &&& (self.leds is Some ==> self.leds->0.wf())
    }

    /// All cells are filled: the overflow handler has everything it needs.
    pub open spec fn is_ready(self) -> bool {
        &&& self.acmp is Some
        &&& self.capture is Some
        &&& self.reference is Some
        &&& self.gpio is Some
        &&& self.leds is Some
    }

    /// An empty bridge with a fresh engine.
    pub fn new() -> (r: Bridge)
        ensures
            r.wf(),
            !r.is_ready(),
            r.acmp is None,
            r.capture is None,
            r.reference is None,
            r.gpio is None,
            r.leds is None,
            r.engine == (Engine {
                ch: 1,
                count_max0: 0,
                count_max1: 0,
                touch: 0,
                present: 0,
                since_last_touch: 0,
            }),
    {
        Bridge {
            acmp: None,
            capture: None,
            reference: None,
            gpio: None,
            leds: None,
            engine: Engine::new(),
        }
    }

    /// One-time hand-off: setup deposits every shared handle into its cell.
    /// Each cell accepts a value only while empty.
    pub fn deposit(
        &mut self,
        acmp: Comparator,
        capture: Timer,
        reference: Timer,
        gpio: GpioRegisters,
        leds: LEDs,
    )
        requires
            old(self).acmp is None,
            old(self).capture is None,
            old(self).reference is None,
            old(self).gpio is None,
            old(self).leds is None,
            old(self).engine.wf(),
            acmp.wf(),
            leds.wf(),
        ensures
            final(self).wf(),
            final(self).is_ready(),
            final(self).acmp == Some(acmp),
            final(self).capture == Some(capture),
            final(self).reference == Some(reference),
            final(self).gpio == Some(gpio),
            final(self).leds is Some,
            final(self).leds->0.wf(),
            final(self).engine == old(self).engine,
    {
        self.acmp = Some(acmp);
        self.capture = Some(capture);
        self.reference = Some(reference);
        self.gpio = Some(gpio);
        self.leds = Some(leds);
    }

    /// The overflow interrupt handler: performs one full
    /// armed-to-captured-to-rearmed transition inside the caller's critical
    /// section. If the cells have not been deposited yet, it does nothing.
    ///
    /// With all handles present it stops both timers, clears the reference
    /// timer's overflow flag, reads the captured count, runs the engine's
    /// baseline / touch / debounce update, drives the measured channel's LED
    /// (on exactly when the channel read as touched, active low), flips the
    /// channel, reprograms the comparator's channel select, zeroes both
    /// counters and restarts both timers.
    pub fn on_reference_overflow(&mut self)
        requires
            old(self).wf(),
        ensures
            final(self).wf(),
            !old(self).is_ready() ==> *final(self) == *old(self),
            old(self).is_ready() ==> {
                let e0 = old(self).engine;
                let cnt = old(self).capture->0.count;
                let t = spec_touched(e0.count_max(e0.ch), cnt);
                let leds0 = old(self).leds->0;
                let g0 = old(self).gpio->0;
                let g1 = final(self).gpio->0;
                let driven_port = if e0.ch == 0 {
                    leds0.green.led_port()
                } else {
                    leds0.red.led_port()
                };
                let driven_bit = if e0.ch == 0 {
                    leds0.green.led_bit()
                } else {
                    leds0.red.led_bit()
                };
                &&& final(self).is_ready()
                &&& final(self).engine == spec_cycle(e0, cnt)
                &&& final(self).acmp->0.channel == final(self).engine.ch
                &&& final(self).acmp->0.enabled == old(self).acmp->0.enabled
                &&& final(self).acmp->0.capsense_negsel == old(self).acmp->0.capsense_negsel
                &&& final(self).acmp->0.ready == old(self).acmp->0.ready
                &&& final(self).capture->0.running && final(self).capture->0.count == 0
                &&& final(self).capture->0.overflow_flag == old(self).capture->0.overflow_flag
                &&& Timer::same_config(old(self).capture->0, final(self).capture->0)
                &&& final(self).reference->0.running && final(self).reference->0.count == 0
                &&& final(self).reference->0.overflow_flag == false
                &&& Timer::same_config(old(self).reference->0, final(self).reference->0)
                &&& final(self).leds->0.wf()
                &&& final(self).leds->0.green.led_port() == leds0.green.led_port()
                &&& final(self).leds->0.green.led_bit() == leds0.green.led_bit()
                &&& final(self).leds->0.red.led_port() == leds0.red.led_port()
                &&& final(self).leds->0.red.led_bit() == leds0.red.led_bit()
                &&& g1.out_bit(driven_port, driven_bit) == !t
                &&& outs_eq_except(g0, g1, driven_port, driven_bit)
                &&& modes_eq(g0, g1)
                &&& ins_eq(g0, g1)
            },
    {
        match (
            &mut self.acmp,
            &mut self.capture,
            &mut self.reference,
            &mut self.gpio,
            &mut self.leds,
        ) {
            (Some(acmp), Some(capture), Some(reference), Some(gpio), Some(leds)) => {
                let measured: u8 = self.engine.ch;
                let count = measure_stop(capture, reference);
                let touched = self.engine.update(count);
                if measured == 0 {
                    if touched {
                        leds.green.on(gpio);
                    } else {
                        leds.green.off(gpio);
                    }
                } else {
                    if touched {
                        leds.red.on(gpio);
                    } else {
                        leds.red.off(gpio);
                    }
                }
                self.engine.measure_start(acmp, capture, reference);
            },
            _ => {},
        }
    }
}

} // verus!
