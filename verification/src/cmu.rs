//! Model of the clock-management block, reduced to the enable bits and the
//! low-frequency prescaler field that this board-support layer programs.

use vstd::prelude::*;

verus! {

/// Clock-management state. Each field models one register field: the
/// high-frequency peripheral clock enables, the low-energy interface clock
/// enable, the low-frequency oscillator enable, the low-frequency A clock
/// enable for the real-time counter, and its prescaler exponent.
pub struct Cmu {
    pub gpio_clock: bool,
    pub acmp0_clock: bool,
    pub timer0_clock: bool,
    pub timer1_clock: bool,
    pub prs_clock: bool,
    pub le_clock: bool,
    pub lfrco_enabled: bool,
    pub rtc_clock: bool,
    pub rtc_prescale_exp: u8,
}

impl Cmu {
    /// The prescaler field is four bits wide.
    pub open spec fn wf(self) -> bool {
        self.rtc_prescale_exp < 16
    }

    /// The reset state: every clock disabled, prescaler divide-by-one.
    pub open spec fn is_reset(self) -> bool {
        &&& !self.gpio_clock
        &&& !self.acmp0_clock
        &&& !self.timer0_clock
        &&& !self.timer1_clock
        &&& !self.prs_clock
        &&& !self.le_clock
        &&& !self.lfrco_enabled
        &&& !self.rtc_clock
        &&& self.rtc_prescale_exp == 0
    }

    /// A fresh clock-management model in reset state.
    pub fn reset() -> (r: Cmu)
        ensures
            r.is_reset(),
            r.wf(),
    {
        Cmu {
            gpio_clock: false,
            acmp0_clock: false,
            timer0_clock: false,
            timer1_clock: false,
            prs_clock: false,
            le_clock: false,
            lfrco_enabled: false,
            rtc_clock: false,
            rtc_prescale_exp: 0,
        }
    }
}

} // verus!
