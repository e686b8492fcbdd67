//! Real-time counter: a 24-bit counter clocked from the low-frequency
//! oscillator through a power-of-two prescaler, with a compare register
//! that can cap the count and pace periodic work.

use vstd::prelude::*;
use crate::cmu::Cmu;
use crate::time::{Seconds, Ticks};

verus! {

/// The low-frequency oscillator rate in ticks per second before prescaling.
pub const LFRCO_HZ: u32 = 32768;

/// The counter and compare registers are 24 bits wide.
pub const RTC_COUNTER_RANGE: u32 = 0x100_0000;

/// Model of the real-time counter block: the control-register fields, the
/// counter and the first compare register.
pub struct RtcRegisters {
    pub ctrl_en: bool,
    pub ctrl_debugrun: bool,
    pub ctrl_comp0top: bool,
    pub cnt: u32,
    pub comp0: u32,
}

impl RtcRegisters {
    /// Counter and compare values fit their 24-bit registers.
    pub open spec fn wf(self) -> bool {
        self.cnt < RTC_COUNTER_RANGE && self.comp0 < RTC_COUNTER_RANGE
    }

    /// The reset state of the block.
    pub open spec fn is_reset(self) -> bool {
        &&& !self.ctrl_en
        &&& !self.ctrl_debugrun
        &&& !self.ctrl_comp0top
        &&& self.cnt == 0
        &&& self.comp0 == 0
    }

    /// A fresh counter model in reset state.
    pub fn reset() -> (r: RtcRegisters)
        ensures
            r.is_reset(),
            r.wf(),
    {
        RtcRegisters {
            ctrl_en: false,
            ctrl_debugrun: false,
            ctrl_comp0top: false,
            cnt: 0,
            comp0: 0,
        }
    }
}

/// Control-register options of the counter.
#[derive(Clone, Copy)]
pub enum Ctrl {
    /// Keep the counter running while the core is halted by a debugger.
    DebugRun,
    /// Wrap the counter at the first compare value instead of at its full
    /// range.
    Comp0Top,
}

/// The control-register bit of one option.
pub open spec fn spec_ctrl_bit(c: Ctrl) -> u32 {
    match c {
        Ctrl::DebugRun => 2,
        Ctrl::Comp0Top => 4,
    }
}

fn ctrl_bit(c: Ctrl) -> (r: u32)
    ensures
        r == spec_ctrl_bit(c),
{
    match c {
        Ctrl::DebugRun => 2,
        Ctrl::Comp0Top => 4,
    }
}

/// Zero or more control options, combined into one register value.
pub trait CtrlTrait {
    /// The combined control-register bits.
    spec fn spec_bits(&self) -> u32;

    /// Computes the combined control-register bits.
    fn bits(self) -> (r: u32)
        ensures
            r == self.spec_bits(),
    ;
}

impl CtrlTrait for [Ctrl; 0] {
    open spec fn spec_bits(&self) -> u32 {
        0
    }

    fn bits(self) -> (r: u32) {
        0
    }
}

impl CtrlTrait for [Ctrl; 1] {
    open spec fn spec_bits(&self) -> u32 {
        spec_ctrl_bit(self[0])
    }

    fn bits(self) -> (r: u32) {
        ctrl_bit(self[0])
    }
}

impl CtrlTrait for [Ctrl; 2] {
    open spec fn spec_bits(&self) -> u32 {
        spec_ctrl_bit(self[0]) | spec_ctrl_bit(self[1])
    }

    fn bits(self) -> (r: u32) {
        ctrl_bit(self[0]) | ctrl_bit(self[1])
    }
}

/// The prescaler divides the low-frequency clock by a power of two.
#[derive(Clone, Copy)]
pub enum Prescaler {
    Div1,
    Div2,
    Div4,
    Div8,
    Div16,
    Div32,
    Div64,
    Div128,
    Div256,
    Div512,
    Div1024,
    Div2048,
    Div4096,
    Div8192,
    Div16384,
    Div32768,
}

/// The prescaler-register exponent of a divider choice.
pub open spec fn spec_prescaler_exp(p: Prescaler) -> u8 {
    match p {
        Prescaler::Div1 => 0,
        Prescaler::Div2 => 1,
        Prescaler::Div4 => 2,
        Prescaler::Div8 => 3,
        Prescaler::Div16 => 4,
        Prescaler::Div32 => 5,
        Prescaler::Div64 => 6,
        Prescaler::Div128 => 7,
        Prescaler::Div256 => 8,
        Prescaler::Div512 => 9,
        Prescaler::Div1024 => 10,
        Prescaler::Div2048 => 11,
        Prescaler::Div4096 => 12,
        Prescaler::Div8192 => 13,
        Prescaler::Div16384 => 14,
        Prescaler::Div32768 => 15,
    }
}

fn prescaler_exp(p: Prescaler) -> (r: u8)
    ensures
        r == spec_prescaler_exp(p),
        r < 16,
{
    match p {
        Prescaler::Div1 => 0,
        Prescaler::Div2 => 1,
        Prescaler::Div4 => 2,
        Prescaler::Div8 => 3,
        Prescaler::Div16 => 4,
        Prescaler::Div32 => 5,
        Prescaler::Div64 => 6,
        Prescaler::Div128 => 7,
        Prescaler::Div256 => 8,
        Prescaler::Div512 => 9,
        Prescaler::Div1024 => 10,
        Prescaler::Div2048 => 11,
        Prescaler::Div4096 => 12,
        Prescaler::Div8192 => 13,
        Prescaler::Div16384 => 14,
        Prescaler::Div32768 => 15,
    }
}

/// The divisor selected by a prescaler exponent.
pub open spec fn spec_divisor(exp: u8) -> u32 {
    if exp == 0 {
        1
    } else if exp == 1 {
        2
    } else if exp == 2 {
        4
    } else if exp == 3 {
        8
    } else if exp == 4 {
        16
    } else if exp == 5 {
        32
    } else if exp == 6 {
        64
    } else if exp == 7 {
        128
    } else if exp == 8 {
        256
    } else if exp == 9 {
        512
    } else if exp == 10 {
        1024
    } else if exp == 11 {
        2048
    } else if exp == 12 {
        4096
    } else if exp == 13 {
        8192
    } else if exp == 14 {
        16384
    } else {
        32768
    }
}

fn divisor(exp: u8) -> (r: u32)
    requires
        exp < 16,
    ensures
        r == spec_divisor(exp),
        1 <= r <= LFRCO_HZ,
{
    if exp == 0 {
        1
    } else if exp == 1 {
        2
    } else if exp == 2 {
        4
    } else if exp == 3 {
        8
    } else if exp == 4 {
        16
    } else if exp == 5 {
        32
    } else if exp == 6 {
        64
    } else if exp == 7 {
        128
    } else if exp == 8 {
        256
    } else if exp == 9 {
        512
    } else if exp == 10 {
        1024
    } else if exp == 11 {
        2048
    } else if exp == 12 {
        4096
    } else if exp == 13 {
        8192
    } else if exp == 14 {
        16384
    } else {
        32768
    }
}

/// Counter ticks per second under the clock-management block's current
/// prescaler setting.
pub open spec fn spec_tick_rate(cmu: Cmu) -> int {
    LFRCO_HZ as int / spec_divisor(cmu.rtc_prescale_exp) as int
}

/// A count of raw counter ticks, ready to program into the compare
/// register.
pub struct TimeUnit(pub u32);

impl TimeUnit {
    /// A tick count taken verbatim.
    pub fn from_ticks(c: Ticks<u32>) -> (r: TimeUnit)
        ensures
            r.0 == c.0,
    {
        TimeUnit(c.0)
    }

    /// A duration in seconds converted at the prescaled tick rate.
    pub fn from_seconds(c: Seconds<u32>, cmu: &Cmu) -> (r: TimeUnit)
        requires
            cmu.wf(),
            c.0 * spec_tick_rate(*cmu) <= u32::MAX,
        ensures
            r.0 == c.0 * spec_tick_rate(*cmu),
    {
        let d: u32 = divisor(cmu.rtc_prescale_exp);
        let rate: u32 = LFRCO_HZ / d;
        proof {
            assert(rate as int * c.0 as int == c.0 as int * rate as int) by (nonlinear_arith);
        }
        TimeUnit(rate * c.0)
    }
}

impl From<Ticks<u32>> for TimeUnit {
    fn from(c: Ticks<u32>) -> (r: TimeUnit) {
        TimeUnit(c.0)
    }
}

impl vstd::std_specs::convert::FromSpecImpl<Ticks<u32>> for TimeUnit {
    open spec fn obeys_from_spec() -> bool {
        true
    }

    open spec fn from_spec(c: Ticks<u32>) -> TimeUnit {
        TimeUnit(c.0)
    }
}

impl From<TimeUnit> for u32 {
    fn from(c: TimeUnit) -> (r: u32) {
        c.0
    }
}

impl vstd::std_specs::convert::FromSpecImpl<TimeUnit> for u32 {
    open spec fn obeys_from_spec() -> bool {
        true
    }

    open spec fn from_spec(c: TimeUnit) -> u32 {
        c.0
    }
}

/// Returned by [`RTC::wait`] while the programmed period has not elapsed
/// yet.
pub struct WouldBlock;

/// The real-time counter peripheral.
pub struct RTC;

impl RTC {
    /// A handle on the counter peripheral.
    pub fn new() -> RTC {
        RTC
    }

    /// Clocks the counter: enables the low-frequency oscillator and the
    /// low-energy interface, programs the prescaler, enables the counter
    /// clock, and writes the chosen control options. The counter itself
    /// stays disabled until [`RTC::enable`].
    pub fn setup<CT: CtrlTrait>(
        &mut self,
        cmu: &mut Cmu,
        regs: &mut RtcRegisters,
        presc: Prescaler,
        ctrl: CT,
    )
        ensures
            final(cmu).lfrco_enabled == true,
            final(cmu).le_clock == true,
            final(cmu).rtc_clock == true,
            final(cmu).rtc_prescale_exp == spec_prescaler_exp(presc),
            final(cmu).wf(),
            final(cmu).gpio_clock == old(cmu).gpio_clock,
            final(cmu).acmp0_clock == old(cmu).acmp0_clock,
            final(cmu).timer0_clock == old(cmu).timer0_clock,
            final(cmu).timer1_clock == old(cmu).timer1_clock,
            final(cmu).prs_clock == old(cmu).prs_clock,
            final(regs).ctrl_en == (ctrl.spec_bits() % 2 == 1),
            final(regs).ctrl_debugrun == ((ctrl.spec_bits() / 2) % 2 == 1),
            final(regs).ctrl_comp0top == ((ctrl.spec_bits() / 4) % 2 == 1),
            final(regs).cnt == old(regs).cnt,
            final(regs).comp0 == old(regs).comp0,
    {
        cmu.lfrco_enabled = true;
        cmu.le_clock = true;
        cmu.rtc_prescale_exp = prescaler_exp(presc);
        cmu.rtc_clock = true;
        let b: u32 = ctrl.bits();
        regs.ctrl_en = b % 2 == 1;
        regs.ctrl_debugrun = (b / 2) % 2 == 1;
        regs.ctrl_comp0top = (b / 4) % 2 == 1;
    }

    /// The usual configuration: no prescaling, counter capped at the first
    /// compare value.
    pub fn default_setup(&mut self, cmu: &mut Cmu, regs: &mut RtcRegisters)
        ensures
            final(cmu).lfrco_enabled == true,
            final(cmu).le_clock == true,
            final(cmu).rtc_clock == true,
            final(cmu).rtc_prescale_exp == 0,
            final(cmu).wf(),
            final(cmu).gpio_clock == old(cmu).gpio_clock,
            final(cmu).acmp0_clock == old(cmu).acmp0_clock,
            final(cmu).timer0_clock == old(cmu).timer0_clock,
            final(cmu).timer1_clock == old(cmu).timer1_clock,
            final(cmu).prs_clock == old(cmu).prs_clock,
            final(regs).ctrl_en == false,
            final(regs).ctrl_debugrun == false,
            final(regs).ctrl_comp0top == true,
            final(regs).cnt == old(regs).cnt,
            final(regs).comp0 == old(regs).comp0,
    {
        self.setup(cmu, regs, Prescaler::Div1, [Ctrl::Comp0Top]);
    }

    /// Starts the counter.
    pub fn enable(&mut self, regs: &mut RtcRegisters)
        ensures
            final(regs).ctrl_en == true,
            final(regs).ctrl_debugrun == old(regs).ctrl_debugrun,
            final(regs).ctrl_comp0top == old(regs).ctrl_comp0top,
            final(regs).cnt == old(regs).cnt,
            final(regs).comp0 == old(regs).comp0,
    {
        regs.ctrl_en = true;
    }

    /// Stops the counter.
    pub fn disable(&mut self, regs: &mut RtcRegisters)
        ensures
            final(regs).ctrl_en == false,
            final(regs).ctrl_debugrun == old(regs).ctrl_debugrun,
            final(regs).ctrl_comp0top == old(regs).ctrl_comp0top,
            final(regs).cnt == old(regs).cnt,
            final(regs).comp0 == old(regs).comp0,
    {
        regs.ctrl_en = false;
    }

    /// Reads the counter.
    pub fn get_counter(&self, regs: &RtcRegisters) -> (r: u32)
        ensures
            r == regs.cnt,
    {
        regs.cnt
    }

    /// Writes the counter; the register keeps the low 24 bits.
    pub fn set_counter(&mut self, regs: &mut RtcRegisters, c: u32)
        ensures
            final(regs).cnt == c % RTC_COUNTER_RANGE,
            final(regs).comp0 == old(regs).comp0,
            final(regs).ctrl_en == old(regs).ctrl_en,
            final(regs).ctrl_debugrun == old(regs).ctrl_debugrun,
            final(regs).ctrl_comp0top == old(regs).ctrl_comp0top,
    {
        regs.cnt = c % RTC_COUNTER_RANGE;
    }

    /// Reads the first compare register.
    pub fn get_comp0(&self, regs: &RtcRegisters) -> (r: u32)
        ensures
            r == regs.comp0,
    {
        regs.comp0
    }

    /// Writes the first compare register; it keeps the low 24 bits.
    pub fn set_comp0(&mut self, regs: &mut RtcRegisters, c: u32)
        ensures
            final(regs).comp0 == c % RTC_COUNTER_RANGE,
            final(regs).cnt == old(regs).cnt,
            final(regs).ctrl_en == old(regs).ctrl_en,
            final(regs).ctrl_debugrun == old(regs).ctrl_debugrun,
            final(regs).ctrl_comp0top == old(regs).ctrl_comp0top,
    {
        regs.comp0 = c % RTC_COUNTER_RANGE;
    }

    /// Programs a countdown period: stops the counter, writes the compare
    /// register, and restarts the counter.
    pub fn start(&mut self, regs: &mut RtcRegisters, count: TimeUnit)
        ensures
            final(regs).ctrl_en == true,
            final(regs).comp0 == count.0 % RTC_COUNTER_RANGE,
            final(regs).cnt == old(regs).cnt,
            final(regs).ctrl_debugrun == old(regs).ctrl_debugrun,
            final(regs).ctrl_comp0top == old(regs).ctrl_comp0top,
    {
        self.disable(regs);
        self.set_comp0(regs, count.0);
        self.enable(regs);
    }

    /// Polls the programmed period: once the counter reaches one tick short
    /// of the compare value, zeroes the counter and reports completion;
    /// before that it reports [`WouldBlock`]. A period must have been
    /// programmed first: with a zero compare value the comparison itself
    /// would underflow.
    pub fn wait(&mut self, regs: &mut RtcRegisters) -> (r: Result<(), WouldBlock>)
        requires
            old(regs).comp0 >= 1,
        ensures
            r is Ok <==> old(regs).cnt >= old(regs).comp0 - 1,
            r is Ok ==> final(regs).cnt == 0,
            r is Err ==> final(regs).cnt == old(regs).cnt,
            final(regs).comp0 == old(regs).comp0,
            final(regs).ctrl_en == old(regs).ctrl_en,
            final(regs).ctrl_debugrun == old(regs).ctrl_debugrun,
            final(regs).ctrl_comp0top == old(regs).ctrl_comp0top,
    {
        if regs.cnt >= regs.comp0 - 1 {
            self.set_counter(regs, 0);
            Ok(())
        } else {
            Err(WouldBlock)
        }
    }
}

} // verus!
