//! Capacitive-sensing measurement and debounce engine.
//!
//! The engine coordinates the analog comparator, a capture timer and a
//! reference timer. While armed, the comparator oscillates at a rate set by
//! the selected pad's capacitance and the capture timer counts the pulses;
//! when the reference timer overflows, the interrupt handler stops both
//! timers, reads the pulse count, updates the engine state, and re-arms for
//! the opposite channel. A touch raises the pad's capacitance, slows the
//! oscillation, and so lowers the count observed in the fixed reference
//! window.
//!
//! Per channel the engine keeps an adaptive baseline `count_max` that only
//! smooths upward: a sample at or above the baseline is averaged into it —
//! the integer mean then cannot fall below the old value — while any lower
//! sample, a genuine touch in particular, leaves the baseline exactly where
//! it was. The baseline therefore never drifts down, or later touches would
//! become undetectable. A channel reads as touched exactly when its count
//! is positive but below the hysteresis threshold
//! `count_max - count_max / 2`. A debounced one-shot pulse is produced by
//! `present`: after a quiet period longer than the settle delay, a touched
//! cycle latches `present` to the hold duration, and it then decays by one
//! per cycle regardless of continued touch.

use vstd::prelude::*;
use crate::cmu::Cmu;

verus! {

/// Top value of the reference timer: one scan window of about 100 ms with
/// the system clock divided by 1024.
pub const REFERENCE_TOP: u16 = 1367;

/// Cycles the debounced `present` counter stays up once latched.
pub const PRESENT_HOLD_CYCLES: u16 = 500;

/// Quiet cycles required before a touch may latch `present` again.
pub const SETTLE_DELAY_CYCLES: u32 = 10;

/// Model of the analog comparator, reduced to the fields the engine drives:
/// the enable bit, the capsense negative-input selection, the positive-input
/// channel-select field, and the hardware-driven ready status bit.
pub struct Comparator {
    pub enabled: bool,
    pub capsense_negsel: bool,
    pub channel: u8,
    pub ready: bool,
}

impl Comparator {
    /// The channel-select field names one of the two pads.
    pub open spec fn wf(self) -> bool {
        self.channel < 2
    }

    /// The reset state of the comparator block.
    pub open spec fn is_reset(self) -> bool {
        &&& !self.enabled
        &&& !self.capsense_negsel
        &&& self.channel == 0
        &&& !self.ready
    }

    /// A fresh comparator model in reset state.
    pub fn reset() -> (r: Comparator)
        ensures
            r.is_reset(),
            r.wf(),
    {
        Comparator { enabled: false, capsense_negsel: false, channel: 0, ready: false }
    }

    /// Programs the positive-input channel-select field.
    pub fn select_channel(&mut self, ch: u8)
        requires
            ch < 2,
        ensures
            final(self).channel == ch,
            final(self).enabled == old(self).enabled,
            final(self).capsense_negsel == old(self).capsense_negsel,
            final(self).ready == old(self).ready,
            final(self).wf(),
    {
        self.channel = ch;
    }

    /// Reads the activation status bit. The bit is driven by the hardware;
    /// setup spin-waits on it outside this model.
    pub fn is_active(&self) -> (r: bool)
        ensures
            r == self.ready,
    {
        self.ready
    }
}

/// Model of one hardware timer, reduced to the fields the engine drives:
/// run state, counter, top value, the overflow interrupt flag and enable,
/// and the capture-path configuration bits.
pub struct Timer {
    pub running: bool,
    pub count: u16,
    pub top: u16,
    pub overflow_flag: bool,
    pub overflow_irq_enabled: bool,
    pub presc_div1024: bool,
    pub clk_from_cc1: bool,
    pub cc1_capture_from_prs0: bool,
}

impl Timer {
    /// The reset state of a timer block (the top register resets to the
    /// full counter range).
    pub open spec fn is_reset(self) -> bool {
        &&& !self.running
        &&& self.count == 0
        &&& self.top == 0xffff
        &&& !self.overflow_flag
        &&& !self.overflow_irq_enabled
        &&& !self.presc_div1024
        &&& !self.clk_from_cc1
        &&& !self.cc1_capture_from_prs0
    }

    /// A fresh timer model in reset state.
    pub fn reset() -> (r: Timer)
        ensures
            r.is_reset(),
    {
        Timer {
            running: false,
            count: 0,
            top: 0xffff,
            overflow_flag: false,
            overflow_irq_enabled: false,
            presc_div1024: false,
            clk_from_cc1: false,
            cc1_capture_from_prs0: false,
        }
    }

    /// The configuration fields of `a` and `b` agree.
    pub open spec fn same_config(a: Timer, b: Timer) -> bool {
        &&& a.top == b.top
        &&& a.overflow_irq_enabled == b.overflow_irq_enabled
        &&& a.presc_div1024 == b.presc_div1024
        &&& a.clk_from_cc1 == b.clk_from_cc1
        &&& a.cc1_capture_from_prs0 == b.cc1_capture_from_prs0
    }

    /// Models a write of the stop command.
    pub fn stop(&mut self)
        ensures
            final(self).running == false,
            final(self).count == old(self).count,
            final(self).overflow_flag == old(self).overflow_flag,
            Timer::same_config(*old(self), *final(self)),
    {
        self.running = false;
    }

    /// Models a write of the start command.
    pub fn start(&mut self)
        ensures
            final(self).running == true,
            final(self).count == old(self).count,
            final(self).overflow_flag == old(self).overflow_flag,
            Timer::same_config(*old(self), *final(self)),
    {
        self.running = true;
    }

    /// Models a reset write to the counter register.
    pub fn reset_count(&mut self)
        ensures
            final(self).running == old(self).running,
            final(self).count == 0,
            final(self).overflow_flag == old(self).overflow_flag,
            Timer::same_config(*old(self), *final(self)),
    {
        self.count = 0;
    }

    /// Models a write to the interrupt-flag-clear register: clears the
    /// overflow flag. Mandatory before re-arming, or the interrupt re-fires
    /// immediately.
    pub fn clear_overflow(&mut self)
        ensures
            final(self).running == old(self).running,
            final(self).count == old(self).count,
            final(self).overflow_flag == false,
            Timer::same_config(*old(self), *final(self)),
    {
        self.overflow_flag = false;
    }

    /// Reads the counter register.
    pub fn read_count(&self) -> (r: u16)
        ensures
            r == self.count,
    {
        self.count
    }
}

/// Model of the signal-routing fabric, reduced to the one channel the
/// engine uses: whether channel 0 forwards the comparator's output edges.
pub struct Prs {
    pub ch0_from_acmp0: bool,
}

impl Prs {
    /// The reset state of the routing block.
    pub open spec fn is_reset(self) -> bool {
        !self.ch0_from_acmp0
    }

    /// A fresh routing model in reset state.
    pub fn reset() -> (r: Prs)
        ensures
            r.is_reset(),
    {
        Prs { ch0_from_acmp0: false }
    }
}

/// Enables the clocks of the comparator, the two timers and the routing
/// fabric, leaving every other clock field unchanged.
pub fn clock_setup(cmu: &mut Cmu)
    ensures
        final(cmu).acmp0_clock == true,
        final(cmu).timer0_clock == true,
        final(cmu).timer1_clock == true,
        final(cmu).prs_clock == true,
        final(cmu).gpio_clock == old(cmu).gpio_clock,
        final(cmu).le_clock == old(cmu).le_clock,
        final(cmu).lfrco_enabled == old(cmu).lfrco_enabled,
        final(cmu).rtc_clock == old(cmu).rtc_clock,
        final(cmu).rtc_prescale_exp == old(cmu).rtc_prescale_exp,
{
    cmu.acmp0_clock = true;
    cmu.timer0_clock = true;
    cmu.timer1_clock = true;
    cmu.prs_clock = true;
}

/// Calibrates and enables the comparator for capacitive sensing: the
/// negative input is routed to the capsense network and the channel-select
/// field starts at channel 0. Activation must still be confirmed by
/// spin-waiting on the ready bit, which only the hardware drives.
pub fn comparator_setup(acmp: &mut Comparator)
    ensures
        final(acmp).enabled == true,
        final(acmp).capsense_negsel == true,
        final(acmp).channel == 0,
        final(acmp).ready == old(acmp).ready,
        final(acmp).wf(),
{
    acmp.capsense_negsel = true;
    acmp.channel = 0;
    acmp.enabled = true;
}

/// Configures the capture timer to count comparator pulses routed through
/// the fabric, and the reference timer to define the scan window and raise
/// its overflow interrupt.
pub fn timer_setup(capture: &mut Timer, reference: &mut Timer, prs: &mut Prs)
    ensures
        final(capture).presc_div1024 == true,
        final(capture).clk_from_cc1 == true,
        final(capture).cc1_capture_from_prs0 == true,
        final(capture).top == 0xffff,
        final(capture).running == old(capture).running,
        final(capture).count == old(capture).count,
        final(capture).overflow_flag == old(capture).overflow_flag,
        final(capture).overflow_irq_enabled == old(capture).overflow_irq_enabled,
        final(reference).presc_div1024 == true,
        final(reference).top == REFERENCE_TOP,
        final(reference).overflow_irq_enabled == true,
        final(reference).running == old(reference).running,
        final(reference).count == old(reference).count,
        final(reference).overflow_flag == old(reference).overflow_flag,
        final(reference).clk_from_cc1 == old(reference).clk_from_cc1,
        final(reference).cc1_capture_from_prs0 == old(reference).cc1_capture_from_prs0,
        final(prs).ch0_from_acmp0 == true,
{
    capture.presc_div1024 = true;
    capture.clk_from_cc1 = true;
    capture.cc1_capture_from_prs0 = true;
    capture.top = 0xffff;
    prs.ch0_from_acmp0 = true;
    reference.presc_div1024 = true;
    reference.top = REFERENCE_TOP;
    reference.overflow_irq_enabled = true;
}

/// The engine's per-run state: the channel measured by the cycle in flight,
/// the per-channel baselines, the touch bitmask, the debounced hold-down
/// counter and the quiet-cycle counter.
pub struct Engine {
    pub ch: u8,
    pub count_max0: u16,
    pub count_max1: u16,
    pub touch: u8,
    pub present: u16,
    pub since_last_touch: u32,
}

/// The hysteresis threshold of a baseline: `m - m / 2`.
pub open spec fn spec_threshold(m: u16) -> int {
    m - m / 2
}

/// A sample reads as touched exactly when it is positive but below the
/// threshold.
pub open spec fn spec_touched(m: u16, count: u16) -> bool {
    0 < count && (count as int) < spec_threshold(m)
}

/// The baseline after one sample: upward-only smoothing. A sample at or
/// above the baseline is averaged in — the integer mean `(m + count) / 2`
/// is then at least `m` — and any lower sample leaves the baseline
/// unchanged, so the baseline never decreases.
pub open spec fn spec_next_baseline(m: u16, count: u16) -> u16 {
    if count >= m {
        ((m + count) / 2) as u16
    } else {
        m
    }
}

/// Bit `ch` of the touch bitmask.
pub open spec fn touch_bit(x: u8, ch: u8) -> bool {
    (x >> ch) & 1 == 1
}

/// The touch bitmask with bit `ch` set to `t`.
pub open spec fn spec_set_touch(x: u8, ch: u8, t: bool) -> u8 {
    if t {
        x | (1u8 << ch)
    } else {
        x & !(1u8 << ch)
    }
}

proof fn lemma_touch(x: u8, ch: u8)
    by (bit_vector)
    requires
        ch < 2,
        x < 4,
    ensures
        spec_set_touch(x, ch, true) < 4,
        spec_set_touch(x, ch, false) < 4,
        forall|j: u8|
            j < 2 ==> #[trigger] touch_bit(spec_set_touch(x, ch, true), j) == (j == ch
                || touch_bit(x, j)),
        forall|j: u8|
            j < 2 ==> #[trigger] touch_bit(spec_set_touch(x, ch, false), j) == (j != ch
                && touch_bit(x, j)),
        (x != 0) == (touch_bit(x, 0) || touch_bit(x, 1)),
        spec_set_touch(x, ch, true) != 0,
        (spec_set_touch(x, ch, false) != 0) == touch_bit(
            x,
            if ch == 0 {
                1u8
            } else {
                0u8
            },
        ),
{
}

proof fn lemma_ch_flip(ch: u8)
    by (bit_vector)
    requires
        ch < 2,
    ensures
        (ch ^ 1) == (if ch == 0 {
            1u8
        } else {
            0u8
        }),
{
}

impl Engine {
    /// The channel index is a single bit and the touch bitmask has one bit
    /// per channel.
    pub open spec fn wf(self) -> bool {
        &&& self.ch < 2
        &&& self.touch < 4
    }

    /// The baseline of channel `ch`.
    pub open spec fn count_max(self, ch: u8) -> u16 {
        if ch == 0 {
            self.count_max0
        } else {
            self.count_max1
        }
    }

    /// A fresh engine: channel 1 in flight (the first completed cycle
    /// arms channel 0), baselines empty so that they adapt upward from the
    /// first untouched samples, nothing touched, debounce counters zero.
    pub fn new() -> (r: Engine)
        ensures
            r.wf(),
            r.ch == 1,
            r.count_max0 == 0,
            r.count_max1 == 0,
            r.touch == 0,
            r.present == 0,
            r.since_last_touch == 0,
    {
        Engine {
            ch: 1,
            count_max0: 0,
            count_max1: 0,
            touch: 0,
            present: 0,
            since_last_touch: 0,
        }
    }
}

/// The engine state after processing one captured sample for the channel in
/// flight (baseline update, touch decision and debounce), before the channel
/// flip.
///
/// The debounce steps run in a fixed order: `present` is decremented first,
/// and only then may a touch latch it. One corner follows from that order:
/// a touched cycle entered with `present` at 1 after a quiet spell longer
/// than the settle delay decrements it to 0 and latches again in the same
/// cycle — the expiring pulse runs straight into a fresh one.
pub open spec fn spec_update(s: Engine, count: u16) -> Engine {
    let m = s.count_max(s.ch);
    let m2 = spec_next_baseline(m, count);
    let t = spec_touched(m, count);
    let touch2 = spec_set_touch(s.touch, s.ch, t);
    let p1: u16 = if s.present > 0 {
        (s.present - 1) as u16
    } else {
        0
    };
    let any = touch2 != 0;
    let latch = any && s.since_last_touch > SETTLE_DELAY_CYCLES && p1 == 0;
    Engine {
        ch: s.ch,
        count_max0: if s.ch == 0 {
            m2
        } else {
            s.count_max0
        },
        count_max1: if s.ch == 1 {
            m2
        } else {
            s.count_max1
        },
        touch: touch2,
        present: if latch {
            PRESENT_HOLD_CYCLES
        } else {
            p1
        },
        since_last_touch: if any {
            0
        } else if s.since_last_touch < 0xffff_ffff {
            (s.since_last_touch + 1) as u32
        } else {
            s.since_last_touch
        },
    }
}

/// The engine state after the channel flip that re-arms the opposite pad.
pub open spec fn spec_flip(s: Engine) -> Engine {
    Engine {
        ch: if s.ch == 0 {
            1
        } else {
            0
        },
        count_max0: s.count_max0,
        count_max1: s.count_max1,
        touch: s.touch,
        present: s.present,
        since_last_touch: s.since_last_touch,
    }
}

/// One completed measurement cycle: process the sample, then flip the
/// channel.
pub open spec fn spec_cycle(s: Engine, count: u16) -> Engine {
    spec_flip(spec_update(s, count))
}

impl Engine {
    /// Processes one captured sample for the channel in flight: updates the
    /// baseline (upward only), decides whether the channel is touched, and
    /// runs the debounce counters. Returns true when the measured channel
    /// read as touched.
    pub fn update(&mut self, count: u16) -> (touched: bool)
        requires
            old(self).wf(),
        ensures
            final(self).wf(),
            *final(self) == spec_update(*old(self), count),
            touched == spec_touched(old(self).count_max(old(self).ch), count),
    {
        proof {
            lemma_touch(self.touch, self.ch);
        }
        let m: u16 = if self.ch == 0 {
            self.count_max0
        } else {
            self.count_max1
        };
        let thr: u16 = m - m / 2;
        if count >= m {
            let next: u16 = (((m as u32) + (count as u32)) / 2) as u16;
            if self.ch == 0 {
                self.count_max0 = next;
            } else {
                self.count_max1 = next;
            }
        }
        let touched: bool = 0 < count && count < thr;
        if touched {
            self.touch = self.touch | (1u8 << self.ch);
        } else {
            self.touch = self.touch & !(1u8 << self.ch);
        }
        if self.present > 0 {
            self.present = self.present - 1;
        }
        if self.touch != 0 {
            if self.since_last_touch > SETTLE_DELAY_CYCLES && self.present == 0 {
                self.present = PRESENT_HOLD_CYCLES;
            }
            self.since_last_touch = 0;
        } else {
            if self.since_last_touch < 0xffff_ffff {
                self.since_last_touch = self.since_last_touch + 1;
            }
        }
        touched
    }

    /// Re-arms a measurement cycle for the opposite channel: flips the
    /// channel by exclusive-or (so it can never leave {0, 1}), reprograms
    /// the comparator's channel-select field, zeroes both counters and
    /// restarts both timers.
    pub fn measure_start(&mut self, acmp: &mut Comparator, capture: &mut Timer, reference: &mut Timer)
        requires
            old(self).wf(),
        ensures
            final(self).wf(),
            *final(self) == spec_flip(*old(self)),
            final(acmp).channel == final(self).ch,
            final(acmp).enabled == old(acmp).enabled,
            final(acmp).capsense_negsel == old(acmp).capsense_negsel,
            final(acmp).ready == old(acmp).ready,
            final(capture).running == true,
            final(capture).count == 0,
            final(capture).overflow_flag == old(capture).overflow_flag,
            Timer::same_config(*old(capture), *final(capture)),
            final(reference).running == true,
            final(reference).count == 0,
            final(reference).overflow_flag == old(reference).overflow_flag,
            Timer::same_config(*old(reference), *final(reference)),
    {
        proof {
            lemma_ch_flip(self.ch);
        }
        self.ch = self.ch ^ 1;
        acmp.select_channel(self.ch);
        capture.reset_count();
        reference.reset_count();
        capture.start();
        reference.start();
    }
}

/// Stops both timers at the end of a scan window, clears the reference
/// timer's overflow flag, and returns the captured pulse count.
pub fn measure_stop(capture: &mut Timer, reference: &mut Timer) -> (count: u16)
    ensures
        count == old(capture).count,
        final(capture).running == false,
        final(capture).count == old(capture).count,
        final(capture).overflow_flag == old(capture).overflow_flag,
        Timer::same_config(*old(capture), *final(capture)),
        final(reference).running == false,
        final(reference).count == old(reference).count,
        final(reference).overflow_flag == false,
        Timer::same_config(*old(reference), *final(reference)),
{
    capture.stop();
    reference.stop();
    reference.clear_overflow();
    capture.read_count()
}

/// The engine state after a run of completed cycles, one per sample.
pub open spec fn spec_run(s: Engine, samples: Seq<u16>) -> Engine
    decreases samples.len(),
{
    if samples.len() == 0 {
        s
    } else {
        spec_cycle(spec_run(s, samples.drop_last()), samples.last())
    }
}

/// One cycle preserves well-formedness.
pub proof fn lemma_cycle_wf(s: Engine, count: u16)
    requires
        s.wf(),
    ensures
        spec_cycle(s, count).wf(),
{
    lemma_touch(s.touch, s.ch);
}

/// A run preserves well-formedness.
pub proof fn lemma_run_wf(s: Engine, samples: Seq<u16>)
    requires
        s.wf(),
    ensures
        spec_run(s, samples).wf(),
    decreases samples.len(),
{
    if samples.len() != 0 {
        lemma_run_wf(s, samples.drop_last());
        lemma_cycle_wf(spec_run(s, samples.drop_last()), samples.last());
    }
}

/// Channel alternation: the channel in flight after a run depends only on
/// the number of completed cycles, never on the touch outcomes. Starting
/// from channel `s.ch`, after `n` cycles the channel is `(s.ch + n) % 2`.
pub proof fn lemma_channel_alternation(s: Engine, samples: Seq<u16>)
    requires
        s.wf(),
    ensures
        spec_run(s, samples).wf(),
        spec_run(s, samples).ch == (s.ch + samples.len()) % 2,
    decreases samples.len(),
{
    lemma_run_wf(s, samples);
    if samples.len() != 0 {
        lemma_channel_alternation(s, samples.drop_last());
    }
}

/// One sample never lowers a baseline: a sample below the baseline — every
/// genuine touch in particular — leaves it unchanged, and one at or above
/// it moves it up to the integer mean, which cannot be below the old value.
/// A steady sample equal to the baseline is a fixed point.
pub proof fn lemma_baseline_step(m: u16, count: u16)
    ensures
        spec_next_baseline(m, count) >= m,
        count < m ==> spec_next_baseline(m, count) == m,
        count == m ==> spec_next_baseline(m, count) == m,
        spec_touched(m, count) ==> spec_next_baseline(m, count) == m,
{
}

/// Baseline monotonicity: across any run whatsoever, whatever each sample
/// reads and whichever channel each cycle measures, a channel's baseline
/// never decreases.
pub proof fn lemma_baseline_monotone(s: Engine, samples: Seq<u16>, ch: u8)
    requires
        s.wf(),
        ch < 2,
    ensures
        spec_run(s, samples).count_max(ch) >= s.count_max(ch),
    decreases samples.len(),
{
    if samples.len() != 0 {
        let prefix = samples.drop_last();
        lemma_baseline_monotone(s, prefix, ch);
        let before = spec_run(s, prefix);
        lemma_baseline_step(before.count_max(before.ch), samples.last());
    }
}

/// Every cycle of a run reads as touched for the channel it measures.
pub open spec fn run_all_touched(s: Engine, samples: Seq<u16>) -> bool
    decreases samples.len(),
{
    if samples.len() == 0 {
        true
    } else {
        let prev = spec_run(s, samples.drop_last());
        run_all_touched(s, samples.drop_last()) && spec_touched(
            prev.count_max(prev.ch),
            samples.last(),
        )
    }
}

/// Debounce latch: with the quiet counter above the settle delay and the
/// hold counter at zero, one touched cycle latches the hold counter to the
/// hold duration and zeroes the quiet counter.
pub proof fn lemma_debounce_latch(s: Engine, count: u16)
    requires
        s.wf(),
        s.present == 0,
        s.since_last_touch > SETTLE_DELAY_CYCLES,
        spec_touched(s.count_max(s.ch), count),
    ensures
        spec_cycle(s, count).present == PRESENT_HOLD_CYCLES,
        spec_cycle(s, count).since_last_touch == 0,
{
    lemma_touch(s.touch, s.ch);
}

/// One-shot decay: once the quiet counter is at zero, a run of cycles that
/// all read as touched decrements the hold counter by exactly one per cycle
/// until it reaches zero, where it stays; continued touch cannot re-latch,
/// because the quiet counter never leaves zero during the run.
pub proof fn lemma_present_decay(s: Engine, samples: Seq<u16>)
    requires
        s.wf(),
        s.since_last_touch == 0,
        run_all_touched(s, samples),
    ensures
        spec_run(s, samples).wf(),
        spec_run(s, samples).since_last_touch == 0,
        spec_run(s, samples).present == if samples.len() <= s.present {
            s.present - samples.len()
        } else {
            0
        },
    decreases samples.len(),
{
    lemma_run_wf(s, samples);
    if samples.len() != 0 {
        let prefix = samples.drop_last();
        lemma_present_decay(s, prefix);
        let prev = spec_run(s, prefix);
        lemma_touch(prev.touch, prev.ch);
    }
}

/// No cycle of the run reads as touched for the channel it measures.
pub open spec fn run_all_untouched(s: Engine, samples: Seq<u16>) -> bool
    decreases samples.len(),
{
    if samples.len() == 0 {
        true
    } else {
        let prev = spec_run(s, samples.drop_last());
        run_all_untouched(s, samples.drop_last()) && !spec_touched(
            prev.count_max(prev.ch),
            samples.last(),
        )
    }
}

/// The hold counter decays the same way when the touch stops: one per
/// cycle down to zero. Together with `lemma_present_decay` this makes the
/// decay independent of continued touch.
pub proof fn lemma_present_decay_untouched(s: Engine, samples: Seq<u16>)
    requires
        s.wf(),
        s.since_last_touch == 0,
        run_all_untouched(s, samples),
    ensures
        spec_run(s, samples).wf(),
        spec_run(s, samples).since_last_touch <= samples.len(),
        spec_run(s, samples).touch != 0 ==> spec_run(s, samples).since_last_touch == 0,
        spec_run(s, samples).present == if samples.len() <= s.present {
            s.present - samples.len()
        } else {
            0
        },
    decreases samples.len(),
{
    lemma_run_wf(s, samples);
    if samples.len() != 0 {
        let prefix = samples.drop_last();
        lemma_present_decay_untouched(s, prefix);
        let prev = spec_run(s, prefix);
        lemma_touch(prev.touch, prev.ch);
    }
}

} // verus!
