use tomu_hal::capsense::{
    clock_setup, comparator_setup, measure_stop, timer_setup, Comparator, Engine, Prs, Timer,
    PRESENT_HOLD_CYCLES, REFERENCE_TOP, SETTLE_DELAY_CYCLES,
};
use tomu_hal::cmu::Cmu;

#[test]
fn clock_setup_enables_the_four_engine_clocks() {
    let mut cmu = Cmu::reset();
    clock_setup(&mut cmu);
    assert!(cmu.acmp0_clock && cmu.timer0_clock && cmu.timer1_clock && cmu.prs_clock);
    assert!(!cmu.gpio_clock && !cmu.rtc_clock);
}

#[test]
fn comparator_setup_enables_capsense_on_channel_zero() {
    let mut acmp = Comparator::reset();
    acmp.channel = 1;
    comparator_setup(&mut acmp);
    assert!(acmp.enabled);
    assert!(acmp.capsense_negsel);
    assert_eq!(acmp.channel, 0);
}

#[test]
fn timer_setup_programs_capture_path_and_scan_window() {
    let mut capture = Timer::reset();
    let mut reference = Timer::reset();
    let mut prs = Prs::reset();
    timer_setup(&mut capture, &mut reference, &mut prs);
    assert!(capture.presc_div1024 && capture.clk_from_cc1 && capture.cc1_capture_from_prs0);
    assert_eq!(capture.top, 0xffff);
    assert!(reference.presc_div1024);
    assert_eq!(reference.top, REFERENCE_TOP);
    assert!(reference.overflow_irq_enabled);
    assert!(prs.ch0_from_acmp0);
}

#[test]
fn measure_stop_freezes_timers_and_clears_the_overflow_flag() {
    let mut capture = Timer::reset();
    let mut reference = Timer::reset();
    capture.running = true;
    capture.count = 1234;
    reference.running = true;
    reference.overflow_flag = true;
    let count = measure_stop(&mut capture, &mut reference);
    assert_eq!(count, 1234);
    assert!(!capture.running && !reference.running);
    assert!(!reference.overflow_flag);
    assert_eq!(capture.count, 1234);
}

#[test]
fn baseline_is_a_fixed_point_at_steady_untouched_samples() {
    let mut e = Engine::new();
    e.ch = 0;
    e.count_max0 = 1000;
    // A steady sample equal to the baseline is averaged in and leaves the
    // baseline exactly where it was: a fixed point.
    for _ in 0..3 {
        let touched = e.update(1000);
        assert!(!touched);
        assert_eq!(e.count_max0, 1000);
    }
}

#[test]
fn touched_sample_never_pulls_the_baseline_down() {
    let mut e = Engine::new();
    e.ch = 0;
    e.count_max0 = 1000;
    // 400 is below the threshold 500: a touch. The baseline must not move.
    let touched = e.update(400);
    assert!(touched);
    assert_eq!(e.count_max0, 1000);
}

#[test]
fn sample_between_threshold_and_baseline_leaves_the_baseline() {
    let mut e = Engine::new();
    e.ch = 0;
    e.count_max0 = 1000;
    // 600 is above the threshold 500 but below the baseline: averaging it
    // in would drag the baseline down to 800, so it must not be averaged.
    let touched = e.update(600);
    assert!(!touched);
    assert_eq!(e.count_max0, 1000);
    // At the baseline itself the average is a fixed point.
    assert!(!e.update(1000));
    assert_eq!(e.count_max0, 1000);
    // Above the baseline the average moves up.
    assert!(!e.update(1200));
    assert_eq!(e.count_max0, 1100);
}

#[test]
fn baseline_never_decreases_across_a_mixed_run() {
    let mut e = Engine::new();
    e.ch = 0;
    e.count_max0 = 1000;
    let samples = [1000u16, 600, 300, 0, 999, 1400, 700, 1400];
    let mut floor: u16 = 1000;
    for s in samples {
        let _ = e.update(s);
        assert!(e.count_max0 >= floor);
        floor = e.count_max0;
        // The other channel's baseline is untouched by channel 0 cycles.
        assert_eq!(e.count_max1, 0);
    }
}

#[test]
fn baseline_adapts_upward_from_empty() {
    let mut e = Engine::new();
    e.ch = 0;
    // Every sample is at or above an empty baseline, so the first samples
    // are averaged in and the baseline climbs toward the real count.
    assert!(!e.update(1000));
    assert_eq!(e.count_max0, 500);
    assert!(!e.update(1000));
    assert_eq!(e.count_max0, 750);
    assert!(!e.update(1000));
    assert_eq!(e.count_max0, 875);
}

#[test]
fn zero_count_is_not_a_touch() {
    let mut e = Engine::new();
    e.ch = 0;
    e.count_max0 = 1000;
    assert!(!e.update(0));
    assert_eq!(e.touch, 0);
}

#[test]
fn channel_alternates_independently_of_touch_outcome() {
    let mut e = Engine::new();
    let mut acmp = Comparator::reset();
    let mut capture = Timer::reset();
    let mut reference = Timer::reset();
    comparator_setup(&mut acmp);
    assert_eq!(e.ch, 1);
    let samples = [1000u16, 300, 0, 700, 1000, 50];
    for (n, s) in samples.iter().enumerate() {
        let _ = e.update(*s);
        e.measure_start(&mut acmp, &mut capture, &mut reference);
        // After n + 1 completed cycles the channel is (1 + n + 1) % 2.
        assert_eq!(e.ch as usize, (1 + n + 1) % 2);
        assert_eq!(acmp.channel, e.ch);
        assert!(capture.running && reference.running);
        assert_eq!(capture.count, 0);
        assert_eq!(reference.count, 0);
    }
}

#[test]
fn quiet_touch_latches_the_hold_counter_once() {
    let mut e = Engine::new();
    e.ch = 0;
    e.count_max0 = 1000;
    e.since_last_touch = SETTLE_DELAY_CYCLES + 1;
    assert_eq!(e.present, 0);
    // One touched cycle after a long quiet period latches the pulse.
    assert!(e.update(300));
    assert_eq!(e.present, PRESENT_HOLD_CYCLES);
    assert_eq!(e.since_last_touch, 0);
}

#[test]
fn hold_counter_decays_by_one_per_cycle_under_continued_touch() {
    let mut e = Engine::new();
    e.ch = 0;
    e.count_max0 = 1000;
    e.since_last_touch = SETTLE_DELAY_CYCLES + 1;
    assert!(e.update(300));
    assert_eq!(e.present, PRESENT_HOLD_CYCLES);
    // Continued touch: exactly one less per cycle, no re-latch, and zero
    // after exactly PRESENT_HOLD_CYCLES further cycles.
    for n in 1..=PRESENT_HOLD_CYCLES {
        assert!(e.update(300));
        assert_eq!(e.present, PRESENT_HOLD_CYCLES - n);
        assert_eq!(e.since_last_touch, 0);
    }
    assert_eq!(e.present, 0);
    // Still touching: the quiet counter is zero, so no new pulse starts.
    assert!(e.update(300));
    assert_eq!(e.present, 0);
}

#[test]
fn quiet_counter_counts_untouched_cycles() {
    let mut e = Engine::new();
    e.ch = 0;
    e.count_max0 = 1000;
    for n in 1..=5u32 {
        assert!(!e.update(1000));
        assert_eq!(e.since_last_touch, n);
    }
}
