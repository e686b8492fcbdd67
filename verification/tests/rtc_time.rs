use tomu_hal::cmu::Cmu;
use tomu_hal::rtc::{Ctrl, Prescaler, RtcRegisters, TimeUnit, RTC};
use tomu_hal::time::{Seconds, Ticks, Unit};

#[test]
fn unit_constructors_wrap_the_number() {
    assert_eq!(5u32.s().0, 5);
    assert_eq!(250u32.ms().0, 250);
    assert_eq!(32768u32.ticks().0, 32768);
}

#[test]
fn ticks_convert_verbatim() {
    let t = TimeUnit::from_ticks(Ticks(12345));
    assert_eq!(t.0, 12345);
    let t = TimeUnit::from(Ticks(77));
    assert_eq!(u32::from(t), 77);
}

#[test]
fn seconds_convert_at_the_prescaled_rate() {
    let mut cmu = Cmu::reset();
    // No prescaling: 32768 ticks per second.
    let t = TimeUnit::from_seconds(Seconds(2), &cmu);
    assert_eq!(t.0, 65536);
    // Divide by 1024: 32 ticks per second.
    cmu.rtc_prescale_exp = 10;
    let t = TimeUnit::from_seconds(Seconds(3), &cmu);
    assert_eq!(t.0, 96);
}

#[test]
fn default_setup_selects_div1_and_comp0_top() {
    let mut cmu = Cmu::reset();
    let mut regs = RtcRegisters::reset();
    let mut rtc = RTC::new();
    rtc.default_setup(&mut cmu, &mut regs);
    assert!(cmu.lfrco_enabled && cmu.le_clock && cmu.rtc_clock);
    assert_eq!(cmu.rtc_prescale_exp, 0);
    assert!(regs.ctrl_comp0top);
    assert!(!regs.ctrl_debugrun);
    assert!(!regs.ctrl_en);
}

#[test]
fn setup_decodes_the_control_options() {
    let mut cmu = Cmu::reset();
    let mut regs = RtcRegisters::reset();
    let mut rtc = RTC::new();
    rtc.setup(&mut cmu, &mut regs, Prescaler::Div1024, [Ctrl::DebugRun, Ctrl::Comp0Top]);
    assert_eq!(cmu.rtc_prescale_exp, 10);
    assert!(regs.ctrl_debugrun && regs.ctrl_comp0top);
    assert!(!regs.ctrl_en);
    // No options at all leaves the control fields clear.
    let mut regs2 = RtcRegisters::reset();
    let no_options: [Ctrl; 0] = [];
    rtc.setup(&mut cmu, &mut regs2, Prescaler::Div1, no_options);
    assert!(!regs2.ctrl_debugrun && !regs2.ctrl_comp0top && !regs2.ctrl_en);
}

#[test]
fn counter_and_compare_registers_keep_24_bits() {
    let mut regs = RtcRegisters::reset();
    let mut rtc = RTC::new();
    rtc.set_counter(&mut regs, 0x0123_4567);
    assert_eq!(rtc.get_counter(&regs), 0x0023_4567);
    rtc.set_comp0(&mut regs, 0x0200_0001);
    assert_eq!(rtc.get_comp0(&regs), 0x1);
}

#[test]
fn start_programs_the_period_and_enables() {
    let mut regs = RtcRegisters::reset();
    let mut rtc = RTC::new();
    rtc.start(&mut regs, TimeUnit(65536));
    assert!(regs.ctrl_en);
    assert_eq!(regs.comp0, 65536);
}

#[test]
fn wait_blocks_until_one_tick_before_the_compare_value() {
    let mut regs = RtcRegisters::reset();
    let mut rtc = RTC::new();
    rtc.start(&mut regs, TimeUnit(100));
    regs.cnt = 42;
    assert!(rtc.wait(&mut regs).is_err());
    assert_eq!(regs.cnt, 42);
    regs.cnt = 99;
    assert!(rtc.wait(&mut regs).is_ok());
    assert_eq!(regs.cnt, 0);
}
