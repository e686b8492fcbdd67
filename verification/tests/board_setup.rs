use tomu_hal::efm32hg;
use tomu_hal::led::LedTrait;
use tomu_hal::peripherals;
use tomu_hal::watchdog::{Watchdog, WdogRegisters, WDOG_CMD_CLEAR};

#[test]
fn take_succeeds_once_and_only_once() {
    let mut taken = false;
    assert!(peripherals::take(&mut taken).is_some());
    assert!(taken);
    assert!(peripherals::take(&mut taken).is_none());
}

#[test]
fn raw_take_hands_out_the_boot_state_once() {
    let mut taken = false;
    let dev = efm32hg::Peripherals::take(&mut taken).unwrap();
    assert_eq!(dev.GPIO.pa_model, 0);
    assert_eq!(dev.WDOG.ctrl, 1);
    assert!(!dev.TIMER1.running);
    assert!(efm32hg::Peripherals::take(&mut taken).is_none());
}

#[test]
fn fixed_wiring_programs_exactly_the_board_pins() {
    let mut taken = false;
    let p = peripherals::take(&mut taken).unwrap();
    // Green LED on A0: open-drain with pull-up (mode 10).
    assert_eq!(p.regs.pa_model, 0xa);
    // Red LED on B7: the same, in the top nibble of the low register.
    assert_eq!(p.regs.pb_model, 0xa000_0000);
    assert_eq!(p.regs.pb_modeh, 0);
    // Button sinks C0 and C1: pulled inputs (mode 2).
    assert_eq!(p.regs.pc_model, 0x22);
    // Button sources E12 and E13: open-drain (mode 8).
    assert_eq!(p.regs.pe_modeh, 0x0088_0000);
    assert_eq!(p.regs.pe_model, 0);
    // Port F is untouched, all data bits low.
    assert_eq!(p.regs.pf_model, 0);
    assert_eq!(p.regs.pa_dout, 0);
    assert_eq!(p.regs.pc_dout, 0);
    assert_eq!(p.regs.pe_dout, 0);
    assert!(p.cmu.gpio_clock);
}

#[test]
fn leds_are_active_low() {
    let mut taken = false;
    let mut p = peripherals::take(&mut taken).unwrap();
    p.led.green.on(&mut p.regs);
    assert_eq!(p.regs.pa_dout & 1, 0);
    p.led.green.off(&mut p.regs);
    assert_eq!(p.regs.pa_dout & 1, 1);
    p.led.red.on(&mut p.regs);
    assert_eq!(p.regs.pb_dout & 0x80, 0);
    p.led.red.off(&mut p.regs);
    assert_eq!(p.regs.pb_dout & 0x80, 0x80);
    p.led.red.toggle(&mut p.regs);
    assert_eq!(p.regs.pb_dout & 0x80, 0);
    // The other LED's bit never moved.
    assert_eq!(p.regs.pa_dout & 1, 1);
}

#[test]
fn buttons_read_only_while_held() {
    let mut taken = false;
    let mut p = peripherals::take(&mut taken).unwrap();
    // Hold drives the source pin E12 high.
    p.touch.cap0().hold(&mut p.regs);
    assert_eq!(p.regs.pe_dout & 0x1000, 0x1000);
    // A press couples the source onto the sink C0.
    p.regs.pc_din = 0x1;
    assert!(p.touch.cap0().is_pressed(&p.regs));
    p.regs.pc_din = 0;
    assert!(!p.touch.cap0().is_pressed(&p.regs));
    // Release drives the source low again.
    p.touch.cap0().release(&mut p.regs);
    assert_eq!(p.regs.pe_dout & 0x1000, 0);
    // The second pad uses C1 and E13.
    p.touch.cap1().hold(&mut p.regs);
    assert_eq!(p.regs.pe_dout & 0x2000, 0x2000);
    p.regs.pc_din = 0x2;
    assert!(p.touch.cap1().is_pressed(&p.regs));
}

#[test]
fn watchdog_disable_and_refresh_write_their_registers() {
    let mut w = Watchdog::new(WdogRegisters::boot());
    assert_eq!(w.ctrl_value(), 1);
    assert_eq!(w.cmd_value(), 0);
    w.refresh();
    assert_eq!(w.cmd_value(), WDOG_CMD_CLEAR);
    w.pet();
    w.feed();
    assert_eq!(w.ctrl_value(), 1);
    let mut taken = false;
    let mut p = peripherals::take(&mut taken).unwrap();
    p.watchdog.disable();
    assert_eq!(p.watchdog.ctrl_value(), 0);
    p.watchdog.refresh();
    assert_eq!(p.watchdog.cmd_value(), WDOG_CMD_CLEAR);
}

#[test]
fn constrain_builds_the_board_facade() {
    let mut taken = false;
    let dev = efm32hg::Peripherals::take(&mut taken).unwrap();
    let mut tomu = dev.constrain();
    assert!(tomu.cmu.gpio_clock);
    assert_eq!(tomu.regs.pa_model, 0xa);
    assert_eq!(tomu.regs.pb_model, 0xa000_0000);
    tomu.watchdog.disable();
    tomu.leds.green.on(&mut tomu.regs);
    assert_eq!(tomu.regs.pa_dout & 1, 0);
    // The free pins can still be configured.
    let _pc14 = tomu.gpio.pc14.into_input(&mut tomu.regs);
    assert_eq!(tomu.regs.pc_modeh & 0x0f00_0000, 0x0100_0000);
}
