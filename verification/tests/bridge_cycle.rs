use tomu_hal::bridge::Bridge;
use tomu_hal::capsense::{clock_setup, comparator_setup, timer_setup};
use tomu_hal::peripherals;

fn ready_bridge() -> Bridge {
    let mut taken = false;
    let mut p = peripherals::take(&mut taken).unwrap();
    clock_setup(&mut p.cmu);
    comparator_setup(&mut p.acmp0);
    timer_setup(&mut p.timer0, &mut p.timer1, &mut p.prs);
    let mut bridge = Bridge::new();
    bridge.deposit(p.acmp0, p.timer0, p.timer1, p.regs, p.led);
    bridge
}

#[test]
fn handler_without_deposit_changes_nothing() {
    let mut bridge = Bridge::new();
    bridge.engine.ch = 0;
    bridge.engine.count_max0 = 1000;
    bridge.on_reference_overflow();
    assert!(bridge.acmp.is_none());
    assert_eq!(bridge.engine.ch, 0);
    assert_eq!(bridge.engine.count_max0, 1000);
}

#[test]
fn touched_cycle_drives_the_green_led_and_keeps_the_baseline() {
    let mut bridge = ready_bridge();
    bridge.engine.ch = 0;
    bridge.engine.count_max0 = 1000;
    // Simulate a pending scan window: the capture timer holds 300 pulses
    // (threshold is 500) and the reference timer's overflow flag is up.
    if let Some(t) = bridge.capture.as_mut() {
        t.count = 300;
        t.running = true;
    }
    if let Some(t) = bridge.reference.as_mut() {
        t.overflow_flag = true;
        t.running = true;
    }
    bridge.on_reference_overflow();
    // Channel 0 read as touched: its baseline is untouched and the green
    // LED (pin A0, active low) is driven on.
    assert_eq!(bridge.engine.count_max0, 1000);
    assert_eq!(bridge.engine.touch, 1);
    let regs = bridge.gpio.as_ref().unwrap();
    assert_eq!(regs.pa_dout & 1, 0);
    // The cycle re-armed for the other channel.
    assert_eq!(bridge.engine.ch, 1);
    let acmp = bridge.acmp.as_ref().unwrap();
    assert_eq!(acmp.channel, 1);
    let capture = bridge.capture.as_ref().unwrap();
    let reference = bridge.reference.as_ref().unwrap();
    assert!(capture.running && reference.running);
    assert_eq!(capture.count, 0);
    assert_eq!(reference.count, 0);
    assert!(!reference.overflow_flag);
}

#[test]
fn untouched_cycle_drives_the_led_off() {
    let mut bridge = ready_bridge();
    bridge.engine.ch = 0;
    bridge.engine.count_max0 = 1000;
    // Drive the green LED on first, as a preceding touch would have.
    if let Some(t) = bridge.capture.as_mut() {
        t.count = 300;
    }
    bridge.on_reference_overflow();
    assert_eq!(bridge.gpio.as_ref().unwrap().pa_dout & 1, 0);
    // Back to channel 0 with an untouched sample: the LED goes off (high).
    bridge.engine.ch = 0;
    if let Some(t) = bridge.capture.as_mut() {
        t.count = 1000;
    }
    bridge.on_reference_overflow();
    assert_eq!(bridge.engine.touch & 1, 0);
    assert_eq!(bridge.gpio.as_ref().unwrap().pa_dout & 1, 1);
}

#[test]
fn channel_one_cycle_drives_the_red_led() {
    let mut bridge = ready_bridge();
    bridge.engine.ch = 1;
    bridge.engine.count_max1 = 1000;
    if let Some(t) = bridge.capture.as_mut() {
        t.count = 200;
    }
    bridge.on_reference_overflow();
    assert_eq!(bridge.engine.touch, 2);
    // The red LED sits on pin B7, active low.
    let regs = bridge.gpio.as_ref().unwrap();
    assert_eq!(regs.pb_dout & 0x80, 0);
    // The green LED's bit is untouched.
    assert_eq!(regs.pa_dout & 1, 0);
    assert_eq!(bridge.engine.ch, 0);
}
