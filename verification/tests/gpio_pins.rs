use tomu_hal::cmu::Cmu;
use tomu_hal::gpio::{GpioExt, GpioRegisters};

#[test]
fn split_enables_gpio_clock_and_leaves_registers_untouched() {
    let regs = GpioRegisters::reset();
    let mut cmu = Cmu::reset();
    let parts = regs.split(&mut cmu);
    assert!(cmu.gpio_clock);
    assert!(!cmu.acmp0_clock);
    assert_eq!(parts.regs.pa_model, 0);
    assert_eq!(parts.regs.pa_dout, 0);
    assert_eq!(parts.regs.pf_modeh, 0);
}

#[test]
fn transition_programs_only_the_pins_mode_field() {
    let regs = GpioRegisters::reset();
    let mut cmu = Cmu::reset();
    let parts = regs.split(&mut cmu);
    let mut regs = parts.regs;
    // A0's mode field is the low nibble of the port A low mode register.
    let _a0 = parts.a0.into_input(&mut regs);
    assert_eq!(regs.pa_model, 0x1);
    // B7's mode field is the top nibble of the port B low mode register.
    let _b7 = parts.b7.into_output_push_pull(&mut regs);
    assert_eq!(regs.pb_model, 0x4000_0000);
    assert_eq!(regs.pa_model, 0x1);
    // B8 lives in the high mode register, low nibble.
    let _b8 = parts.b8.into_output_open_drain(&mut regs);
    assert_eq!(regs.pb_modeh, 0x8);
    assert_eq!(regs.pb_model, 0x4000_0000);
    // No data register was written by these transitions.
    assert_eq!(regs.pa_dout, 0);
    assert_eq!(regs.pb_dout, 0);
}

#[test]
fn pulled_and_filtered_inputs_write_the_data_bit() {
    let regs = GpioRegisters::reset();
    let mut cmu = Cmu::reset();
    let parts = regs.split(&mut cmu);
    let mut regs = parts.regs;
    // Pull-up: mode INPUTPULL with the data bit set.
    let b7 = parts.b7.into_input_pull_up(&mut regs);
    assert_eq!(regs.pb_model, 0x2000_0000);
    assert_eq!(regs.pb_dout, 0x80);
    // Pull-down on the same pin clears the data bit again.
    let _b7 = b7.into_input_pull_down(&mut regs);
    assert_eq!(regs.pb_model, 0x2000_0000);
    assert_eq!(regs.pb_dout, 0);
    // Filtered plain input sets the data bit (filter enable).
    let _c0 = parts.c0.into_input_with_filter(&mut regs);
    assert_eq!(regs.pc_model, 0x1);
    assert_eq!(regs.pc_dout, 0x1);
}

#[test]
fn output_data_bit_follows_the_xor_fold_of_the_operations() {
    let regs = GpioRegisters::reset();
    let mut cmu = Cmu::reset();
    let parts = regs.split(&mut cmu);
    let mut regs = parts.regs;
    let a0 = parts.a0.into_output_push_pull(&mut regs);
    assert_eq!(regs.pa_dout & 1, 0);
    a0.set_high(&mut regs);
    assert_eq!(regs.pa_dout & 1, 1);
    // set_high is idempotent.
    a0.set_high(&mut regs);
    assert_eq!(regs.pa_dout & 1, 1);
    // toggle inverts, and is its own inverse.
    a0.toggle(&mut regs);
    assert_eq!(regs.pa_dout & 1, 0);
    a0.toggle(&mut regs);
    assert_eq!(regs.pa_dout & 1, 1);
    // set_low absorbs whatever came before.
    a0.set_low(&mut regs);
    assert_eq!(regs.pa_dout & 1, 0);
    a0.toggle(&mut regs);
    assert_eq!(regs.pa_dout & 1, 1);
}

#[test]
fn output_operations_touch_only_their_own_bit() {
    let regs = GpioRegisters::reset();
    let mut cmu = Cmu::reset();
    let parts = regs.split(&mut cmu);
    let mut regs = parts.regs;
    let b7 = parts.b7.into_output_push_pull(&mut regs);
    let b8 = parts.b8.into_output_push_pull(&mut regs);
    b7.set_high(&mut regs);
    b8.set_high(&mut regs);
    // B8 drives bit 8 of the port B data register, not bit 0.
    assert_eq!(regs.pb_dout, 0x180);
    b8.set_low(&mut regs);
    assert_eq!(regs.pb_dout, 0x80);
}

#[test]
fn every_mode_has_its_hardware_encoding() {
    let regs = GpioRegisters::reset();
    let mut cmu = Cmu::reset();
    let parts = regs.split(&mut cmu);
    let mut regs = parts.regs;
    // Walk pin C1 through every mode; its mode field is the second nibble
    // of the port C low mode register.
    let nibble = |r: &GpioRegisters| (r.pc_model >> 4) & 0xf;
    let p = parts.c1;
    let p = p.into_disabled(&mut regs);
    assert_eq!(nibble(&regs), 0);
    let p = p.into_disabled_pull_up(&mut regs);
    assert_eq!(nibble(&regs), 0);
    assert_eq!(regs.pc_dout & 2, 2);
    let p = p.into_input(&mut regs);
    assert_eq!(nibble(&regs), 1);
    let p = p.into_input_with_filter(&mut regs);
    assert_eq!(nibble(&regs), 1);
    let p = p.into_input_pull_down(&mut regs);
    assert_eq!(nibble(&regs), 2);
    assert_eq!(regs.pc_dout & 2, 0);
    let p = p.into_input_pull_up(&mut regs);
    assert_eq!(nibble(&regs), 2);
    assert_eq!(regs.pc_dout & 2, 2);
    let p = p.into_input_pull_down_with_filter(&mut regs);
    assert_eq!(nibble(&regs), 3);
    assert_eq!(regs.pc_dout & 2, 0);
    let p = p.into_input_pull_up_with_filter(&mut regs);
    assert_eq!(nibble(&regs), 3);
    assert_eq!(regs.pc_dout & 2, 2);
    let p = p.into_output_push_pull(&mut regs);
    assert_eq!(nibble(&regs), 4);
    let p = p.into_output_push_pull_drive(&mut regs);
    assert_eq!(nibble(&regs), 5);
    let p = p.into_output_open_source(&mut regs);
    assert_eq!(nibble(&regs), 6);
    let p = p.into_output_open_source_pull_down(&mut regs);
    assert_eq!(nibble(&regs), 7);
    let p = p.into_output_open_drain(&mut regs);
    assert_eq!(nibble(&regs), 8);
    let p = p.into_output_open_drain_with_filter(&mut regs);
    assert_eq!(nibble(&regs), 9);
    let p = p.into_output_open_drain_pull_up(&mut regs);
    assert_eq!(nibble(&regs), 10);
    let p = p.into_output_open_drain_pull_up_with_filter(&mut regs);
    assert_eq!(nibble(&regs), 11);
    let p = p.into_output_open_drain_drive(&mut regs);
    assert_eq!(nibble(&regs), 12);
    let p = p.into_output_open_drain_drive_with_filter(&mut regs);
    assert_eq!(nibble(&regs), 13);
    let p = p.into_output_open_drain_drive_pull_up(&mut regs);
    assert_eq!(nibble(&regs), 14);
    let _p = p.into_output_open_drain_drive_pull_up_with_filter(&mut regs);
    assert_eq!(nibble(&regs), 15);
    // The neighbouring nibble (pin C0) never moved off disabled.
    assert_eq!(regs.pc_model & 0xf, 0);
}

#[test]
fn input_pins_read_their_own_input_bit() {
    let regs = GpioRegisters::reset();
    let mut cmu = Cmu::reset();
    let parts = regs.split(&mut cmu);
    let mut regs = parts.regs;
    let c0 = parts.c0.into_input_pull_down(&mut regs);
    let f1 = parts.f1.into_input(&mut regs);
    assert!(!c0.is_high(&regs));
    assert!(c0.is_low(&regs));
    // Drive the modelled input bit as the pad would.
    regs.pc_din = 0x1;
    assert!(c0.is_high(&regs));
    // F1 reads port F, bit 1 - not any other port's register.
    assert!(!f1.is_high(&regs));
    regs.pf_din = 0x2;
    assert!(f1.is_high(&regs));
}
