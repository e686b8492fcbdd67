//! Board-support model for a USB-dongle-class EFM32 microcontroller.
//!
//! The crate models the memory-mapped peripheral state of the board as plain
//! data and verifies the logic that drives it: the typestate pin-mode model,
//! digital I/O, the LED / button / watchdog facades, the real-time counter,
//! the capacitive-touch measurement and debounce engine, and the bootloader
//! configuration record. Unverifiable hardware access (the actual volatile
//! register reads and writes, interrupt masking, and spin-waits on hardware
//! status bits) stays outside the crate; callers mirror this model onto the
//! device registers.

pub mod bridge;
pub mod capacitive;
pub mod capsense;
pub mod cmu;
pub mod efm32hg;
pub mod gpio;
pub mod led;
pub mod peripherals;
pub mod prelude;
pub mod rtc;
pub mod time;
pub mod toboot;
pub mod tomu;
pub mod watchdog;
