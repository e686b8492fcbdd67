//! The traits a board application usually wants in scope.

pub use crate::gpio::GpioExt;
pub use crate::gpio::InputMode;
pub use crate::gpio::OutputMode;
pub use crate::led::LedTrait;
pub use crate::rtc::CtrlTrait;
pub use crate::time::Unit;
