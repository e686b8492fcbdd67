//! Watchdog guard: disable once, or refresh periodically.
//!
//! The bootloader hands the application a running watchdog that must be
//! refreshed within its timeout (about nine seconds) unless it is disabled
//! outright.

use vstd::prelude::*;

verus! {

/// The command-register value that reloads the watchdog counter.
pub const WDOG_CMD_CLEAR: u32 = 1;

/// Model of the watchdog register block: the control register and the
/// last value written to the command register.
pub struct WdogRegisters {
    pub ctrl: u32,
    pub cmd: u32,
}

impl WdogRegisters {
    /// The state the bootloader leaves behind: watchdog enabled.
    pub open spec fn is_boot(self) -> bool {
        self.ctrl == 1 && self.cmd == 0
    }

    /// A fresh watchdog model in the bootloader's hand-over state.
    pub fn boot() -> (r: WdogRegisters)
        ensures
            r.is_boot(),
    {
        WdogRegisters { ctrl: 1, cmd: 0 }
    }
}

/// Watchdog peripheral, owning its register block.
pub struct Watchdog {
    wdog: WdogRegisters,
}

impl Watchdog {
    /// The control-register value.
    pub closed spec fn ctrl(self) -> u32 {
        self.wdog.ctrl
    }

    /// The last command-register write.
    pub closed spec fn cmd(self) -> u32 {
        self.wdog.cmd
    }

    /// Reads the control-register value.
    pub fn ctrl_value(&self) -> (r: u32)
        ensures
            r == self.ctrl(),
    {
        self.wdog.ctrl
    }

    /// Reads the last command-register write.
    pub fn cmd_value(&self) -> (r: u32)
        ensures
            r == self.cmd(),
    {
        self.wdog.cmd
    }

    /// Takes ownership of the watchdog block.
    pub fn new(wdog: WdogRegisters) -> (r: Watchdog)
        ensures
            r.ctrl() == wdog.ctrl,
            r.cmd() == wdog.cmd,
    {
        Watchdog { wdog }
    }

    /// Permanently stops the watchdog with a single write of zero to the
    /// control register; no refresh is needed afterwards.
    pub fn disable(&mut self)
        ensures
            final(self).ctrl() == 0,
            final(self).cmd() == old(self).cmd(),
    {
        self.wdog.ctrl = 0;
    }

    /// Reloads the watchdog counter with a single write of the fixed clear
    /// command.
    pub fn refresh(&mut self)
        ensures
            final(self).ctrl() == old(self).ctrl(),
            final(self).cmd() == WDOG_CMD_CLEAR,
    {
        self.wdog.cmd = WDOG_CMD_CLEAR;
    }

    /// Alias for [`Watchdog::refresh`].
    pub fn pet(&mut self)
        ensures
            final(self).ctrl() == old(self).ctrl(),
            final(self).cmd() == WDOG_CMD_CLEAR,
    {
        self.refresh();
    }

    /// Alias for [`Watchdog::refresh`].
    pub fn feed(&mut self)
        ensures
            final(self).ctrl() == old(self).ctrl(),
            final(self).cmd() == WDOG_CMD_CLEAR,
    {
        self.refresh();
    }
}

} // verus!
