//! Typestate model of the GPIO block.
//!
//! Every physical pin is represented by a [`Pin`] value tagged with a
//! zero-sized mode marker. A pin is obtained exactly once by [`GpioExt::split`]
//! and changes mode only through the `into_*` transition operations, which
//! consume the old-mode value, program the pin's four-bit mode-select field in
//! the port's MODEL/MODEH register, and return the new-mode value. Digital
//! I/O is gated at compile time by the [`OutputMode`] / [`InputMode`] marker
//! traits.
//!
//! The register file itself is modelled by [`GpioRegisters`]: one MODEL,
//! MODEH, DOUT and DIN word per port. The hardware's set/clear/toggle alias
//! registers are modelled by their effect on DOUT. Each operation's contract
//! states the exact field it writes and that every other pin's bits are left
//! unchanged.

use vstd::prelude::*;
use core::marker::PhantomData;
use crate::cmu::Cmu;

verus! {

/// Port indices as used by the pin map (port D is not bonded out).
pub const PORT_A: u8 = 0;
pub const PORT_B: u8 = 1;
pub const PORT_C: u8 = 2;
pub const PORT_E: u8 = 4;
pub const PORT_F: u8 = 5;

/// Hardware encodings of the four-bit mode-select field.
pub const MODE_DISABLED: u32 = 0;
pub const MODE_INPUT: u32 = 1;
pub const MODE_INPUTPULL: u32 = 2;
pub const MODE_INPUTPULLFILTER: u32 = 3;
pub const MODE_PUSHPULL: u32 = 4;
pub const MODE_PUSHPULLDRIVE: u32 = 5;
pub const MODE_WIREDOR: u32 = 6;
pub const MODE_WIREDORPULLDOWN: u32 = 7;
pub const MODE_WIREDAND: u32 = 8;
pub const MODE_WIREDANDFILTER: u32 = 9;
pub const MODE_WIREDANDPULLUP: u32 = 10;
pub const MODE_WIREDANDPULLUPFILTER: u32 = 11;
pub const MODE_WIREDANDDRIVE: u32 = 12;
pub const MODE_WIREDANDDRIVEFILTER: u32 = 13;
pub const MODE_WIREDANDDRIVEPULLUP: u32 = 14;
pub const MODE_WIREDANDDRIVEPULLUPFILTER: u32 = 15;

/// The nibble at index `i` of a packed mode register.
pub open spec fn nib_of(r: u32, i: u32) -> u32 {
    (r >> ((4 * i) as u32)) & 0xf
}

/// `r` with the nibble at index `i` replaced by `v`.
pub open spec fn with_nib(r: u32, i: u32, v: u32) -> u32 {
    (r & !(0xfu32 << ((4 * i) as u32))) | ((v & 0xf) << ((4 * i) as u32))
}

/// The bit at index `i` of a data register.
pub open spec fn bit_of(r: u32, i: u32) -> bool {
    (r >> i) & 1 == 1
}

proof fn lemma_with_nib(r: u32, i: u32, v: u32)
    by (bit_vector)
    requires
        i < 8,
        v < 16,
    ensures
        forall|j: u32| j < 8 ==> #[trigger] nib_of(with_nib(r, i, v), j) == (if j == i {
            v
        } else {
            nib_of(r, j)
        }),
{
}

proof fn lemma_set_bit(r: u32, i: u32)
    by (bit_vector)
    requires
        i < 16,
    ensures
        forall|j: u32| j < 16 ==> #[trigger] bit_of(r | (1u32 << i), j) == (j == i || bit_of(
            r,
            j,
        )),
{
}

proof fn lemma_clear_bit(r: u32, i: u32)
    by (bit_vector)
    requires
        i < 16,
    ensures
        forall|j: u32| j < 16 ==> #[trigger] bit_of(r & !(1u32 << i), j) == (j != i && bit_of(
            r,
            j,
        )),
{
}

proof fn lemma_toggle_bit(r: u32, i: u32)
    by (bit_vector)
    requires
        i < 16,
    ensures
        forall|j: u32| j < 16 ==> #[trigger] bit_of(r ^ (1u32 << i), j) == (if j == i {
            !bit_of(r, j)
        } else {
            bit_of(r, j)
        }),
{
}

/// In an all-zero register every mode field reads disabled and every data
/// bit reads low.
pub proof fn lemma_zero_register()
    by (bit_vector)
    ensures
        forall|j: u32| j < 8 ==> #[trigger] nib_of(0u32, j) == 0,
        forall|j: u32| j < 32 ==> #[trigger] bit_of(0u32, j) == false,
{
}

/// True for the ports that exist on this package.
pub open spec fn valid_port(port: u8) -> bool {
    port == PORT_A || port == PORT_B || port == PORT_C || port == PORT_E || port == PORT_F
}

/// True for a (port, bit) pair naming a modelled pin location.
pub open spec fn valid_pin(port: u8, bit: u8) -> bool {
    valid_port(port) && bit < 16
}

/// Model of the GPIO register block: per port, the packed low/high
/// mode-select registers and the output/input data registers.
pub struct GpioRegisters {
    pub pa_model: u32,
    pub pa_modeh: u32,
    pub pa_dout: u32,
    pub pa_din: u32,
    pub pb_model: u32,
    pub pb_modeh: u32,
    pub pb_dout: u32,
    pub pb_din: u32,
    pub pc_model: u32,
    pub pc_modeh: u32,
    pub pc_dout: u32,
    pub pc_din: u32,
    pub pe_model: u32,
    pub pe_modeh: u32,
    pub pe_dout: u32,
    pub pe_din: u32,
    pub pf_model: u32,
    pub pf_modeh: u32,
    pub pf_dout: u32,
    pub pf_din: u32,
}

impl GpioRegisters {
    pub open spec fn model_low(self, port: u8) -> u32 {
        if port == PORT_A {
            self.pa_model
        } else if port == PORT_B {
            self.pb_model
        } else if port == PORT_C {
            self.pc_model
        } else if port == PORT_E {
            self.pe_model
        } else {
            self.pf_model
        }
    }

    pub open spec fn model_high(self, port: u8) -> u32 {
        if port == PORT_A {
            self.pa_modeh
        } else if port == PORT_B {
            self.pb_modeh
        } else if port == PORT_C {
            self.pc_modeh
        } else if port == PORT_E {
            self.pe_modeh
        } else {
            self.pf_modeh
        }
    }

    pub open spec fn dout(self, port: u8) -> u32 {
        if port == PORT_A {
            self.pa_dout
        } else if port == PORT_B {
            self.pb_dout
        } else if port == PORT_C {
            self.pc_dout
        } else if port == PORT_E {
            self.pe_dout
        } else {
            self.pf_dout
        }
    }

    pub open spec fn din(self, port: u8) -> u32 {
        if port == PORT_A {
            self.pa_din
        } else if port == PORT_B {
            self.pb_din
        } else if port == PORT_C {
            self.pc_din
        } else if port == PORT_E {
            self.pe_din
        } else {
            self.pf_din
        }
    }

    /// The four-bit mode-select field of the pin at (port, bit).
    pub open spec fn mode_sel(self, port: u8, bit: u8) -> u32 {
        if bit < 8 {
            nib_of(self.model_low(port), bit as u32)
        } else {
            nib_of(self.model_high(port), (bit - 8) as u32)
        }
    }

    /// The output-data bit of the pin at (port, bit).
    pub open spec fn out_bit(self, port: u8, bit: u8) -> bool {
        bit_of(self.dout(port), bit as u32)
    }

    /// The input-data bit of the pin at (port, bit).
    pub open spec fn in_bit(self, port: u8, bit: u8) -> bool {
        bit_of(self.din(port), bit as u32)
    }

    /// The reset state of the block: every pin disabled, all data bits low.
    pub open spec fn is_reset(self) -> bool {
        &&& self.pa_model == 0 && self.pa_modeh == 0 && self.pa_dout == 0 && self.pa_din == 0
        &&& self.pb_model == 0 && self.pb_modeh == 0 && self.pb_dout == 0 && self.pb_din == 0
        &&& self.pc_model == 0 && self.pc_modeh == 0 && self.pc_dout == 0 && self.pc_din == 0
        &&& self.pe_model == 0 && self.pe_modeh == 0 && self.pe_dout == 0 && self.pe_din == 0
        &&& self.pf_model == 0 && self.pf_modeh == 0 && self.pf_dout == 0 && self.pf_din == 0
    }

    /// A fresh register model in reset state.
    pub fn reset() -> (r: GpioRegisters)
        ensures
            r.is_reset(),
    {
        GpioRegisters {
            pa_model: 0,
            pa_modeh: 0,
            pa_dout: 0,
            pa_din: 0,
            pb_model: 0,
            pb_modeh: 0,
            pb_dout: 0,
            pb_din: 0,
            pc_model: 0,
            pc_modeh: 0,
            pc_dout: 0,
            pc_din: 0,
            pe_model: 0,
            pe_modeh: 0,
            pe_dout: 0,
            pe_din: 0,
            pf_model: 0,
            pf_modeh: 0,
            pf_dout: 0,
            pf_din: 0,
        }
    }
}

/// Every pin except (port, bit) has the same mode-select field in `a` and `b`.
pub open spec fn modes_eq_except(a: GpioRegisters, b: GpioRegisters, port: u8, bit: u8) -> bool {
    forall|p: u8, i: u8|
        valid_pin(p, i) && !(p == port && i == bit) ==> a.mode_sel(p, i) == #[trigger] b.mode_sel(
            p,
            i,
        )
}

/// Every pin has the same mode-select field in `a` and `b`.
pub open spec fn modes_eq(a: GpioRegisters, b: GpioRegisters) -> bool {
    forall|p: u8, i: u8| valid_pin(p, i) ==> a.mode_sel(p, i) == #[trigger] b.mode_sel(p, i)
}

/// Every pin except (port, bit) has the same output-data bit in `a` and `b`.
pub open spec fn outs_eq_except(a: GpioRegisters, b: GpioRegisters, port: u8, bit: u8) -> bool {
    forall|p: u8, i: u8|
        valid_pin(p, i) && !(p == port && i == bit) ==> a.out_bit(p, i) == #[trigger] b.out_bit(
            p,
            i,
        )
}

/// Every pin has the same output-data bit in `a` and `b`.
pub open spec fn outs_eq(a: GpioRegisters, b: GpioRegisters) -> bool {
    forall|p: u8, i: u8| valid_pin(p, i) ==> a.out_bit(p, i) == #[trigger] b.out_bit(p, i)
}

/// Every pin has the same input-data bit in `a` and `b`.
pub open spec fn ins_eq(a: GpioRegisters, b: GpioRegisters) -> bool {
    forall|p: u8, i: u8| valid_pin(p, i) ==> a.in_bit(p, i) == #[trigger] b.in_bit(p, i)
}

fn with_nib_exec(r: u32, i: u32, v: u32) -> (res: u32)
    requires
        i < 8,
        v < 16,
    ensures
        res == with_nib(r, i, v),
{
    (r & !(0xfu32 << (4 * i))) | ((v & 0xf) << (4 * i))
}

/// Writes the mode-select field of the pin at (port, bit), leaving every
/// other pin's mode and all data registers unchanged.
fn write_mode(regs: &mut GpioRegisters, port: u8, bit: u8, v: u32)
    requires
        valid_pin(port, bit),
        v < 16,
    ensures
        final(regs).mode_sel(port, bit) == v,
        modes_eq_except(*old(regs), *final(regs), port, bit),
        outs_eq(*old(regs), *final(regs)),
        ins_eq(*old(regs), *final(regs)),
{
    if bit < 8 {
        let i: u32 = bit as u32;
        if port == PORT_A {
            let r0: u32 = regs.pa_model;
            proof {
                lemma_with_nib(r0, i, v);
            }
            regs.pa_model = with_nib_exec(r0, i, v);
        } else if port == PORT_B {
            let r0: u32 = regs.pb_model;
            proof {
                lemma_with_nib(r0, i, v);
            }
            regs.pb_model = with_nib_exec(r0, i, v);
        } else if port == PORT_C {
            let r0: u32 = regs.pc_model;
            proof {
                lemma_with_nib(r0, i, v);
            }
            regs.pc_model = with_nib_exec(r0, i, v);
        } else if port == PORT_E {
            let r0: u32 = regs.pe_model;
            proof {
                lemma_with_nib(r0, i, v);
            }
            regs.pe_model = with_nib_exec(r0, i, v);
        } else {
            let r0: u32 = regs.pf_model;
            proof {
                lemma_with_nib(r0, i, v);
            }
            regs.pf_model = with_nib_exec(r0, i, v);
        }
    } else {
        let i: u32 = (bit - 8) as u32;
        if port == PORT_A {
            let r0: u32 = regs.pa_modeh;
            proof {
                lemma_with_nib(r0, i, v);
            }
            regs.pa_modeh = with_nib_exec(r0, i, v);
        } else if port == PORT_B {
            let r0: u32 = regs.pb_modeh;
            proof {
                lemma_with_nib(r0, i, v);
            }
            regs.pb_modeh = with_nib_exec(r0, i, v);
        } else if port == PORT_C {
            let r0: u32 = regs.pc_modeh;
            proof {
                lemma_with_nib(r0, i, v);
            }
            regs.pc_modeh = with_nib_exec(r0, i, v);
        } else if port == PORT_E {
            let r0: u32 = regs.pe_modeh;
            proof {
                lemma_with_nib(r0, i, v);
            }
            regs.pe_modeh = with_nib_exec(r0, i, v);
        } else {
            let r0: u32 = regs.pf_modeh;
            proof {
                lemma_with_nib(r0, i, v);
            }
            regs.pf_modeh = with_nib_exec(r0, i, v);
        }
    }
}

/// Models a write to the per-port set-alias register: sets the pin's
/// output-data bit, leaving every other bit and register unchanged.
fn out_set(regs: &mut GpioRegisters, port: u8, bit: u8)
    requires
        valid_pin(port, bit),
    ensures
        final(regs).out_bit(port, bit) == true,
        outs_eq_except(*old(regs), *final(regs), port, bit),
        modes_eq(*old(regs), *final(regs)),
        ins_eq(*old(regs), *final(regs)),
{
    let i: u32 = bit as u32;
    if port == PORT_A {
        let r0: u32 = regs.pa_dout;
        proof {
            lemma_set_bit(r0, i);
        }
        regs.pa_dout = r0 | (1u32 << i);
    } else if port == PORT_B {
        let r0: u32 = regs.pb_dout;
        proof {
            lemma_set_bit(r0, i);
        }
        regs.pb_dout = r0 | (1u32 << i);
    } else if port == PORT_C {
        let r0: u32 = regs.pc_dout;
        proof {
            lemma_set_bit(r0, i);
        }
        regs.pc_dout = r0 | (1u32 << i);
    } else if port == PORT_E {
        let r0: u32 = regs.pe_dout;
        proof {
            lemma_set_bit(r0, i);
        }
        regs.pe_dout = r0 | (1u32 << i);
    } else {
        let r0: u32 = regs.pf_dout;
        proof {
            lemma_set_bit(r0, i);
        }
        regs.pf_dout = r0 | (1u32 << i);
    }
}

/// Models a write to the per-port clear-alias register: clears the pin's
/// output-data bit, leaving every other bit and register unchanged.
fn out_clear(regs: &mut GpioRegisters, port: u8, bit: u8)
    requires
        valid_pin(port, bit),
    ensures
        final(regs).out_bit(port, bit) == false,
        outs_eq_except(*old(regs), *final(regs), port, bit),
        modes_eq(*old(regs), *final(regs)),
        ins_eq(*old(regs), *final(regs)),
{
    let i: u32 = bit as u32;
    if port == PORT_A {
        let r0: u32 = regs.pa_dout;
        proof {
            lemma_clear_bit(r0, i);
        }
        regs.pa_dout = r0 & !(1u32 << i);
    } else if port == PORT_B {
        let r0: u32 = regs.pb_dout;
        proof {
            lemma_clear_bit(r0, i);
        }
        regs.pb_dout = r0 & !(1u32 << i);
    } else if port == PORT_C {
        let r0: u32 = regs.pc_dout;
        proof {
            lemma_clear_bit(r0, i);
        }
        regs.pc_dout = r0 & !(1u32 << i);
    } else if port == PORT_E {
        let r0: u32 = regs.pe_dout;
        proof {
            lemma_clear_bit(r0, i);
        }
        regs.pe_dout = r0 & !(1u32 << i);
    } else {
        let r0: u32 = regs.pf_dout;
        proof {
            lemma_clear_bit(r0, i);
        }
        regs.pf_dout = r0 & !(1u32 << i);
    }
}

/// Models a write to the per-port toggle-alias register: inverts the pin's
/// output-data bit, leaving every other bit and register unchanged.
fn out_toggle(regs: &mut GpioRegisters, port: u8, bit: u8)
    requires
        valid_pin(port, bit),
    ensures
        final(regs).out_bit(port, bit) == !old(regs).out_bit(port, bit),
        outs_eq_except(*old(regs), *final(regs), port, bit),
        modes_eq(*old(regs), *final(regs)),
        ins_eq(*old(regs), *final(regs)),
{
    let i: u32 = bit as u32;
    if port == PORT_A {
        let r0: u32 = regs.pa_dout;
        proof {
            lemma_toggle_bit(r0, i);
        }
        regs.pa_dout = r0 ^ (1u32 << i);
    } else if port == PORT_B {
        let r0: u32 = regs.pb_dout;
        proof {
            lemma_toggle_bit(r0, i);
        }
        regs.pb_dout = r0 ^ (1u32 << i);
    } else if port == PORT_C {
        let r0: u32 = regs.pc_dout;
        proof {
            lemma_toggle_bit(r0, i);
        }
        regs.pc_dout = r0 ^ (1u32 << i);
    } else if port == PORT_E {
        let r0: u32 = regs.pe_dout;
        proof {
            lemma_toggle_bit(r0, i);
        }
        regs.pe_dout = r0 ^ (1u32 << i);
    } else {
        let r0: u32 = regs.pf_dout;
        proof {
            lemma_toggle_bit(r0, i);
        }
        regs.pf_dout = r0 ^ (1u32 << i);
    }
}

/// Writes the pin's output-data bit to a chosen value (used by transitions
/// into modes that overload the bit as pull-direction / filter enable).
fn write_out_bit(regs: &mut GpioRegisters, port: u8, bit: u8, v: bool)
    requires
        valid_pin(port, bit),
    ensures
        final(regs).out_bit(port, bit) == v,
        outs_eq_except(*old(regs), *final(regs), port, bit),
        modes_eq(*old(regs), *final(regs)),
        ins_eq(*old(regs), *final(regs)),
{
    if v {
        out_set(regs, port, bit);
    } else {
        out_clear(regs, port, bit);
    }
}

fn read_in_bit(regs: &GpioRegisters, port: u8, bit: u8) -> (r: bool)
    requires
        valid_pin(port, bit),
    ensures
        r == regs.in_bit(port, bit),
{
    let i: u32 = bit as u32;
    let w: u32 = if port == PORT_A {
        regs.pa_din
    } else if port == PORT_B {
        regs.pb_din
    } else if port == PORT_C {
        regs.pc_din
    } else if port == PORT_E {
        regs.pe_din
    } else {
        regs.pf_din
    };
    (w >> i) & 1 == 1
}

/// Marker trait of modes that drive the output-data bit.
pub trait OutputMode {}

/// Marker trait of modes that can read the input-data bit.
pub trait InputMode {}

/// Input and output disabled, no pull.
pub struct Disabled;

/// Input and output disabled, pull-up resistor enabled.
pub struct DisabledPullUp;

/// Input enabled without glitch filter.
pub struct Input;

impl InputMode for Input {}

/// Input enabled with glitch filter.
pub struct InputWithFilter;

impl InputMode for InputWithFilter {}

/// Input enabled with pull-down resistor (no glitch filter).
pub struct InputPullDown;

impl InputMode for InputPullDown {}

/// Input enabled with pull-up resistor (no glitch filter).
pub struct InputPullUp;

impl InputMode for InputPullUp {}

/// Input enabled with pull-down resistor and glitch filter.
pub struct InputPullDownWithFilter;

impl InputMode for InputPullDownWithFilter {}

/// Input enabled with pull-up resistor and glitch filter.
pub struct InputPullUpWithFilter;

impl InputMode for InputPullUpWithFilter {}

/// Push-pull output.
pub struct PushPull;

impl OutputMode for PushPull {}

/// Push-pull output with high current drive.
pub struct PushPullDrive;

impl OutputMode for PushPullDrive {}

/// Open-source output.
pub struct WiredOr;

pub type OpenSource = WiredOr;

impl OutputMode for WiredOr {}

/// Open-source output with pull-down resistor.
pub struct WiredOrPullDown;

pub type OpenSourcePullDown = WiredOrPullDown;

impl OutputMode for WiredOrPullDown {}

/// Open-drain output.
pub struct WiredAnd;

pub type OpenDrain = WiredAnd;

impl OutputMode for WiredAnd {}

/// Open-drain output with glitch filter on the input path.
pub struct WiredAndWithFilter;

pub type OpenDrainWithFilter = WiredAndWithFilter;

impl OutputMode for WiredAndWithFilter {}

/// Open-drain output with pull-up resistor.
pub struct WiredAndPullUp;

pub type OpenDrainPullUp = WiredAndPullUp;

impl OutputMode for WiredAndPullUp {}

/// Open-drain output with pull-up resistor and glitch filter.
pub struct WiredAndPullUpWithFilter;

pub type OpenDrainPullUpWithFilter = WiredAndPullUpWithFilter;

impl OutputMode for WiredAndPullUpWithFilter {}

/// Open-drain output with high current drive.
pub struct WiredAndDrive;

pub type OpenDrainDrive = WiredAndDrive;

impl OutputMode for WiredAndDrive {}

/// Open-drain output with high current drive and glitch filter.
pub struct WiredAndDriveWithFilter;

pub type OpenDrainDriveWithFilter = WiredAndDriveWithFilter;

impl OutputMode for WiredAndDriveWithFilter {}

/// Open-drain output with high current drive and pull-up resistor.
pub struct WiredAndDrivePullUp;

pub type OpenDrainDrivePullUp = WiredAndDrivePullUp;

impl OutputMode for WiredAndDrivePullUp {}

/// Open-drain output with high current drive, pull-up resistor and glitch
/// filter.
pub struct WiredAndDrivePullUpWithFilter;

pub type OpenDrainDrivePullUpWithFilter = WiredAndDrivePullUpWithFilter;

impl OutputMode for WiredAndDrivePullUpWithFilter {}

/// One physical pin, tagged with its current mode marker.
///
/// The port and bit of a pin never change; only the mode tag does. Values are
/// created by [`GpioRegisters::split`] (one per physical pin) and by the
/// consuming `into_*` transitions, so no two live values name the same pin.
pub struct Pin<MODE> {
    port: u8,
    bit: u8,
    _mode: PhantomData<MODE>,
}

impl<MODE> Pin<MODE> {
    /// The pin's port index.
    pub closed spec fn port_id(self) -> u8 {
        self.port
    }

    /// The pin's bit index within its port.
    pub closed spec fn bit_id(self) -> u8 {
        self.bit
    }

    /// The pin names a modelled pin location.
    pub open spec fn valid(self) -> bool {
        valid_pin(self.port_id(), self.bit_id())
    }

    /// The pin is the physical pin at (port, bit).
    pub open spec fn is_pin(self, port: u8, bit: u8) -> bool {
        self.port_id() == port && self.bit_id() == bit
    }
}

/// Common postcondition of every mode transition: the consumed pin and the
/// returned pin name the same physical location, the pin's mode-select field
/// now holds `mode`, no other pin's mode changed, and no input bit changed.
pub open spec fn transitioned(
    pre: GpioRegisters,
    post: GpioRegisters,
    port: u8,
    bit: u8,
    mode: u32,
) -> bool {
    &&& post.mode_sel(port, bit) == mode
    &&& modes_eq_except(pre, post, port, bit)
    &&& ins_eq(pre, post)
}

impl<MODE> Pin<MODE> {
    /// Disables the pin (mode-select write only).
    pub fn into_disabled(self, regs: &mut GpioRegisters) -> (r: Pin<Disabled>)
        requires
            self.valid(),
        ensures
            r.is_pin(self.port_id(), self.bit_id()),
            r.valid(),
            transitioned(*old(regs), *final(regs), r.port_id(), r.bit_id(), MODE_DISABLED),
            outs_eq(*old(regs), *final(regs)),
    {
        write_mode(regs, self.port, self.bit, MODE_DISABLED);
        Pin { port: self.port, bit: self.bit, _mode: PhantomData }
    }

    /// Disables the pin and enables its pull-up: the hardware overloads the
    /// output-data bit as the pull enable, so it is set as well.
    pub fn into_disabled_pull_up(self, regs: &mut GpioRegisters) -> (r: Pin<DisabledPullUp>)
        requires
            self.valid(),
        ensures
            r.is_pin(self.port_id(), self.bit_id()),
            r.valid(),
            transitioned(*old(regs), *final(regs), r.port_id(), r.bit_id(), MODE_DISABLED),
            final(regs).out_bit(r.port_id(), r.bit_id()) == true,
            outs_eq_except(*old(regs), *final(regs), r.port_id(), r.bit_id()),
    {
        write_mode(regs, self.port, self.bit, MODE_DISABLED);
        write_out_bit(regs, self.port, self.bit, true);
        Pin { port: self.port, bit: self.bit, _mode: PhantomData }
    }

    /// Plain input (mode-select write only).
    pub fn into_input(self, regs: &mut GpioRegisters) -> (r: Pin<Input>)
        requires
            self.valid(),
        ensures
            r.is_pin(self.port_id(), self.bit_id()),
            r.valid(),
            transitioned(*old(regs), *final(regs), r.port_id(), r.bit_id(), MODE_INPUT),
            outs_eq(*old(regs), *final(regs)),
    {
        write_mode(regs, self.port, self.bit, MODE_INPUT);
        Pin { port: self.port, bit: self.bit, _mode: PhantomData }
    }

    /// Input with glitch filter: in input mode the hardware overloads the
    /// output-data bit as the filter enable, so it is set.
    pub fn into_input_with_filter(self, regs: &mut GpioRegisters) -> (r: Pin<InputWithFilter>)
        requires
            self.valid(),
        ensures
            r.is_pin(self.port_id(), self.bit_id()),
            r.valid(),
            transitioned(*old(regs), *final(regs), r.port_id(), r.bit_id(), MODE_INPUT),
            final(regs).out_bit(r.port_id(), r.bit_id()) == true,
            outs_eq_except(*old(regs), *final(regs), r.port_id(), r.bit_id()),
    {
        write_mode(regs, self.port, self.bit, MODE_INPUT);
        write_out_bit(regs, self.port, self.bit, true);
        Pin { port: self.port, bit: self.bit, _mode: PhantomData }
    }

    /// Input with pull-down: the output-data bit selects the pull direction
    /// (low = pull-down), so it is cleared.
    pub fn into_input_pull_down(self, regs: &mut GpioRegisters) -> (r: Pin<InputPullDown>)
        requires
            self.valid(),
        ensures
            r.is_pin(self.port_id(), self.bit_id()),
            r.valid(),
            transitioned(*old(regs), *final(regs), r.port_id(), r.bit_id(), MODE_INPUTPULL),
            final(regs).out_bit(r.port_id(), r.bit_id()) == false,
            outs_eq_except(*old(regs), *final(regs), r.port_id(), r.bit_id()),
    {
        write_mode(regs, self.port, self.bit, MODE_INPUTPULL);
        write_out_bit(regs, self.port, self.bit, false);
        Pin { port: self.port, bit: self.bit, _mode: PhantomData }
    }

    /// Input with pull-up: the output-data bit selects the pull direction
    /// (high = pull-up), so it is set.
    pub fn into_input_pull_up(self, regs: &mut GpioRegisters) -> (r: Pin<InputPullUp>)
        requires
            self.valid(),
        ensures
            r.is_pin(self.port_id(), self.bit_id()),
            r.valid(),
            transitioned(*old(regs), *final(regs), r.port_id(), r.bit_id(), MODE_INPUTPULL),
            final(regs).out_bit(r.port_id(), r.bit_id()) == true,
            outs_eq_except(*old(regs), *final(regs), r.port_id(), r.bit_id()),
    {
        write_mode(regs, self.port, self.bit, MODE_INPUTPULL);
        write_out_bit(regs, self.port, self.bit, true);
        Pin { port: self.port, bit: self.bit, _mode: PhantomData }
    }

    /// Input with pull-down and glitch filter.
    pub fn into_input_pull_down_with_filter(self, regs: &mut GpioRegisters) -> (r: Pin<
        InputPullDownWithFilter,
    >)
        requires
            self.valid(),
        ensures
            r.is_pin(self.port_id(), self.bit_id()),
            r.valid(),
            transitioned(*old(regs), *final(regs), r.port_id(), r.bit_id(), MODE_INPUTPULLFILTER),
            final(regs).out_bit(r.port_id(), r.bit_id()) == false,
            outs_eq_except(*old(regs), *final(regs), r.port_id(), r.bit_id()),
    {
        write_mode(regs, self.port, self.bit, MODE_INPUTPULLFILTER);
        write_out_bit(regs, self.port, self.bit, false);
        Pin { port: self.port, bit: self.bit, _mode: PhantomData }
    }

    /// Input with pull-up and glitch filter.
    pub fn into_input_pull_up_with_filter(self, regs: &mut GpioRegisters) -> (r: Pin<
        InputPullUpWithFilter,
    >)
        requires
            self.valid(),
        ensures
            r.is_pin(self.port_id(), self.bit_id()),
            r.valid(),
            transitioned(*old(regs), *final(regs), r.port_id(), r.bit_id(), MODE_INPUTPULLFILTER),
            final(regs).out_bit(r.port_id(), r.bit_id()) == true,
            outs_eq_except(*old(regs), *final(regs), r.port_id(), r.bit_id()),
    {
        write_mode(regs, self.port, self.bit, MODE_INPUTPULLFILTER);
        write_out_bit(regs, self.port, self.bit, true);
        Pin { port: self.port, bit: self.bit, _mode: PhantomData }
    }

    /// Push-pull output.
    pub fn into_output_push_pull(self, regs: &mut GpioRegisters) -> (r: Pin<PushPull>)
        requires
            self.valid(),
        ensures
            r.is_pin(self.port_id(), self.bit_id()),
            r.valid(),
            transitioned(*old(regs), *final(regs), r.port_id(), r.bit_id(), MODE_PUSHPULL),
            outs_eq(*old(regs), *final(regs)),
    {
        write_mode(regs, self.port, self.bit, MODE_PUSHPULL);
        Pin { port: self.port, bit: self.bit, _mode: PhantomData }
    }

    /// Push-pull output with high current drive.
    pub fn into_output_push_pull_drive(self, regs: &mut GpioRegisters) -> (r: Pin<PushPullDrive>)
        requires
            self.valid(),
        ensures
            r.is_pin(self.port_id(), self.bit_id()),
            r.valid(),
            transitioned(*old(regs), *final(regs), r.port_id(), r.bit_id(), MODE_PUSHPULLDRIVE),
            outs_eq(*old(regs), *final(regs)),
    {
        write_mode(regs, self.port, self.bit, MODE_PUSHPULLDRIVE);
        Pin { port: self.port, bit: self.bit, _mode: PhantomData }
    }

    /// Open-source output.
    pub fn into_output_open_source(self, regs: &mut GpioRegisters) -> (r: Pin<WiredOr>)
        requires
            self.valid(),
        ensures
            r.is_pin(self.port_id(), self.bit_id()),
            r.valid(),
            transitioned(*old(regs), *final(regs), r.port_id(), r.bit_id(), MODE_WIREDOR),
            outs_eq(*old(regs), *final(regs)),
    {
        write_mode(regs, self.port, self.bit, MODE_WIREDOR);
        Pin { port: self.port, bit: self.bit, _mode: PhantomData }
    }

    /// Open-source output with pull-down resistor.
    pub fn into_output_open_source_pull_down(self, regs: &mut GpioRegisters) -> (r: Pin<
        WiredOrPullDown,
    >)
        requires
            self.valid(),
        ensures
            r.is_pin(self.port_id(), self.bit_id()),
            r.valid(),
            transitioned(*old(regs), *final(regs), r.port_id(), r.bit_id(), MODE_WIREDORPULLDOWN),
            outs_eq(*old(regs), *final(regs)),
    {
        write_mode(regs, self.port, self.bit, MODE_WIREDORPULLDOWN);
        Pin { port: self.port, bit: self.bit, _mode: PhantomData }
    }

    /// Open-drain output.
    pub fn into_output_open_drain(self, regs: &mut GpioRegisters) -> (r: Pin<WiredAnd>)
        requires
            self.valid(),
        ensures
            r.is_pin(self.port_id(), self.bit_id()),
            r.valid(),
            transitioned(*old(regs), *final(regs), r.port_id(), r.bit_id(), MODE_WIREDAND),
            outs_eq(*old(regs), *final(regs)),
    {
        write_mode(regs, self.port, self.bit, MODE_WIREDAND);
        Pin { port: self.port, bit: self.bit, _mode: PhantomData }
    }

    /// Open-drain output with glitch filter.
    pub fn into_output_open_drain_with_filter(self, regs: &mut GpioRegisters) -> (r: Pin<
        WiredAndWithFilter,
    >)
        requires
            self.valid(),
        ensures
            r.is_pin(self.port_id(), self.bit_id()),
            r.valid(),
            transitioned(*old(regs), *final(regs), r.port_id(), r.bit_id(), MODE_WIREDANDFILTER),
            outs_eq(*old(regs), *final(regs)),
    {
        write_mode(regs, self.port, self.bit, MODE_WIREDANDFILTER);
        Pin { port: self.port, bit: self.bit, _mode: PhantomData }
    }

    /// Open-drain output with pull-up resistor.
    pub fn into_output_open_drain_pull_up(self, regs: &mut GpioRegisters) -> (r: Pin<
        WiredAndPullUp,
    >)
        requires
            self.valid(),
        ensures
            r.is_pin(self.port_id(), self.bit_id()),
            r.valid(),
            transitioned(*old(regs), *final(regs), r.port_id(), r.bit_id(), MODE_WIREDANDPULLUP),
            outs_eq(*old(regs), *final(regs)),
    {
        write_mode(regs, self.port, self.bit, MODE_WIREDANDPULLUP);
        Pin { port: self.port, bit: self.bit, _mode: PhantomData }
    }

    /// Open-drain output with pull-up resistor and glitch filter.
    pub fn into_output_open_drain_pull_up_with_filter(self, regs: &mut GpioRegisters) -> (r: Pin<
        WiredAndPullUpWithFilter,
    >)
        requires
            self.valid(),
        ensures
            r.is_pin(self.port_id(), self.bit_id()),
            r.valid(),
            transitioned(
                *old(regs),
                *final(regs),
                r.port_id(),
                r.bit_id(),
                MODE_WIREDANDPULLUPFILTER,
            ),
            outs_eq(*old(regs), *final(regs)),
    {
        write_mode(regs, self.port, self.bit, MODE_WIREDANDPULLUPFILTER);
        Pin { port: self.port, bit: self.bit, _mode: PhantomData }
    }

    /// Open-drain output with high current drive.
    pub fn into_output_open_drain_drive(self, regs: &mut GpioRegisters) -> (r: Pin<WiredAndDrive>)
        requires
            self.valid(),
        ensures
            r.is_pin(self.port_id(), self.bit_id()),
            r.valid(),
            transitioned(*old(regs), *final(regs), r.port_id(), r.bit_id(), MODE_WIREDANDDRIVE),
            outs_eq(*old(regs), *final(regs)),
    {
        write_mode(regs, self.port, self.bit, MODE_WIREDANDDRIVE);
        Pin { port: self.port, bit: self.bit, _mode: PhantomData }
    }

    /// Open-drain output with high current drive and glitch filter.
    pub fn into_output_open_drain_drive_with_filter(self, regs: &mut GpioRegisters) -> (r: Pin<
        WiredAndDriveWithFilter,
    >)
        requires
            self.valid(),
        ensures
            r.is_pin(self.port_id(), self.bit_id()),
            r.valid(),
            transitioned(
                *old(regs),
                *final(regs),
                r.port_id(),
                r.bit_id(),
                MODE_WIREDANDDRIVEFILTER,
            ),
            outs_eq(*old(regs), *final(regs)),
    {
        write_mode(regs, self.port, self.bit, MODE_WIREDANDDRIVEFILTER);
        Pin { port: self.port, bit: self.bit, _mode: PhantomData }
    }

    /// Open-drain output with high current drive and pull-up resistor.
    pub fn into_output_open_drain_drive_pull_up(self, regs: &mut GpioRegisters) -> (r: Pin<
        WiredAndDrivePullUp,
    >)
        requires
            self.valid(),
        ensures
            r.is_pin(self.port_id(), self.bit_id()),
            r.valid(),
            transitioned(
                *old(regs),
                *final(regs),
                r.port_id(),
                r.bit_id(),
                MODE_WIREDANDDRIVEPULLUP,
            ),
            outs_eq(*old(regs), *final(regs)),
    {
        write_mode(regs, self.port, self.bit, MODE_WIREDANDDRIVEPULLUP);
        Pin { port: self.port, bit: self.bit, _mode: PhantomData }
    }

    /// Open-drain output with high current drive, pull-up resistor and
    /// glitch filter.
    pub fn into_output_open_drain_drive_pull_up_with_filter(
        self,
        regs: &mut GpioRegisters,
    ) -> (r: Pin<WiredAndDrivePullUpWithFilter>)
        requires
            self.valid(),
        ensures
            r.is_pin(self.port_id(), self.bit_id()),
            r.valid(),
            transitioned(
                *old(regs),
                *final(regs),
                r.port_id(),
                r.bit_id(),
                MODE_WIREDANDDRIVEPULLUPFILTER,
            ),
            outs_eq(*old(regs), *final(regs)),
    {
        write_mode(regs, self.port, self.bit, MODE_WIREDANDDRIVEPULLUPFILTER);
        Pin { port: self.port, bit: self.bit, _mode: PhantomData }
    }
}

impl<MODE: OutputMode> Pin<MODE> {
    /// Models a write to the set-alias register: drives the pin high.
    pub fn set_high(&self, regs: &mut GpioRegisters)
        requires
            self.valid(),
        ensures
            final(regs).out_bit(self.port_id(), self.bit_id()) == true,
            outs_eq_except(*old(regs), *final(regs), self.port_id(), self.bit_id()),
            modes_eq(*old(regs), *final(regs)),
            ins_eq(*old(regs), *final(regs)),
    {
        out_set(regs, self.port, self.bit);
    }

    /// Models a write to the clear-alias register: drives the pin low.
    pub fn set_low(&self, regs: &mut GpioRegisters)
        requires
            self.valid(),
        ensures
            final(regs).out_bit(self.port_id(), self.bit_id()) == false,
            outs_eq_except(*old(regs), *final(regs), self.port_id(), self.bit_id()),
            modes_eq(*old(regs), *final(regs)),
            ins_eq(*old(regs), *final(regs)),
    {
        out_clear(regs, self.port, self.bit);
    }

    /// Models a write to the toggle-alias register: inverts the pin's
    /// output-data bit.
    pub fn toggle(&self, regs: &mut GpioRegisters)
        requires
            self.valid(),
        ensures
            final(regs).out_bit(self.port_id(), self.bit_id()) == !old(regs).out_bit(
                self.port_id(),
                self.bit_id(),
            ),
            outs_eq_except(*old(regs), *final(regs), self.port_id(), self.bit_id()),
            modes_eq(*old(regs), *final(regs)),
            ins_eq(*old(regs), *final(regs)),
    {
        out_toggle(regs, self.port, self.bit);
    }
}

impl<MODE: InputMode> Pin<MODE> {
    /// Reads the pin's input-data bit.
    pub fn is_high(&self, regs: &GpioRegisters) -> (r: bool)
        requires
            self.valid(),
        ensures
            r == regs.in_bit(self.port_id(), self.bit_id()),
    {
        read_in_bit(regs, self.port, self.bit)
    }

    /// Reads the complement of the pin's input-data bit.
    pub fn is_low(&self, regs: &GpioRegisters) -> (r: bool)
        requires
            self.valid(),
        ensures
            r == !regs.in_bit(self.port_id(), self.bit_id()),
    {
        !self.is_high(regs)
    }
}

pub type A0<MODE> = Pin<MODE>;

pub type B7<MODE> = Pin<MODE>;

pub type B8<MODE> = Pin<MODE>;

pub type B11<MODE> = Pin<MODE>;

pub type B13<MODE> = Pin<MODE>;

pub type B14<MODE> = Pin<MODE>;

pub type C0<MODE> = Pin<MODE>;

pub type C1<MODE> = Pin<MODE>;

pub type C14<MODE> = Pin<MODE>;

pub type C15<MODE> = Pin<MODE>;

pub type E12<MODE> = Pin<MODE>;

pub type E13<MODE> = Pin<MODE>;

pub type F0<MODE> = Pin<MODE>;

pub type F1<MODE> = Pin<MODE>;

pub type F2<MODE> = Pin<MODE>;

/// The GPIO block split into its pins, all still disabled, together with the
/// register model they operate on.
pub struct Parts {
    pub regs: GpioRegisters,
    pub a0: A0<Disabled>,
    pub b7: B7<Disabled>,
    pub b8: B8<Disabled>,
    pub b11: B11<Disabled>,
    pub b13: B13<Disabled>,
    pub b14: B14<Disabled>,
    pub c0: C0<Disabled>,
    pub c1: C1<Disabled>,
    pub c14: C14<Disabled>,
    pub c15: C15<Disabled>,
    pub e12: E12<Disabled>,
    pub e13: E13<Disabled>,
    pub f0: F0<Disabled>,
    pub f1: F1<Disabled>,
    pub f2: F2<Disabled>,
}

impl Parts {
    /// Each pin value names its physical pin.
    pub open spec fn wf(self) -> bool {
        &&& self.a0.is_pin(PORT_A, 0)
        &&& self.b7.is_pin(PORT_B, 7)
        &&& self.b8.is_pin(PORT_B, 8)
        &&& self.b11.is_pin(PORT_B, 11)
        &&& self.b13.is_pin(PORT_B, 13)
        &&& self.b14.is_pin(PORT_B, 14)
        &&& self.c0.is_pin(PORT_C, 0)
        &&& self.c1.is_pin(PORT_C, 1)
        &&& self.c14.is_pin(PORT_C, 14)
        &&& self.c15.is_pin(PORT_C, 15)
        &&& self.e12.is_pin(PORT_E, 12)
        &&& self.e13.is_pin(PORT_E, 13)
        &&& self.f0.is_pin(PORT_F, 0)
        &&& self.f1.is_pin(PORT_F, 1)
        &&& self.f2.is_pin(PORT_F, 2)
    }
}

/// Splits a GPIO block into independent pins.
pub trait GpioExt where Self: Sized {
    /// The parts the block splits into.
    type Parts;

    /// What a split promises: how the returned parts relate to the consumed
    /// block and to the clock state before and after the call.
    spec fn splits_to(self, pre_cmu: Cmu, post_cmu: Cmu, parts: Self::Parts) -> bool;

    /// Enables the GPIO clock and yields one pin value per physical pin.
    fn split(self, cmu: &mut Cmu) -> (parts: Self::Parts)
        ensures
            self.splits_to(*old(cmu), *final(cmu), parts),
    ;
}

impl GpioExt for GpioRegisters {
    type Parts = Parts;

    /// The registers pass untouched into the parts' register model, each
    /// pin value names its physical pin, and the only clock change is the
    /// GPIO clock-enable.
    open spec fn splits_to(self, pre_cmu: Cmu, post_cmu: Cmu, parts: Parts) -> bool {
        &&& parts.wf()
        &&& parts.regs == self
        &&& post_cmu == (Cmu { gpio_clock: true, ..pre_cmu })
    }

    fn split(self, cmu: &mut Cmu) -> (parts: Parts) {
        cmu.gpio_clock = true;
        Parts {
            regs: self,
            a0: Pin { port: PORT_A, bit: 0, _mode: PhantomData },
            b7: Pin { port: PORT_B, bit: 7, _mode: PhantomData },
            b8: Pin { port: PORT_B, bit: 8, _mode: PhantomData },
            b11: Pin { port: PORT_B, bit: 11, _mode: PhantomData },
            b13: Pin { port: PORT_B, bit: 13, _mode: PhantomData },
            b14: Pin { port: PORT_B, bit: 14, _mode: PhantomData },
            c0: Pin { port: PORT_C, bit: 0, _mode: PhantomData },
            c1: Pin { port: PORT_C, bit: 1, _mode: PhantomData },
            c14: Pin { port: PORT_C, bit: 14, _mode: PhantomData },
            c15: Pin { port: PORT_C, bit: 15, _mode: PhantomData },
            e12: Pin { port: PORT_E, bit: 12, _mode: PhantomData },
            e13: Pin { port: PORT_E, bit: 13, _mode: PhantomData },
            f0: Pin { port: PORT_F, bit: 0, _mode: PhantomData },
            f1: Pin { port: PORT_F, bit: 1, _mode: PhantomData },
            f2: Pin { port: PORT_F, bit: 2, _mode: PhantomData },
        }
    }
}

/// One output operation on a pin, as performed by `set_high`, `set_low` and
/// `toggle`.
pub enum OutOp {
    High,
    Low,
    Toggle,
}

/// The output-data bit after one output operation, starting from bit `b`.
pub open spec fn apply_out_op(b: bool, op: OutOp) -> bool {
    match op {
        OutOp::High => true,
        OutOp::Low => false,
        OutOp::Toggle => !b,
    }
}

/// The output-data bit after a sequence of output operations, starting from
/// bit `b`.
pub open spec fn apply_out_ops(b: bool, ops: Seq<OutOp>) -> bool
    decreases ops.len(),
{
    if ops.len() == 0 {
        b
    } else {
        apply_out_op(apply_out_ops(b, ops.drop_last()), ops.last())
    }
}

/// For any sequence of output operations on an output pin, the resulting
/// output-data bit is the fold of the sequence from the starting bit, and
/// that fold obeys the exclusive-or algebra of the three operations: toggle
/// inverts and is self-inverse, while set-high and set-low absorb whatever
/// came before them. The contracts of `set_high`, `set_low` and `toggle`
/// perform exactly one such operation each, so the fold describes any run of
/// them.
pub proof fn lemma_out_op_fold(b: bool, ops: Seq<OutOp>)
    ensures
        apply_out_ops(b, ops.push(OutOp::Toggle)) == !apply_out_ops(b, ops),
        apply_out_ops(b, ops.push(OutOp::Toggle).push(OutOp::Toggle)) == apply_out_ops(b, ops),
        apply_out_ops(b, ops.push(OutOp::High)) == true,
        apply_out_ops(b, ops.push(OutOp::Low)) == false,
{
    assert(ops.push(OutOp::Toggle).drop_last() =~= ops);
    assert(ops.push(OutOp::High).drop_last() =~= ops);
    assert(ops.push(OutOp::Low).drop_last() =~= ops);
    let t1 = ops.push(OutOp::Toggle);
    assert(t1.push(OutOp::Toggle).drop_last() =~= t1);
}

/// A sequence of toggles alone is a pure exclusive-or fold: the resulting
/// bit is the starting bit combined with the parity of the number of
/// toggles.
pub proof fn lemma_toggle_parity(b: bool, ops: Seq<OutOp>)
    requires
        forall|i: int| 0 <= i < ops.len() ==> ops[i] is Toggle,
    ensures
        apply_out_ops(b, ops) == (b ^ (ops.len() % 2 == 1)),
    decreases ops.len(),
{
    if ops.len() != 0 {
        lemma_toggle_parity(b, ops.drop_last());
    }
}

} // verus!
