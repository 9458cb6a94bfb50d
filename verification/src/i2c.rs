//! The I2C expander bus engine: the RS, read, Enable and backlight bits
//! and the four data lines live in one output byte of a GPIO expander
//! reachable only over I2C.
//!
//! Bit 0 selects the register, bit 1 the read direction, bit 2 is the
//! Enable strobe, bit 3 the backlight, and bits 4 to 7 carry the data
//! nibble. Only the backlight bit outlives a transfer; the engine keeps it
//! in a persisted state byte that every frame is composed from. Every
//! operation is built as a plan of I2C frames whose contract pins each
//! byte down, then replayed over the port.

use vstd::prelude::*;
use crate::bus::LcdInit;
use crate::bus::LcdRead;
use crate::bus::LcdWrite;
use crate::commands::CLEAR_DISPLAY;
use crate::commands::display_control_byte;
use crate::commands::entry_mode_byte;
use crate::commands::function_set_byte_4bit;
use crate::commands::sp_display_control_byte;
use crate::commands::sp_entry_mode_byte;
use crate::commands::sp_function_set_byte_4bit;
use crate::modes::LcdDisplayMode;
use crate::modes::LcdEntryMode;
use crate::modes::LcdFunctionMode;
use crate::modes::LcdRegisterSelect;
use crate::modes::LcdStatus;
use crate::timings::DefaultTimingsI2c;
use crate::timings::LcdTimingValues;
use crate::timings::LcdTimingsI2c;
use crate::timings::spec_enable_off;
use crate::timings::spec_enable_on;
use crate::transport::LcdDelay;
use crate::transport::LcdI2cPort;

verus! {

/// The register-select bit of the expander byte.
pub const I2C_REGISTER_SELECT: u8 = 0x01;

/// The read-direction bit of the expander byte.
pub const I2C_READ: u8 = 0x02;

/// The Enable strobe bit of the expander byte.
pub const I2C_ENABLE: u8 = 0x04;

/// The backlight bit of the expander byte; the only bit that persists
/// across transfers.
pub const I2C_BACKLIGHT: u8 = 0x08;

/// The data-nibble field of the expander byte (the upper four bits).
pub const I2C_DATA: u8 = 0xf0;

/// One I2C frame of a transfer plan: a one-byte write, a two-byte write,
/// one combined transaction that reads a byte and then writes one, or a
/// hold time.
#[derive(Clone, Copy, Debug, PartialEq, Eq, Structural)]
pub enum LcdI2cOp {
    WriteOne(u8),
    WriteTwo(u8, u8),
    ReadThenWrite(u8),
    Wait(u32),
}

/// The persisted state byte with the register-select bit forced to the
/// target register.
pub open spec fn sp_i2c_state_with_rs(state: u8, rs: LcdRegisterSelect) -> u8 {
    if rs is Memory {
        state | I2C_REGISTER_SELECT
    } else {
        state & !I2C_REGISTER_SELECT
    }
}

/// The state byte with the backlight bit forced on or off.
pub open spec fn sp_i2c_state_with_backlight(state: u8, on: bool) -> u8 {
    if on {
        state | I2C_BACKLIGHT
    } else {
        state & !I2C_BACKLIGHT
    }
}

/// The plan of a byte write over the expander: for each nibble, upper
/// first, one two-byte frame that sets the lines and raises Enable, the
/// on-hold, one frame that lowers Enable, the off-hold — four frames and
/// four holds per byte.
pub open spec fn sp_i2c_write_plan(
    v: LcdTimingValues,
    state: u8,
    rs: LcdRegisterSelect,
    data: u8,
) -> Seq<LcdI2cOp> {
    let st = sp_i2c_state_with_rs(state, rs);
    let upper = st | (data & 0xf0);
    let lower = st | (data << 4);
    seq![
        LcdI2cOp::WriteTwo(upper, upper | I2C_ENABLE),
        LcdI2cOp::Wait(spec_enable_on(v, rs)),
        LcdI2cOp::WriteOne(upper),
        LcdI2cOp::Wait(spec_enable_off(v, rs)),
        LcdI2cOp::WriteTwo(lower, lower | I2C_ENABLE),
        LcdI2cOp::Wait(spec_enable_on(v, rs)),
        LcdI2cOp::WriteOne(lower),
        LcdI2cOp::Wait(spec_enable_off(v, rs)),
    ]
}

/// The plan of a byte read over the expander: for each nibble, one
/// two-byte frame that floats the data lines high, sets the read bit and
/// raises Enable, the settle time, then one combined transaction that
/// samples the expander and lowers Enable, then the off-hold.
pub open spec fn sp_i2c_read_plan(v: LcdTimingValues, state: u8, rs: LcdRegisterSelect) -> Seq<
    LcdI2cOp,
> {
    let st = sp_i2c_state_with_rs(state, rs);
    let probe = st | I2C_DATA | I2C_READ;
    seq![
        LcdI2cOp::WriteTwo(probe, probe | I2C_ENABLE),
        LcdI2cOp::Wait(v.read_delay),
        LcdI2cOp::ReadThenWrite(probe),
        LcdI2cOp::Wait(spec_enable_off(v, rs)),
        LcdI2cOp::WriteTwo(probe, probe | I2C_ENABLE),
        LcdI2cOp::Wait(v.read_delay),
        LcdI2cOp::ReadThenWrite(probe),
        LcdI2cOp::Wait(spec_enable_off(v, rs)),
    ]
}

/// The reset handshake over the expander: the 8-bit select pattern 0x30 in
/// the data field, pulsed three times with the documented waits. Each
/// pulse is two frames, because the expander has no per-line granularity:
/// the whole byte is rewritten with Enable high and then with Enable low.
pub open spec fn sp_i2c_reset_ops(v: LcdTimingValues, state: u8) -> Seq<LcdI2cOp> {
    let b = state | 0x30;
    seq![
        LcdI2cOp::Wait(v.power_on_delay),
        LcdI2cOp::WriteTwo(b, b | I2C_ENABLE),
        LcdI2cOp::Wait(spec_enable_on(v, LcdRegisterSelect::Control)),
        LcdI2cOp::WriteOne(b),
        LcdI2cOp::Wait(v.first_init_delay),
        LcdI2cOp::WriteOne(b | I2C_ENABLE),
        LcdI2cOp::Wait(spec_enable_on(v, LcdRegisterSelect::Control)),
        LcdI2cOp::WriteOne(b),
        LcdI2cOp::Wait(v.second_init_delay),
        LcdI2cOp::WriteOne(b | I2C_ENABLE),
        LcdI2cOp::Wait(spec_enable_on(v, LcdRegisterSelect::Control)),
        LcdI2cOp::WriteOne(b),
        LcdI2cOp::Wait(spec_enable_off(v, LcdRegisterSelect::Control)),
    ]
}

/// The extra pulse that switches the controller to 4-bit transfers: the
/// function-set opcode's upper nibble in the data field, pulsed once.
pub open spec fn sp_i2c_select4_ops(v: LcdTimingValues, state: u8) -> Seq<LcdI2cOp> {
    let b = state | 0x20;
    seq![
        LcdI2cOp::WriteTwo(b, b | I2C_ENABLE),
        LcdI2cOp::Wait(spec_enable_on(v, LcdRegisterSelect::Control)),
        LcdI2cOp::WriteOne(b),
        LcdI2cOp::Wait(spec_enable_off(v, LcdRegisterSelect::Control)),
    ]
}

/// The full init plan over the expander: power-on wait, reset handshake,
/// 4-bit select pulse, then the four configuration commands as ordinary
/// control-register writes.
pub open spec fn sp_i2c_init_plan(
    v: LcdTimingValues,
    state: u8,
    function: u8,
    display: u8,
    entry: u8,
) -> Seq<LcdI2cOp> {
    sp_i2c_reset_ops(v, state) + sp_i2c_select4_ops(v, state) + sp_i2c_write_plan(
        v,
        state,
        LcdRegisterSelect::Control,
        sp_function_set_byte_4bit(function),
    ) + sp_i2c_write_plan(v, state, LcdRegisterSelect::Control, sp_display_control_byte(display))
        + sp_i2c_write_plan(v, state, LcdRegisterSelect::Control, CLEAR_DISPLAY)
        + sp_i2c_write_plan(v, state, LcdRegisterSelect::Control, sp_entry_mode_byte(entry))
}

/// The status byte reassembled from the two sampled expander bytes: the
/// upper nibble comes from the first transaction's high bits, the lower
/// nibble from the second's, because the expander's data pins sit in the
/// upper nibble whichever nibble is logically transferred.
pub open spec fn sp_i2c_status_byte(first: u8, second: u8) -> u8 {
    (first & 0xf0) | (second >> 4)
}

/// How many combined read transactions a plan performs from position `i`.
pub open spec fn sp_i2c_reads_from(plan: Seq<LcdI2cOp>, i: int) -> nat
    decreases plan.len() - i,
{
    if i < 0 || i >= plan.len() {
        0
    } else {
        (if plan[i] is ReadThenWrite {
            1nat
        } else {
            0nat
        }) + sp_i2c_reads_from(plan, i + 1)
    }
}

/// Assembles the status byte from the two sampled expander bytes, first
/// transaction first.
pub fn assemble_status_i2c(first: u8, second: u8) -> (s: LcdStatus)
    ensures
        s@ == sp_i2c_status_byte(first, second),
{
    LcdStatus::from_bits_retain((first & 0xf0) | (second >> 4))
}

/// Replays an I2C plan over the port: every frame is sent in plan order to
/// the one device address, the bytes read by combined transactions are
/// collected in order, and the first port fault aborts the replay and is
/// returned unchanged.
fn run_i2c_ops<I: LcdI2cPort, D: LcdDelay>(
    port: &mut I,
    address: u8,
    plan: &Vec<LcdI2cOp>,
    delay: &mut D,
) -> (r: Result<Vec<u8>, I::Fault>)
    ensures
        r is Ok ==> r->Ok_0@.len() == sp_i2c_reads_from(plan@, 0),
{
    let mut reads: Vec<u8> = Vec::new();
    let n = plan.len();
    for i in 0..n
        invariant
            n == plan@.len(),
            reads@.len() + sp_i2c_reads_from(plan@, i as int) == sp_i2c_reads_from(plan@, 0),
    {
        let op = plan[i];
        match op {
            LcdI2cOp::WriteOne(byte) => {
                port.write_one(address, byte)?;
            },
            LcdI2cOp::WriteTwo(first, second) => {
                port.write_two(address, first, second)?;
            },
            LcdI2cOp::ReadThenWrite(byte) => {
                let sampled = port.read_one_then_write(address, byte)?;
                reads.push(sampled);
            },
            LcdI2cOp::Wait(ns) => {
                delay.delay_ns(ns);
            },
        }
    }
    Ok(reads)
}

/// The I2C expander bus engine: the port, the device address, the
/// persisted state byte, and the timing policy.
pub struct LcdI2c8574Bus<I, T> {
    i2c: I,
    address: u8,
    state: u8,
    timings: T,
}

impl<I, T> LcdI2c8574Bus<I, T> {
    /// The port the engine owns.
    pub closed spec fn spec_i2c(&self) -> I {
        self.i2c
    }

    /// The device address every frame is sent to.
    pub closed spec fn spec_address(&self) -> u8 {
        self.address
    }

    /// The persisted state byte. Only its backlight bit carries meaning
    /// between transfers.
    pub closed spec fn spec_state(&self) -> u8 {
        self.state
    }

    /// The engine's invariant: between operations the state byte holds
    /// nothing but the backlight bit.
    pub open spec fn wf(&self) -> bool {
        self.spec_state() & !I2C_BACKLIGHT == 0
    }

    /// The device address, as a value.
    pub fn address(&self) -> (r: u8)
        ensures
            r == self.spec_address(),
    {
        self.address
    }

    /// Hands the port back to the caller.
    pub fn destroy(self) -> (r: I)
        ensures
            r == self.spec_i2c(),
    {
        self.i2c
    }
}

impl<I> LcdI2c8574Bus<I, DefaultTimingsI2c> {
    /// An engine over `i2c` for the device at `address`, with the built-in
    /// I2C timing policy. The backlight starts on.
    pub fn new(i2c: I, address: u8) -> (r: Self)
        ensures
            r.spec_i2c() == i2c,
            r.spec_address() == address,
            r.spec_state() == I2C_BACKLIGHT,
            r.wf(),
            r.timing_values() == crate::timings::spec_nibble_values(),
    {
        let r = LcdI2c8574Bus { i2c, address, state: I2C_BACKLIGHT, timings: DefaultTimingsI2c };
        proof {
            assert(I2C_BACKLIGHT & !I2C_BACKLIGHT == 0) by (bit_vector);
        }
        r
    }
}

impl<I, T: LcdTimingsI2c> LcdI2c8574Bus<I, T> {
    /// The value table of the engine's timing policy.
    pub closed spec fn timing_values(&self) -> LcdTimingValues {
        self.timings.spec_values()
    }

    /// An engine over `i2c` for the device at `address`, with a
    /// caller-supplied timing policy. The backlight starts on.
    pub fn new_with_timings(i2c: I, address: u8, timings: T) -> (r: Self)
        ensures
            r.spec_i2c() == i2c,
            r.spec_address() == address,
            r.spec_state() == I2C_BACKLIGHT,
            r.wf(),
            r.timing_values() == timings.spec_values(),
    {
        let r = LcdI2c8574Bus { i2c, address, state: I2C_BACKLIGHT, timings };
        proof {
            assert(I2C_BACKLIGHT & !I2C_BACKLIGHT == 0) by (bit_vector);
        }
        r
    }

    /// The plan of a byte write from the engine's current state.
    pub fn write_plan(&self, rs: LcdRegisterSelect, data: u8) -> (plan: Vec<LcdI2cOp>)
        ensures
            plan@ == sp_i2c_write_plan(self.timing_values(), self.spec_state(), rs, data),
    {
        let st = if rs == LcdRegisterSelect::Memory {
            self.state | I2C_REGISTER_SELECT
        } else {
            self.state & !I2C_REGISTER_SELECT
        };
        let upper = st | (data & 0xf0);
        let lower = st | (data << 4u8);
        let mut plan: Vec<LcdI2cOp> = Vec::new();
        plan.push(LcdI2cOp::WriteTwo(upper, upper | I2C_ENABLE));
        plan.push(LcdI2cOp::Wait(self.timings.enable_pulse_on(rs)));
        plan.push(LcdI2cOp::WriteOne(upper));
        plan.push(LcdI2cOp::Wait(self.timings.enable_pulse_off(rs)));
        plan.push(LcdI2cOp::WriteTwo(lower, lower | I2C_ENABLE));
        plan.push(LcdI2cOp::Wait(self.timings.enable_pulse_on(rs)));
        plan.push(LcdI2cOp::WriteOne(lower));
        plan.push(LcdI2cOp::Wait(self.timings.enable_pulse_off(rs)));
        proof {
            assert(plan@ =~= sp_i2c_write_plan(self.timing_values(), self.spec_state(), rs, data));
        }
        plan
    }

    /// The plan of a byte read from the engine's current state.
    pub fn read_plan(&self, rs: LcdRegisterSelect) -> (plan: Vec<LcdI2cOp>)
        ensures
            plan@ == sp_i2c_read_plan(self.timing_values(), self.spec_state(), rs),
    {
        let st = if rs == LcdRegisterSelect::Memory {
            self.state | I2C_REGISTER_SELECT
        } else {
            self.state & !I2C_REGISTER_SELECT
        };
        let probe = st | I2C_DATA | I2C_READ;
        let mut plan: Vec<LcdI2cOp> = Vec::new();
        plan.push(LcdI2cOp::WriteTwo(probe, probe | I2C_ENABLE));
        plan.push(LcdI2cOp::Wait(self.timings.read_delay()));
        plan.push(LcdI2cOp::ReadThenWrite(probe));
        plan.push(LcdI2cOp::Wait(self.timings.enable_pulse_off(rs)));
        plan.push(LcdI2cOp::WriteTwo(probe, probe | I2C_ENABLE));
        plan.push(LcdI2cOp::Wait(self.timings.read_delay()));
        plan.push(LcdI2cOp::ReadThenWrite(probe));
        plan.push(LcdI2cOp::Wait(self.timings.enable_pulse_off(rs)));
        proof {
            assert(plan@ =~= sp_i2c_read_plan(self.timing_values(), self.spec_state(), rs));
        }
        plan
    }

    /// The full init plan from the engine's current state.
    pub fn init_plan(
        &self,
        function: LcdFunctionMode,
        display: LcdDisplayMode,
        entry: LcdEntryMode,
    ) -> (plan: Vec<LcdI2cOp>)
        ensures
            plan@ == sp_i2c_init_plan(
                self.timing_values(),
                self.spec_state(),
                function@,
                display@,
                entry@,
            ),
    {
        let b = self.state | 0x30;
        let b2 = self.state | 0x20;
        let mut plan: Vec<LcdI2cOp> = Vec::new();
        plan.push(LcdI2cOp::Wait(self.timings.power_on_delay()));
        plan.push(LcdI2cOp::WriteTwo(b, b | I2C_ENABLE));
        plan.push(LcdI2cOp::Wait(self.timings.enable_pulse_on(LcdRegisterSelect::Control)));
        plan.push(LcdI2cOp::WriteOne(b));
        plan.push(LcdI2cOp::Wait(self.timings.first_init_delay()));
        plan.push(LcdI2cOp::WriteOne(b | I2C_ENABLE));
        plan.push(LcdI2cOp::Wait(self.timings.enable_pulse_on(LcdRegisterSelect::Control)));
        plan.push(LcdI2cOp::WriteOne(b));
        plan.push(LcdI2cOp::Wait(self.timings.second_init_delay()));
        plan.push(LcdI2cOp::WriteOne(b | I2C_ENABLE));
        plan.push(LcdI2cOp::Wait(self.timings.enable_pulse_on(LcdRegisterSelect::Control)));
        plan.push(LcdI2cOp::WriteOne(b));
        plan.push(LcdI2cOp::Wait(self.timings.enable_pulse_off(LcdRegisterSelect::Control)));
        plan.push(LcdI2cOp::WriteTwo(b2, b2 | I2C_ENABLE));
        plan.push(LcdI2cOp::Wait(self.timings.enable_pulse_on(LcdRegisterSelect::Control)));
        plan.push(LcdI2cOp::WriteOne(b2));
        plan.push(LcdI2cOp::Wait(self.timings.enable_pulse_off(LcdRegisterSelect::Control)));
        proof {
            assert(plan@ =~= sp_i2c_reset_ops(self.timing_values(), self.spec_state())
                + sp_i2c_select4_ops(self.timing_values(), self.spec_state()));
        }
        let mut tail = self.write_plan(LcdRegisterSelect::Control, function_set_byte_4bit(function));
        plan.append(&mut tail);
        let mut tail = self.write_plan(LcdRegisterSelect::Control, display_control_byte(display));
        plan.append(&mut tail);
        let mut tail = self.write_plan(LcdRegisterSelect::Control, CLEAR_DISPLAY);
        plan.append(&mut tail);
        let mut tail = self.write_plan(LcdRegisterSelect::Control, entry_mode_byte(entry));
        plan.append(&mut tail);
        proof {
            assert(plan@ =~= sp_i2c_init_plan(
                self.timing_values(),
                self.spec_state(),
                function@,
                display@,
                entry@,
            ));
        }
        plan
    }
}

impl<I: LcdI2cPort, T: LcdTimingsI2c> LcdI2c8574Bus<I, T> {
    /// Turns the backlight bit on or off and pushes the full state byte to
    /// the expander at once. The in-memory state is committed only when the
    /// transfer succeeded, so a fault leaves the engine's mirror of the
    /// expander unchanged.
    pub fn set_backlight(&mut self, on: bool) -> (r: Result<(), I::Fault>)
        ensures
            r is Ok ==> final(self).spec_state() == sp_i2c_state_with_backlight(
                old(self).spec_state(),
                on,
            ),
            r is Err ==> final(self).spec_state() == old(self).spec_state(),
            final(self).spec_address() == old(self).spec_address(),
            final(self).timing_values() == old(self).timing_values(),
            old(self).wf() ==> final(self).wf(),
    {
        let next = if on {
            self.state | I2C_BACKLIGHT
        } else {
            self.state & !I2C_BACKLIGHT
        };
        proof {
            let s = self.state;
            assert(s & !0x08u8 == 0 ==> ((s | 0x08u8) & !0x08u8 == 0 && (s & !0x08u8) & !0x08u8
                == 0)) by (bit_vector);
        }
        match self.i2c.write_one(self.address, next) {
            Ok(()) => {
                self.state = next;
                Ok(())
            },
            Err(fault) => Err(fault),
        }
    }
}

impl<I: LcdI2cPort, T: LcdTimingsI2c, Delay: LcdDelay> LcdWrite<Delay> for LcdI2c8574Bus<I, T> {
    type Error = I::Fault;

    fn write(&mut self, rs: LcdRegisterSelect, data: u8, delay: &mut Delay) -> (r: Result<
        (),
        Self::Error,
    >)
        ensures
            final(self).spec_state() == old(self).spec_state(),
            final(self).spec_address() == old(self).spec_address(),
            final(self).timing_values() == old(self).timing_values(),
    {
        let plan = self.write_plan(rs, data);
        let address = self.address;
        run_i2c_ops(&mut self.i2c, address, &plan, delay)?;
        Ok(())
    }
}

impl<I: LcdI2cPort, T: LcdTimingsI2c, Delay: LcdDelay> LcdRead<Delay> for LcdI2c8574Bus<I, T> {
    fn read_status(&mut self, delay: &mut Delay) -> (r: Result<LcdStatus, Self::Error>)
        ensures
            final(self).spec_state() == old(self).spec_state(),
            final(self).spec_address() == old(self).spec_address(),
            final(self).timing_values() == old(self).timing_values(),
    {
        let plan = self.read_plan(LcdRegisterSelect::Control);
        let address = self.address;
        let reads = run_i2c_ops(&mut self.i2c, address, &plan, delay)?;
        proof {
            reveal_with_fuel(sp_i2c_reads_from, 10);
            assert(sp_i2c_reads_from(
                sp_i2c_read_plan(
                    self.timing_values(),
                    self.spec_state(),
                    LcdRegisterSelect::Control,
                ),
                0,
            ) == 2);
        }
        Ok(assemble_status_i2c(reads[0], reads[1]))
    }
}

impl<I: LcdI2cPort, T: LcdTimingsI2c, Delay: LcdDelay> LcdInit<Delay> for LcdI2c8574Bus<I, T> {
    fn init(
        &mut self,
        function: LcdFunctionMode,
        display: LcdDisplayMode,
        entry: LcdEntryMode,
        delay: &mut Delay,
    ) -> (r: Result<(), Self::Error>)
        ensures
            final(self).spec_state() == old(self).spec_state(),
            final(self).spec_address() == old(self).spec_address(),
            final(self).timing_values() == old(self).timing_values(),
    {
        let plan = self.init_plan(function, display, entry);
        let address = self.address;
        run_i2c_ops(&mut self.i2c, address, &plan, delay)?;
        Ok(())
    }
}

} // verus!
