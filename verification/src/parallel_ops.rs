//! The electrical vocabulary of the parallel bus engines and the exact
//! plans they produce.
//!
//! A *write plan* is a sequence of [`LcdBusOp`] values: line levels, a
//! direction switch to write mode, and hold times. A *read plan* is a
//! sequence of [`LcdProbeOp`] values, which add the switch to read mode and
//! the sampling of a line. The spec functions here pin each plan down
//! element by element; the executable builders return exactly those plans.

use vstd::prelude::*;
use crate::commands::sp_display_control_byte;
use crate::commands::sp_entry_mode_byte;
use crate::commands::sp_function_set_byte_4bit;
use crate::commands::sp_function_set_byte_8bit;
use crate::commands::CLEAR_DISPLAY;
use crate::commands::display_control_byte;
use crate::commands::entry_mode_byte;
use crate::commands::function_set_byte_4bit;
use crate::commands::function_set_byte_8bit;
use crate::modes::LcdDisplayMode;
use crate::modes::LcdEntryMode;
use crate::modes::LcdFunctionMode;
use crate::modes::LcdRegisterSelect;
use crate::timings::LcdTimingValues;
use crate::timings::LcdTimingsParallel;
use crate::timings::spec_enable_off;
use crate::timings::spec_enable_on;

verus! {

/// One physical line of the parallel bus: register select, enable, and the
/// eight data lines. The read/write direction line is not addressed by
/// level but by the dedicated direction operations.
#[derive(Clone, Copy, Debug, PartialEq, Eq, Structural)]
pub enum LcdLine {
    Rs,
    En,
    D0,
    D1,
    D2,
    D3,
    D4,
    D5,
    D6,
    D7,
}

/// One step of a write transfer: drive a line to a level, switch the bus
/// into write direction, or hold for a number of nanoseconds.
#[derive(Clone, Copy, Debug, PartialEq, Eq, Structural)]
pub enum LcdBusOp {
    SetLine(LcdLine, bool),
    SetWriteMode,
    Wait(u32),
}

/// One step of a read transfer: drive a line, switch the bus direction,
/// sample a line level, or hold for a number of nanoseconds.
#[derive(Clone, Copy, Debug, PartialEq, Eq, Structural)]
pub enum LcdProbeOp {
    Drive(LcdLine, bool),
    SetReadMode,
    SetWriteMode,
    Sample(LcdLine),
    Wait(u32),
}

/// Drives the eight data lines to the bits of `data`, line `D0` carrying
/// bit 0 through line `D7` carrying bit 7.
pub open spec fn sp_data8_ops(data: u8) -> Seq<LcdBusOp> {
    seq![
        LcdBusOp::SetLine(LcdLine::D0, (data & 0x01) != 0),
        LcdBusOp::SetLine(LcdLine::D1, (data & 0x02) != 0),
        LcdBusOp::SetLine(LcdLine::D2, (data & 0x04) != 0),
        LcdBusOp::SetLine(LcdLine::D3, (data & 0x08) != 0),
        LcdBusOp::SetLine(LcdLine::D4, (data & 0x10) != 0),
        LcdBusOp::SetLine(LcdLine::D5, (data & 0x20) != 0),
        LcdBusOp::SetLine(LcdLine::D6, (data & 0x40) != 0),
        LcdBusOp::SetLine(LcdLine::D7, (data & 0x80) != 0),
    ]
}

/// Drives the four upper data lines to the low nibble of `nibble`, line
/// `D4` carrying bit 0 through line `D7` carrying bit 3.
pub open spec fn sp_data4_ops(nibble: u8) -> Seq<LcdBusOp> {
    seq![
        LcdBusOp::SetLine(LcdLine::D4, (nibble & 0x01) != 0),
        LcdBusOp::SetLine(LcdLine::D5, (nibble & 0x02) != 0),
        LcdBusOp::SetLine(LcdLine::D6, (nibble & 0x04) != 0),
        LcdBusOp::SetLine(LcdLine::D7, (nibble & 0x08) != 0),
    ]
}

/// One full enable pulse: raise Enable, hold the on-duration, lower
/// Enable, hold the off-duration, both durations selected by the register.
pub open spec fn sp_pulse(v: LcdTimingValues, rs: LcdRegisterSelect) -> Seq<LcdBusOp> {
    seq![
        LcdBusOp::SetLine(LcdLine::En, true),
        LcdBusOp::Wait(spec_enable_on(v, rs)),
        LcdBusOp::SetLine(LcdLine::En, false),
        LcdBusOp::Wait(spec_enable_off(v, rs)),
    ]
}

/// An enable pulse with no trailing hold, as the reset handshake uses
/// before its own inter-pulse waits.
pub open spec fn sp_pulse_no_tail(v: LcdTimingValues, rs: LcdRegisterSelect) -> Seq<LcdBusOp> {
    seq![
        LcdBusOp::SetLine(LcdLine::En, true),
        LcdBusOp::Wait(spec_enable_on(v, rs)),
        LcdBusOp::SetLine(LcdLine::En, false),
    ]
}

/// An 8-bit write: select the register, drive all eight data lines to the
/// bits of `data`, and latch them with one enable pulse.
pub open spec fn sp_write8_plan(v: LcdTimingValues, rs: LcdRegisterSelect, data: u8) -> Seq<
    LcdBusOp,
> {
    seq![LcdBusOp::SetLine(LcdLine::Rs, rs is Memory)] + sp_data8_ops(data) + sp_pulse(v, rs)
}

/// One nibble cycle of a 4-bit transfer: drive the four data lines to the
/// low nibble of `nibble` and latch it with one enable pulse.
pub open spec fn sp_nibble_cycle(v: LcdTimingValues, rs: LcdRegisterSelect, nibble: u8) -> Seq<
    LcdBusOp,
> {
    sp_data4_ops(nibble) + sp_pulse(v, rs)
}

/// A 4-bit write: select the register, then two nibble cycles, the upper
/// nibble of `data` strictly before the lower.
pub open spec fn sp_write4_plan(v: LcdTimingValues, rs: LcdRegisterSelect, data: u8) -> Seq<
    LcdBusOp,
> {
    seq![LcdBusOp::SetLine(LcdLine::Rs, rs is Memory)] + sp_nibble_cycle(v, rs, data >> 4)
        + sp_nibble_cycle(v, rs, data)
}

/// The reset handshake of the 8-bit engine: the 8-bit mode-select pattern
/// 0x30 on the data lines, pulsed three times with the two documented
/// inter-pulse waits, the last pulse with its normal trailing hold.
pub open spec fn sp_reset8_ops(v: LcdTimingValues) -> Seq<LcdBusOp> {
    sp_data8_ops(0x30) + sp_pulse_no_tail(v, LcdRegisterSelect::Control) + seq![
        LcdBusOp::Wait(v.first_init_delay),
    ] + sp_pulse_no_tail(v, LcdRegisterSelect::Control) + seq![
        LcdBusOp::Wait(v.second_init_delay),
    ] + sp_pulse(v, LcdRegisterSelect::Control)
}

/// The reset handshake of the 4-bit engine: the mode-select nibble 0x3
/// pulsed three times with the documented waits, then one extra pulse of
/// the nibble 0x2 that switches the controller to 4-bit transfers.
pub open spec fn sp_reset4_ops(v: LcdTimingValues) -> Seq<LcdBusOp> {
    sp_data4_ops(0x03) + sp_pulse_no_tail(v, LcdRegisterSelect::Control) + seq![
        LcdBusOp::Wait(v.first_init_delay),
    ] + sp_pulse_no_tail(v, LcdRegisterSelect::Control) + seq![
        LcdBusOp::Wait(v.second_init_delay),
    ] + sp_pulse(v, LcdRegisterSelect::Control) + sp_data4_ops(0x02) + sp_pulse(
        v,
        LcdRegisterSelect::Control,
    )
}

/// The idle preamble of both init plans: register select low, bus in write
/// direction, Enable low, then the mandatory power-on wait.
pub open spec fn sp_init_preamble(v: LcdTimingValues) -> Seq<LcdBusOp> {
    seq![
        LcdBusOp::SetLine(LcdLine::Rs, false),
        LcdBusOp::SetWriteMode,
        LcdBusOp::SetLine(LcdLine::En, false),
        LcdBusOp::Wait(v.power_on_delay),
    ]
}

/// The full 8-bit init plan: preamble, reset handshake, then the four
/// configuration commands — function set, display control, clear display,
/// entry mode set — as ordinary control-register writes.
pub open spec fn sp_init8_plan(
    v: LcdTimingValues,
    function: u8,
    display: u8,
    entry: u8,
) -> Seq<LcdBusOp> {
    sp_init_preamble(v) + sp_reset8_ops(v) + sp_write8_plan(
        v,
        LcdRegisterSelect::Control,
        sp_function_set_byte_8bit(function),
    ) + sp_write8_plan(v, LcdRegisterSelect::Control, sp_display_control_byte(display))
        + sp_write8_plan(v, LcdRegisterSelect::Control, CLEAR_DISPLAY) + sp_write8_plan(
        v,
        LcdRegisterSelect::Control,
        sp_entry_mode_byte(entry),
    )
}

/// The full 4-bit init plan: preamble, reset handshake with the 4-bit
/// select pulse, then the four configuration commands as 4-bit writes.
pub open spec fn sp_init4_plan(
    v: LcdTimingValues,
    function: u8,
    display: u8,
    entry: u8,
) -> Seq<LcdBusOp> {
    sp_init_preamble(v) + sp_reset4_ops(v) + sp_write4_plan(
        v,
        LcdRegisterSelect::Control,
        sp_function_set_byte_4bit(function),
    ) + sp_write4_plan(v, LcdRegisterSelect::Control, sp_display_control_byte(display))
        + sp_write4_plan(v, LcdRegisterSelect::Control, CLEAR_DISPLAY) + sp_write4_plan(
        v,
        LcdRegisterSelect::Control,
        sp_entry_mode_byte(entry),
    )
}

/// An 8-bit status read: select the control register, switch to read
/// direction, float all data lines high against bus contention, raise
/// Enable and let the bus settle, sample the eight lines, close the pulse,
/// and restore write direction.
pub open spec fn sp_status_read8_plan(v: LcdTimingValues) -> Seq<LcdProbeOp> {
    seq![
        LcdProbeOp::Drive(LcdLine::Rs, false),
        LcdProbeOp::SetReadMode,
        LcdProbeOp::Drive(LcdLine::Rs, false),
        LcdProbeOp::Drive(LcdLine::D0, true),
        LcdProbeOp::Drive(LcdLine::D1, true),
        LcdProbeOp::Drive(LcdLine::D2, true),
        LcdProbeOp::Drive(LcdLine::D3, true),
        LcdProbeOp::Drive(LcdLine::D4, true),
        LcdProbeOp::Drive(LcdLine::D5, true),
        LcdProbeOp::Drive(LcdLine::D6, true),
        LcdProbeOp::Drive(LcdLine::D7, true),
        LcdProbeOp::Drive(LcdLine::En, true),
        LcdProbeOp::Wait(v.read_delay),
        LcdProbeOp::Sample(LcdLine::D0),
        LcdProbeOp::Sample(LcdLine::D1),
        LcdProbeOp::Sample(LcdLine::D2),
        LcdProbeOp::Sample(LcdLine::D3),
        LcdProbeOp::Sample(LcdLine::D4),
        LcdProbeOp::Sample(LcdLine::D5),
        LcdProbeOp::Sample(LcdLine::D6),
        LcdProbeOp::Sample(LcdLine::D7),
        LcdProbeOp::Drive(LcdLine::En, false),
        LcdProbeOp::Wait(v.enable_off_control),
        LcdProbeOp::SetWriteMode,
    ]
}

/// A 4-bit status read: two nibble-read cycles, the upper nibble sampled
/// first, each cycle floating the four data lines high, settling, and
/// sampling on a raised Enable.
pub open spec fn sp_status_read4_plan(v: LcdTimingValues) -> Seq<LcdProbeOp> {
    seq![
        LcdProbeOp::Drive(LcdLine::Rs, false),
        LcdProbeOp::SetReadMode,
        LcdProbeOp::Drive(LcdLine::D4, true),
        LcdProbeOp::Drive(LcdLine::D5, true),
        LcdProbeOp::Drive(LcdLine::D6, true),
        LcdProbeOp::Drive(LcdLine::D7, true),
        LcdProbeOp::Drive(LcdLine::En, true),
        LcdProbeOp::Wait(v.read_delay),
        LcdProbeOp::Sample(LcdLine::D4),
        LcdProbeOp::Sample(LcdLine::D5),
        LcdProbeOp::Sample(LcdLine::D6),
        LcdProbeOp::Sample(LcdLine::D7),
        LcdProbeOp::Drive(LcdLine::En, false),
        LcdProbeOp::Wait(v.enable_off_control),
        LcdProbeOp::Drive(LcdLine::En, true),
        LcdProbeOp::Wait(v.read_delay),
        LcdProbeOp::Sample(LcdLine::D4),
        LcdProbeOp::Sample(LcdLine::D5),
        LcdProbeOp::Sample(LcdLine::D6),
        LcdProbeOp::Sample(LcdLine::D7),
        LcdProbeOp::Drive(LcdLine::En, false),
        LcdProbeOp::Wait(v.enable_off_control),
        LcdProbeOp::SetWriteMode,
    ]
}

/// How many samples a read plan takes from position `i` on.
pub open spec fn sp_samples_from(plan: Seq<LcdProbeOp>, i: int) -> nat
    decreases plan.len() - i,
{
    if i < 0 || i >= plan.len() {
        0
    } else {
        (if plan[i] is Sample {
            1nat
        } else {
            0nat
        }) + sp_samples_from(plan, i + 1)
    }
}

fn push_data8_ops(plan: &mut Vec<LcdBusOp>, data: u8)
    ensures
        final(plan)@ == old(plan)@ + sp_data8_ops(data),
{
    plan.push(LcdBusOp::SetLine(LcdLine::D0, (data & 0x01) != 0));
    plan.push(LcdBusOp::SetLine(LcdLine::D1, (data & 0x02) != 0));
    plan.push(LcdBusOp::SetLine(LcdLine::D2, (data & 0x04) != 0));
    plan.push(LcdBusOp::SetLine(LcdLine::D3, (data & 0x08) != 0));
    plan.push(LcdBusOp::SetLine(LcdLine::D4, (data & 0x10) != 0));
    plan.push(LcdBusOp::SetLine(LcdLine::D5, (data & 0x20) != 0));
    plan.push(LcdBusOp::SetLine(LcdLine::D6, (data & 0x40) != 0));
    plan.push(LcdBusOp::SetLine(LcdLine::D7, (data & 0x80) != 0));
    proof {
        assert(plan@ =~= old(plan)@ + sp_data8_ops(data));
    }
}

fn push_data4_ops(plan: &mut Vec<LcdBusOp>, nibble: u8)
    ensures
        final(plan)@ == old(plan)@ + sp_data4_ops(nibble),
{
    plan.push(LcdBusOp::SetLine(LcdLine::D4, (nibble & 0x01) != 0));
    plan.push(LcdBusOp::SetLine(LcdLine::D5, (nibble & 0x02) != 0));
    plan.push(LcdBusOp::SetLine(LcdLine::D6, (nibble & 0x04) != 0));
    plan.push(LcdBusOp::SetLine(LcdLine::D7, (nibble & 0x08) != 0));
    proof {
        assert(plan@ =~= old(plan)@ + sp_data4_ops(nibble));
    }
}

fn push_pulse<T: LcdTimingsParallel>(plan: &mut Vec<LcdBusOp>, timings: &T, rs: LcdRegisterSelect)
    ensures
        final(plan)@ == old(plan)@ + sp_pulse(timings.spec_values(), rs),
{
    plan.push(LcdBusOp::SetLine(LcdLine::En, true));
    plan.push(LcdBusOp::Wait(timings.enable_pulse_on(rs)));
    plan.push(LcdBusOp::SetLine(LcdLine::En, false));
    plan.push(LcdBusOp::Wait(timings.enable_pulse_off(rs)));
    proof {
        assert(plan@ =~= old(plan)@ + sp_pulse(timings.spec_values(), rs));
    }
}

fn push_pulse_no_tail<T: LcdTimingsParallel>(
    plan: &mut Vec<LcdBusOp>,
    timings: &T,
    rs: LcdRegisterSelect,
)
    ensures
        final(plan)@ == old(plan)@ + sp_pulse_no_tail(timings.spec_values(), rs),
{
    plan.push(LcdBusOp::SetLine(LcdLine::En, true));
    plan.push(LcdBusOp::Wait(timings.enable_pulse_on(rs)));
    plan.push(LcdBusOp::SetLine(LcdLine::En, false));
    proof {
        assert(plan@ =~= old(plan)@ + sp_pulse_no_tail(timings.spec_values(), rs));
    }
}

fn push_write8_plan<T: LcdTimingsParallel>(
    plan: &mut Vec<LcdBusOp>,
    timings: &T,
    rs: LcdRegisterSelect,
    data: u8,
)
    ensures
        final(plan)@ == old(plan)@ + sp_write8_plan(timings.spec_values(), rs, data),
{
    plan.push(LcdBusOp::SetLine(LcdLine::Rs, rs == LcdRegisterSelect::Memory));
    push_data8_ops(plan, data);
    push_pulse(plan, timings, rs);
    proof {
        assert(plan@ =~= old(plan)@ + sp_write8_plan(timings.spec_values(), rs, data));
    }
}

fn push_write4_plan<T: LcdTimingsParallel>(
    plan: &mut Vec<LcdBusOp>,
    timings: &T,
    rs: LcdRegisterSelect,
    data: u8,
)
    ensures
        final(plan)@ == old(plan)@ + sp_write4_plan(timings.spec_values(), rs, data),
{
    plan.push(LcdBusOp::SetLine(LcdLine::Rs, rs == LcdRegisterSelect::Memory));
    push_data4_ops(plan, data >> 4);
    push_pulse(plan, timings, rs);
    push_data4_ops(plan, data);
    push_pulse(plan, timings, rs);
    proof {
        assert(plan@ =~= old(plan)@ + sp_write4_plan(timings.spec_values(), rs, data));
    }
}

/// Builds the plan of an 8-bit write of `data` to the register `rs`.
pub fn parallel_write8_plan<T: LcdTimingsParallel>(
    timings: &T,
    rs: LcdRegisterSelect,
    data: u8,
) -> (plan: Vec<LcdBusOp>)
    ensures
        plan@ == sp_write8_plan(timings.spec_values(), rs, data),
{
    let mut plan: Vec<LcdBusOp> = Vec::new();
    push_write8_plan(&mut plan, timings, rs, data);
    proof {
        assert(plan@ =~= sp_write8_plan(timings.spec_values(), rs, data));
    }
    plan
}

/// Builds the plan of a 4-bit write of `data` to the register `rs`: the
/// upper nibble's cycle strictly before the lower nibble's.
pub fn parallel_write4_plan<T: LcdTimingsParallel>(
    timings: &T,
    rs: LcdRegisterSelect,
    data: u8,
) -> (plan: Vec<LcdBusOp>)
    ensures
        plan@ == sp_write4_plan(timings.spec_values(), rs, data),
{
    let mut plan: Vec<LcdBusOp> = Vec::new();
    push_write4_plan(&mut plan, timings, rs, data);
    proof {
        assert(plan@ =~= sp_write4_plan(timings.spec_values(), rs, data));
    }
    plan
}

fn push_init_preamble<T: LcdTimingsParallel>(plan: &mut Vec<LcdBusOp>, timings: &T)
    ensures
        final(plan)@ == old(plan)@ + sp_init_preamble(timings.spec_values()),
{
    plan.push(LcdBusOp::SetLine(LcdLine::Rs, false));
    plan.push(LcdBusOp::SetWriteMode);
    plan.push(LcdBusOp::SetLine(LcdLine::En, false));
    plan.push(LcdBusOp::Wait(timings.power_on_delay()));
    proof {
        assert(plan@ =~= old(plan)@ + sp_init_preamble(timings.spec_values()));
    }
}

/// Builds the full init plan of the 8-bit engine: preamble, three-pulse
/// reset handshake, then the four configuration commands.
pub fn parallel_init8_plan<T: LcdTimingsParallel>(
    timings: &T,
    function: LcdFunctionMode,
    display: LcdDisplayMode,
    entry: LcdEntryMode,
) -> (plan: Vec<LcdBusOp>)
    ensures
        plan@ == sp_init8_plan(timings.spec_values(), function@, display@, entry@),
{
    let mut plan: Vec<LcdBusOp> = Vec::new();
    push_init_preamble(&mut plan, timings);
    push_data8_ops(&mut plan, 0x30);
    push_pulse_no_tail(&mut plan, timings, LcdRegisterSelect::Control);
    plan.push(LcdBusOp::Wait(timings.first_init_delay()));
    push_pulse_no_tail(&mut plan, timings, LcdRegisterSelect::Control);
    plan.push(LcdBusOp::Wait(timings.second_init_delay()));
    push_pulse(&mut plan, timings, LcdRegisterSelect::Control);
    push_write8_plan(&mut plan, timings, LcdRegisterSelect::Control, function_set_byte_8bit(function));
    push_write8_plan(&mut plan, timings, LcdRegisterSelect::Control, display_control_byte(display));
    push_write8_plan(&mut plan, timings, LcdRegisterSelect::Control, CLEAR_DISPLAY);
    push_write8_plan(&mut plan, timings, LcdRegisterSelect::Control, entry_mode_byte(entry));
    proof {
        assert(plan@ =~= sp_init8_plan(timings.spec_values(), function@, display@, entry@));
    }
    plan
}

/// Builds the full init plan of the 4-bit engine: preamble, three-pulse
/// reset handshake, the 4-bit select pulse, then the four configuration
/// commands as two-nibble writes.
pub fn parallel_init4_plan<T: LcdTimingsParallel>(
    timings: &T,
    function: LcdFunctionMode,
    display: LcdDisplayMode,
    entry: LcdEntryMode,
) -> (plan: Vec<LcdBusOp>)
    ensures
        plan@ == sp_init4_plan(timings.spec_values(), function@, display@, entry@),
{
    let mut plan: Vec<LcdBusOp> = Vec::new();
    push_init_preamble(&mut plan, timings);
    push_data4_ops(&mut plan, 0x03);
    push_pulse_no_tail(&mut plan, timings, LcdRegisterSelect::Control);
    plan.push(LcdBusOp::Wait(timings.first_init_delay()));
    push_pulse_no_tail(&mut plan, timings, LcdRegisterSelect::Control);
    plan.push(LcdBusOp::Wait(timings.second_init_delay()));
    push_pulse(&mut plan, timings, LcdRegisterSelect::Control);
    push_data4_ops(&mut plan, 0x02);
    push_pulse(&mut plan, timings, LcdRegisterSelect::Control);
    push_write4_plan(&mut plan, timings, LcdRegisterSelect::Control, function_set_byte_4bit(function));
    push_write4_plan(&mut plan, timings, LcdRegisterSelect::Control, display_control_byte(display));
    push_write4_plan(&mut plan, timings, LcdRegisterSelect::Control, CLEAR_DISPLAY);
    push_write4_plan(&mut plan, timings, LcdRegisterSelect::Control, entry_mode_byte(entry));
    proof {
        assert(plan@ =~= sp_init4_plan(timings.spec_values(), function@, display@, entry@));
    }
    plan
}

/// Builds the plan of an 8-bit status read.
pub fn parallel_read8_plan<T: LcdTimingsParallel>(timings: &T) -> (plan: Vec<LcdProbeOp>)
    ensures
        plan@ == sp_status_read8_plan(timings.spec_values()),
{
    let mut plan: Vec<LcdProbeOp> = Vec::new();
    plan.push(LcdProbeOp::Drive(LcdLine::Rs, false));
    plan.push(LcdProbeOp::SetReadMode);
    plan.push(LcdProbeOp::Drive(LcdLine::Rs, false));
    plan.push(LcdProbeOp::Drive(LcdLine::D0, true));
    plan.push(LcdProbeOp::Drive(LcdLine::D1, true));
    plan.push(LcdProbeOp::Drive(LcdLine::D2, true));
    plan.push(LcdProbeOp::Drive(LcdLine::D3, true));
    plan.push(LcdProbeOp::Drive(LcdLine::D4, true));
    plan.push(LcdProbeOp::Drive(LcdLine::D5, true));
    plan.push(LcdProbeOp::Drive(LcdLine::D6, true));
    plan.push(LcdProbeOp::Drive(LcdLine::D7, true));
    plan.push(LcdProbeOp::Drive(LcdLine::En, true));
    plan.push(LcdProbeOp::Wait(timings.read_delay()));
    plan.push(LcdProbeOp::Sample(LcdLine::D0));
    plan.push(LcdProbeOp::Sample(LcdLine::D1));
    plan.push(LcdProbeOp::Sample(LcdLine::D2));
    plan.push(LcdProbeOp::Sample(LcdLine::D3));
    plan.push(LcdProbeOp::Sample(LcdLine::D4));
    plan.push(LcdProbeOp::Sample(LcdLine::D5));
    plan.push(LcdProbeOp::Sample(LcdLine::D6));
    plan.push(LcdProbeOp::Sample(LcdLine::D7));
    plan.push(LcdProbeOp::Drive(LcdLine::En, false));
    plan.push(LcdProbeOp::Wait(timings.enable_pulse_off(LcdRegisterSelect::Control)));
    plan.push(LcdProbeOp::SetWriteMode);
    proof {
        assert(plan@ =~= sp_status_read8_plan(timings.spec_values()));
    }
    plan
}

/// Builds the plan of a 4-bit status read: two nibble-read cycles, upper
/// nibble first.
pub fn parallel_read4_plan<T: LcdTimingsParallel>(timings: &T) -> (plan: Vec<LcdProbeOp>)
    ensures
        plan@ == sp_status_read4_plan(timings.spec_values()),
{
    let mut plan: Vec<LcdProbeOp> = Vec::new();
    plan.push(LcdProbeOp::Drive(LcdLine::Rs, false));
    plan.push(LcdProbeOp::SetReadMode);
    plan.push(LcdProbeOp::Drive(LcdLine::D4, true));
    plan.push(LcdProbeOp::Drive(LcdLine::D5, true));
    plan.push(LcdProbeOp::Drive(LcdLine::D6, true));
    plan.push(LcdProbeOp::Drive(LcdLine::D7, true));
    plan.push(LcdProbeOp::Drive(LcdLine::En, true));
    plan.push(LcdProbeOp::Wait(timings.read_delay()));
    plan.push(LcdProbeOp::Sample(LcdLine::D4));
    plan.push(LcdProbeOp::Sample(LcdLine::D5));
    plan.push(LcdProbeOp::Sample(LcdLine::D6));
    plan.push(LcdProbeOp::Sample(LcdLine::D7));
    plan.push(LcdProbeOp::Drive(LcdLine::En, false));
    plan.push(LcdProbeOp::Wait(timings.enable_pulse_off(LcdRegisterSelect::Control)));
    plan.push(LcdProbeOp::Drive(LcdLine::En, true));
    plan.push(LcdProbeOp::Wait(timings.read_delay()));
    plan.push(LcdProbeOp::Sample(LcdLine::D4));
    plan.push(LcdProbeOp::Sample(LcdLine::D5));
    plan.push(LcdProbeOp::Sample(LcdLine::D6));
    plan.push(LcdProbeOp::Sample(LcdLine::D7));
    plan.push(LcdProbeOp::Drive(LcdLine::En, false));
    plan.push(LcdProbeOp::Wait(timings.enable_pulse_off(LcdRegisterSelect::Control)));
    plan.push(LcdProbeOp::SetWriteMode);
    proof {
        assert(plan@ =~= sp_status_read4_plan(timings.spec_values()));
    }
    plan
}

} // verus!
