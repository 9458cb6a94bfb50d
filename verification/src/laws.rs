//! The protocol laws, proved over the plan specifications.
//!
//! The controller latches the data lines at every rising edge of Enable.
//! `sp_latched` replays a write plan over an arbitrary prior state of the
//! data lines and collects the byte latched at each rising edge; the laws
//! here state what every write, and the whole initialization handshake,
//! put on the lines — for every data byte, register, timing policy, and
//! prior bus state. Beside them stand the laws that every plan leaves the
//! bus ready (Enable low, write direction), that the expander frames carry
//! the persisted backlight bit unchanged, and that the three status-read
//! assemblies reproduce the controller's byte exactly.

use vstd::prelude::*;
use crate::i2c::I2C_BACKLIGHT;
use crate::i2c::LcdI2cOp;
use crate::i2c::sp_i2c_init_plan;
use crate::i2c::sp_i2c_read_plan;
use crate::i2c::sp_i2c_reset_ops;
use crate::i2c::sp_i2c_select4_ops;
use crate::i2c::sp_i2c_state_with_rs;
use crate::i2c::sp_i2c_status_byte;
use crate::i2c::sp_i2c_write_plan;
use crate::parallel::sp_status4_of_levels;
use crate::parallel::sp_status8_of_levels;
use crate::commands::CLEAR_DISPLAY;
use crate::commands::sp_display_control_byte;
use crate::commands::sp_entry_mode_byte;
use crate::commands::sp_function_set_byte_4bit;
use crate::commands::sp_function_set_byte_8bit;
use crate::parallel_ops::LcdBusOp;
use crate::parallel_ops::LcdLine;
use crate::parallel_ops::LcdProbeOp;
use crate::parallel_ops::sp_status_read4_plan;
use crate::parallel_ops::sp_status_read8_plan;
use crate::parallel_ops::sp_data4_ops;
use crate::parallel_ops::sp_data8_ops;
use crate::parallel_ops::sp_init4_plan;
use crate::parallel_ops::sp_init8_plan;
use crate::parallel_ops::sp_init_preamble;
use crate::parallel_ops::sp_nibble_cycle;
use crate::parallel_ops::sp_pulse;
use crate::parallel_ops::sp_pulse_no_tail;
use crate::parallel_ops::sp_reset4_ops;
use crate::parallel_ops::sp_reset8_ops;
use crate::parallel_ops::sp_write4_plan;
use crate::parallel_ops::sp_write8_plan;
use crate::timings::LcdTimingValues;
use crate::timings::spec_enable_off;
use crate::timings::spec_enable_on;
use crate::modes::LcdRegisterSelect;

verus! {

/// The data-byte bit a line carries: line `Dk` carries bit `k`; the
/// register-select and enable lines carry none.
pub open spec fn sp_line_mask(line: LcdLine) -> u8 {
    match line {
        LcdLine::Rs => 0,
        LcdLine::En => 0,
        LcdLine::D0 => 0x01,
        LcdLine::D1 => 0x02,
        LcdLine::D2 => 0x04,
        LcdLine::D3 => 0x08,
        LcdLine::D4 => 0x10,
        LcdLine::D5 => 0x20,
        LcdLine::D6 => 0x40,
        LcdLine::D7 => 0x80,
    }
}

/// The data-line state after one plan step: driving a data line updates
/// its bit, every other step leaves the data lines alone.
pub open spec fn sp_data_after(op: LcdBusOp, data: u8) -> u8 {
    match op {
        LcdBusOp::SetLine(line, high) => match line {
            LcdLine::Rs => data,
            LcdLine::En => data,
            _ => if high {
                data | sp_line_mask(line)
            } else {
                data & !sp_line_mask(line)
            },
        },
        LcdBusOp::SetWriteMode => data,
        LcdBusOp::Wait(_) => data,
    }
}

/// The data-line state after a whole plan, from the prior state `data`.
pub open spec fn sp_after(ops: Seq<LcdBusOp>, data: u8) -> u8
    decreases ops.len(),
{
    if ops.len() == 0 {
        data
    } else {
        sp_after(ops.drop_first(), sp_data_after(ops[0], data))
    }
}

/// The bytes the controller latches while a plan runs: the data-line state
/// at each rising edge of Enable, in order, from the prior state `data`.
pub open spec fn sp_latched(ops: Seq<LcdBusOp>, data: u8) -> Seq<u8>
    decreases ops.len(),
{
    if ops.len() == 0 {
        Seq::empty()
    } else {
        let rest = sp_latched(ops.drop_first(), sp_data_after(ops[0], data));
        if ops[0] == LcdBusOp::SetLine(LcdLine::En, true) {
            seq![data] + rest
        } else {
            rest
        }
    }
}

/// Latching distributes over plan concatenation: the second plan starts
/// from the data-line state the first one left.
pub proof fn lemma_latched_append(a: Seq<LcdBusOp>, b: Seq<LcdBusOp>, data: u8)
    ensures
        sp_after(a + b, data) == sp_after(b, sp_after(a, data)),
        sp_latched(a + b, data) == sp_latched(a, data) + sp_latched(b, sp_after(a, data)),
    decreases a.len(),
{
    if a.len() == 0 {
        assert(a + b =~= b);
        assert(sp_latched(a, data) + sp_latched(b, data) =~= sp_latched(b, data));
    } else {
        assert((a + b).drop_first() =~= a.drop_first() + b);
        lemma_latched_append(a.drop_first(), b, sp_data_after(a[0], data));
        assert((a + b)[0] == a[0]);
        if a[0] == LcdBusOp::SetLine(LcdLine::En, true) {
            assert(seq![data] + (sp_latched(a.drop_first(), sp_data_after(a[0], data)) + sp_latched(
                b,
                sp_after(a, data),
            )) =~= (seq![data] + sp_latched(a.drop_first(), sp_data_after(a[0], data)))
                + sp_latched(b, sp_after(a, data)));
        }
    }
}

/// Driving the eight data lines leaves them at exactly the bits of `b`,
/// whatever they carried before, and latches nothing.
pub proof fn lemma_data8(b: u8, data: u8)
    ensures
        sp_after(sp_data8_ops(b), data) == b,
        sp_latched(sp_data8_ops(b), data) =~= Seq::<u8>::empty(),
{
    let x0 = if (b & 0x01) != 0 {
        data | 0x01
    } else {
        data & !0x01
    };
    let x1 = if (b & 0x02) != 0 {
        x0 | 0x02
    } else {
        x0 & !0x02
    };
    let x2 = if (b & 0x04) != 0 {
        x1 | 0x04
    } else {
        x1 & !0x04
    };
    let x3 = if (b & 0x08) != 0 {
        x2 | 0x08
    } else {
        x2 & !0x08
    };
    let x4 = if (b & 0x10) != 0 {
        x3 | 0x10
    } else {
        x3 & !0x10
    };
    let x5 = if (b & 0x20) != 0 {
        x4 | 0x20
    } else {
        x4 & !0x20
    };
    let x6 = if (b & 0x40) != 0 {
        x5 | 0x40
    } else {
        x5 & !0x40
    };
    let x7 = if (b & 0x80) != 0 {
        x6 | 0x80
    } else {
        x6 & !0x80
    };
    reveal_with_fuel(sp_after, 10);
    reveal_with_fuel(sp_latched, 10);
    assert(sp_after(sp_data8_ops(b), data) == x7);
    assert(x7 == b) by (bit_vector)
        requires
            x0 == (if (b & 0x01) != 0 {
                data | 0x01
            } else {
                data & !0x01
            }),
            x1 == (if (b & 0x02) != 0 {
                x0 | 0x02
            } else {
                x0 & !0x02
            }),
            x2 == (if (b & 0x04) != 0 {
                x1 | 0x04
            } else {
                x1 & !0x04
            }),
            x3 == (if (b & 0x08) != 0 {
                x2 | 0x08
            } else {
                x2 & !0x08
            }),
            x4 == (if (b & 0x10) != 0 {
                x3 | 0x10
            } else {
                x3 & !0x10
            }),
            x5 == (if (b & 0x20) != 0 {
                x4 | 0x20
            } else {
                x4 & !0x20
            }),
            x6 == (if (b & 0x40) != 0 {
                x5 | 0x40
            } else {
                x5 & !0x40
            }),
            x7 == (if (b & 0x80) != 0 {
                x6 | 0x80
            } else {
                x6 & !0x80
            }),
    ;
}

/// Driving the four data lines of the 4-bit bus leaves them at the low
/// nibble of `n`, keeps the rest of the modelled state, and latches
/// nothing.
pub proof fn lemma_data4(n: u8, data: u8)
    ensures
        sp_after(sp_data4_ops(n), data) == ((data & 0x0f) | (n << 4)),
        sp_latched(sp_data4_ops(n), data) =~= Seq::<u8>::empty(),
{
    let x0 = if (n & 0x01) != 0 {
        data | 0x10
    } else {
        data & !0x10
    };
    let x1 = if (n & 0x02) != 0 {
        x0 | 0x20
    } else {
        x0 & !0x20
    };
    let x2 = if (n & 0x04) != 0 {
        x1 | 0x40
    } else {
        x1 & !0x40
    };
    let x3 = if (n & 0x08) != 0 {
        x2 | 0x80
    } else {
        x2 & !0x80
    };
    reveal_with_fuel(sp_after, 6);
    reveal_with_fuel(sp_latched, 6);
    assert(sp_after(sp_data4_ops(n), data) == x3);
    assert(x3 == ((data & 0x0f) | (n << 4))) by (bit_vector)
        requires
            x0 == (if (n & 0x01) != 0 {
                data | 0x10
            } else {
                data & !0x10
            }),
            x1 == (if (n & 0x02) != 0 {
                x0 | 0x20
            } else {
                x0 & !0x20
            }),
            x2 == (if (n & 0x04) != 0 {
                x1 | 0x40
            } else {
                x1 & !0x40
            }),
            x3 == (if (n & 0x08) != 0 {
                x2 | 0x80
            } else {
                x2 & !0x80
            }),
    ;
}

/// A full enable pulse latches the current data-line state, once, and
/// leaves the data lines untouched.
pub proof fn lemma_pulse(v: LcdTimingValues, rs: LcdRegisterSelect, data: u8)
    ensures
        sp_after(sp_pulse(v, rs), data) == data,
        sp_latched(sp_pulse(v, rs), data) =~= seq![data],
{
    reveal_with_fuel(sp_after, 6);
    reveal_with_fuel(sp_latched, 6);
}

/// An enable pulse without its trailing hold latches the current data-line
/// state, once, and leaves the data lines untouched.
pub proof fn lemma_pulse_no_tail(v: LcdTimingValues, rs: LcdRegisterSelect, data: u8)
    ensures
        sp_after(sp_pulse_no_tail(v, rs), data) == data,
        sp_latched(sp_pulse_no_tail(v, rs), data) =~= seq![data],
{
    reveal_with_fuel(sp_after, 5);
    reveal_with_fuel(sp_latched, 5);
}

/// An 8-bit write is one cycle: it drives the eight data lines to exactly
/// the bits of `b`, then asserts Enable for the configured on-duration and
/// deasserts it for the configured off-duration, durations selected by the
/// register. Whatever the data lines carried before, the controller
/// latches exactly `b`, once.
pub proof fn lemma_write8_exact(v: LcdTimingValues, rs: LcdRegisterSelect, b: u8, data: u8)
    ensures
        sp_write8_plan(v, rs, b) =~= seq![LcdBusOp::SetLine(LcdLine::Rs, rs is Memory)]
            + sp_data8_ops(b) + seq![
            LcdBusOp::SetLine(LcdLine::En, true),
            LcdBusOp::Wait(spec_enable_on(v, rs)),
            LcdBusOp::SetLine(LcdLine::En, false),
            LcdBusOp::Wait(spec_enable_off(v, rs)),
        ],
        sp_latched(sp_write8_plan(v, rs, b), data) =~= seq![b],
        sp_after(sp_write8_plan(v, rs, b), data) == b,
{
    let rs_op = seq![LcdBusOp::SetLine(LcdLine::Rs, rs is Memory)];
    reveal_with_fuel(sp_after, 2);
    reveal_with_fuel(sp_latched, 2);
    assert(sp_after(rs_op, data) == data);
    assert(sp_latched(rs_op, data) =~= Seq::<u8>::empty());
    lemma_latched_append(rs_op, sp_data8_ops(b), data);
    lemma_data8(b, data);
    lemma_latched_append(rs_op + sp_data8_ops(b), sp_pulse(v, rs), data);
    lemma_pulse(v, rs, b);
}

/// The upper nibble of each byte of a sequence: what the four physical
/// data lines of a 4-bit bus carry when the byte models the line state.
pub open spec fn sp_upper_nibbles(bytes: Seq<u8>) -> Seq<u8> {
    bytes.map_values(|b: u8| b >> 4)
}

/// One nibble cycle latches the low nibble of `n` on the four data lines,
/// once, keeping the modelled low bits.
pub proof fn lemma_nibble_cycle(v: LcdTimingValues, rs: LcdRegisterSelect, n: u8, data: u8)
    ensures
        sp_after(sp_nibble_cycle(v, rs, n), data) == ((data & 0x0f) | (n << 4)),
        sp_latched(sp_nibble_cycle(v, rs, n), data) =~= seq![(data & 0x0f) | (n << 4)],
{
    lemma_latched_append(sp_data4_ops(n), sp_pulse(v, rs), data);
    lemma_data4(n, data);
    lemma_pulse(v, rs, (data & 0x0f) | (n << 4));
}

/// A 4-bit write is observably two 8-bit-style nibble cycles: the upper
/// nibble `b >> 4` strictly before the lower nibble `b & 0x0f`, and the
/// data lines carry exactly those two nibbles at the two rising edges of
/// Enable, whatever they carried before.
pub proof fn lemma_write4_exact(v: LcdTimingValues, rs: LcdRegisterSelect, b: u8, data: u8)
    ensures
        sp_write4_plan(v, rs, b) =~= seq![LcdBusOp::SetLine(LcdLine::Rs, rs is Memory)]
            + sp_nibble_cycle(v, rs, b >> 4) + sp_nibble_cycle(v, rs, b & 0x0f),
        sp_latched(sp_write4_plan(v, rs, b), data) =~= seq![
            (data & 0x0f) | (b & 0xf0),
            (data & 0x0f) | (b << 4),
        ],
        sp_upper_nibbles(sp_latched(sp_write4_plan(v, rs, b), data)) =~= seq![b >> 4, b & 0x0f],
        sp_after(sp_write4_plan(v, rs, b), data) == ((data & 0x0f) | (b << 4)),
{
    assert(sp_data4_ops(b) =~= sp_data4_ops(b & 0x0f)) by {
        assert(((b & 0x01) != 0) == (((b & 0x0f) & 0x01) != 0)) by (bit_vector);
        assert(((b & 0x02) != 0) == (((b & 0x0f) & 0x02) != 0)) by (bit_vector);
        assert(((b & 0x04) != 0) == (((b & 0x0f) & 0x04) != 0)) by (bit_vector);
        assert(((b & 0x08) != 0) == (((b & 0x0f) & 0x08) != 0)) by (bit_vector);
    }
    let rs_op = seq![LcdBusOp::SetLine(LcdLine::Rs, rs is Memory)];
    reveal_with_fuel(sp_after, 2);
    reveal_with_fuel(sp_latched, 2);
    assert(sp_after(rs_op, data) == data);
    assert(sp_latched(rs_op, data) =~= Seq::<u8>::empty());
    lemma_latched_append(rs_op, sp_nibble_cycle(v, rs, b >> 4), data);
    lemma_nibble_cycle(v, rs, b >> 4, data);
    let mid = (data & 0x0f) | ((b >> 4) << 4);
    lemma_latched_append(rs_op + sp_nibble_cycle(v, rs, b >> 4), sp_nibble_cycle(v, rs, b), data);
    lemma_nibble_cycle(v, rs, b, mid);
    assert((b >> 4) << 4 == b & 0xf0) by (bit_vector);
    assert(mid & 0x0f == data & 0x0f) by (bit_vector)
        requires
            mid == (data & 0x0f) | ((b >> 4) << 4),
    ;
    assert(((data & 0x0f) | (b & 0xf0)) >> 4 == b >> 4) by (bit_vector);
    assert(((data & 0x0f) | (b << 4)) >> 4 == b & 0x0f) by (bit_vector);
}

/// One hold step leaves the data lines alone and latches nothing.
pub proof fn lemma_wait(ns: u32, data: u8)
    ensures
        sp_after(seq![LcdBusOp::Wait(ns)], data) == data,
        sp_latched(seq![LcdBusOp::Wait(ns)], data) =~= Seq::<u8>::empty(),
{
    reveal_with_fuel(sp_after, 2);
    reveal_with_fuel(sp_latched, 2);
}

/// The 8-bit reset handshake latches the mode-select pattern 0x30 exactly
/// three times, independent of any prior state of the data lines.
pub proof fn lemma_reset8(v: LcdTimingValues, data: u8)
    ensures
        sp_latched(sp_reset8_ops(v), data) =~= seq![0x30u8, 0x30u8, 0x30u8],
        sp_after(sp_reset8_ops(v), data) == 0x30,
{
    let ctl = LcdRegisterSelect::Control;
    let a = sp_data8_ops(0x30);
    let p = sp_pulse_no_tail(v, ctl);
    let w1 = seq![LcdBusOp::Wait(v.first_init_delay)];
    let w2 = seq![LcdBusOp::Wait(v.second_init_delay)];
    let q = sp_pulse(v, ctl);
    lemma_data8(0x30, data);
    lemma_latched_append(a, p, data);
    lemma_pulse_no_tail(v, ctl, 0x30);
    lemma_latched_append(a + p, w1, data);
    lemma_wait(v.first_init_delay, 0x30);
    lemma_latched_append(a + p + w1, p, data);
    lemma_latched_append(a + p + w1 + p, w2, data);
    lemma_wait(v.second_init_delay, 0x30);
    lemma_latched_append(a + p + w1 + p + w2, q, data);
    lemma_pulse(v, ctl, 0x30);
}

/// The 4-bit reset handshake puts exactly the nibbles 0x3, 0x3, 0x3, 0x2
/// on the four data lines, in that order, independent of any prior state
/// of the data lines: three mode-select pulses, then the pulse that
/// switches the controller to 4-bit transfers.
pub proof fn lemma_reset4(v: LcdTimingValues, data: u8)
    ensures
        sp_upper_nibbles(sp_latched(sp_reset4_ops(v), data)) =~= seq![0x3u8, 0x3u8, 0x3u8, 0x2u8],
        sp_after(sp_reset4_ops(v), data) == ((data & 0x0f) | 0x20),
{
    lemma_reset4_latched_bytes(v, data);
    let s1 = (data & 0x0f) | 0x30;
    let s2 = (data & 0x0f) | 0x20;
    assert(s1 >> 4 == 3 && s2 >> 4 == 2) by (bit_vector)
        requires
            s1 == (data & 0x0f) | 0x30,
            s2 == (data & 0x0f) | 0x20,
    ;
    assert(sp_upper_nibbles(seq![s1, s1, s1, s2]) =~= seq![0x3u8, 0x3u8, 0x3u8, 0x2u8]);
}

/// The init preamble drives no data line and latches nothing.
pub proof fn lemma_init_preamble(v: LcdTimingValues, data: u8)
    ensures
        sp_after(sp_init_preamble(v), data) == data,
        sp_latched(sp_init_preamble(v), data) =~= Seq::<u8>::empty(),
{
    reveal_with_fuel(sp_after, 6);
    reveal_with_fuel(sp_latched, 6);
}

/// The whole 8-bit init plan latches exactly: the reset pattern 0x30 three
/// times, then the four configuration command bytes, in order, whatever
/// the data lines carried before — and nothing else.
pub proof fn lemma_init8_exact(
    v: LcdTimingValues,
    function: u8,
    display: u8,
    entry: u8,
    data: u8,
)
    ensures
        sp_latched(sp_init8_plan(v, function, display, entry), data) =~= seq![
            0x30u8,
            0x30u8,
            0x30u8,
            sp_function_set_byte_8bit(function),
            sp_display_control_byte(display),
            CLEAR_DISPLAY,
            sp_entry_mode_byte(entry),
        ],
{
    let ctl = LcdRegisterSelect::Control;
    let fs = sp_function_set_byte_8bit(function);
    let dc = sp_display_control_byte(display);
    let em = sp_entry_mode_byte(entry);
    let pre = sp_init_preamble(v);
    let rst = sp_reset8_ops(v);
    lemma_init_preamble(v, data);
    lemma_latched_append(pre, rst, data);
    lemma_reset8(v, data);
    lemma_latched_append(pre + rst, sp_write8_plan(v, ctl, fs), data);
    lemma_write8_exact(v, ctl, fs, 0x30);
    lemma_latched_append(pre + rst + sp_write8_plan(v, ctl, fs), sp_write8_plan(v, ctl, dc), data);
    lemma_write8_exact(v, ctl, dc, fs);
    lemma_latched_append(
        pre + rst + sp_write8_plan(v, ctl, fs) + sp_write8_plan(v, ctl, dc),
        sp_write8_plan(v, ctl, CLEAR_DISPLAY),
        data,
    );
    lemma_write8_exact(v, ctl, CLEAR_DISPLAY, dc);
    lemma_latched_append(
        pre + rst + sp_write8_plan(v, ctl, fs) + sp_write8_plan(v, ctl, dc) + sp_write8_plan(
            v,
            ctl,
            CLEAR_DISPLAY,
        ),
        sp_write8_plan(v, ctl, em),
        data,
    );
    lemma_write8_exact(v, ctl, em, CLEAR_DISPLAY);
}

/// The whole 4-bit init plan puts exactly these nibbles on the data lines,
/// in order, whatever they carried before: the reset nibbles 0x3, 0x3,
/// 0x3, the 4-bit select nibble 0x2, then the four configuration command
/// bytes, upper nibble before lower nibble each — and nothing else.
pub proof fn lemma_init4_exact(
    v: LcdTimingValues,
    function: u8,
    display: u8,
    entry: u8,
    data: u8,
)
    ensures
        sp_upper_nibbles(sp_latched(sp_init4_plan(v, function, display, entry), data)) =~= seq![
            0x3u8,
            0x3u8,
            0x3u8,
            0x2u8,
            sp_function_set_byte_4bit(function) >> 4,
            sp_function_set_byte_4bit(function) & 0x0f,
            sp_display_control_byte(display) >> 4,
            sp_display_control_byte(display) & 0x0f,
            CLEAR_DISPLAY >> 4,
            CLEAR_DISPLAY & 0x0f,
            sp_entry_mode_byte(entry) >> 4,
            sp_entry_mode_byte(entry) & 0x0f,
        ],
{
    let ctl = LcdRegisterSelect::Control;
    let fs = sp_function_set_byte_4bit(function);
    let dc = sp_display_control_byte(display);
    let em = sp_entry_mode_byte(entry);
    let pre = sp_init_preamble(v);
    let rst = sp_reset4_ops(v);
    let d1 = (data & 0x0f) | 0x20;
    let d2 = (d1 & 0x0f) | (fs << 4);
    let d3 = (d2 & 0x0f) | (dc << 4);
    let d4 = (d3 & 0x0f) | (CLEAR_DISPLAY << 4);
    lemma_init_preamble(v, data);
    lemma_latched_append(pre, rst, data);
    lemma_reset4(v, data);
    lemma_latched_append(pre + rst, sp_write4_plan(v, ctl, fs), data);
    lemma_write4_exact(v, ctl, fs, d1);
    lemma_latched_append(pre + rst + sp_write4_plan(v, ctl, fs), sp_write4_plan(v, ctl, dc), data);
    lemma_write4_exact(v, ctl, dc, d2);
    lemma_latched_append(
        pre + rst + sp_write4_plan(v, ctl, fs) + sp_write4_plan(v, ctl, dc),
        sp_write4_plan(v, ctl, CLEAR_DISPLAY),
        data,
    );
    lemma_write4_exact(v, ctl, CLEAR_DISPLAY, d3);
    lemma_latched_append(
        pre + rst + sp_write4_plan(v, ctl, fs) + sp_write4_plan(v, ctl, dc) + sp_write4_plan(
            v,
            ctl,
            CLEAR_DISPLAY,
        ),
        sp_write4_plan(v, ctl, em),
        data,
    );
    lemma_write4_exact(v, ctl, em, d4);
    let lat = sp_latched(sp_init4_plan(v, function, display, entry), data);
    assert(lat =~= seq![
        (data & 0x0f) | 0x30,
        (data & 0x0f) | 0x30,
        (data & 0x0f) | 0x30,
        d1,
        (d1 & 0x0f) | (fs & 0xf0),
        (d1 & 0x0f) | (fs << 4),
        (d2 & 0x0f) | (dc & 0xf0),
        (d2 & 0x0f) | (dc << 4),
        (d3 & 0x0f) | (CLEAR_DISPLAY & 0xf0),
        (d3 & 0x0f) | (CLEAR_DISPLAY << 4),
        (d4 & 0x0f) | (em & 0xf0),
        (d4 & 0x0f) | (em << 4),
    ]) by {
        assert(sp_latched(sp_reset4_ops(v), data) =~= seq![
            (data & 0x0f) | 0x30,
            (data & 0x0f) | 0x30,
            (data & 0x0f) | 0x30,
            d1,
        ]) by {
            lemma_reset4_latched_bytes(v, data);
        }
    }
    assert(((data & 0x0f) | 0x30u8) >> 4 == 3) by (bit_vector);
    assert(d1 >> 4 == 2 && d1 & 0x0f == data & 0x0f) by (bit_vector)
        requires
            d1 == (data & 0x0f) | 0x20u8,
    ;
    lemma_nibble_views(d1, fs);
    lemma_nibble_views(d2, dc);
    lemma_nibble_views(d3, CLEAR_DISPLAY);
    lemma_nibble_views(d4, em);
    assert(d2 == (d1 & 0x0f) | (fs << 4));
    assert(sp_upper_nibbles(lat) =~= seq![
        0x3u8,
        0x3u8,
        0x3u8,
        0x2u8,
        fs >> 4,
        fs & 0x0f,
        dc >> 4,
        dc & 0x0f,
        CLEAR_DISPLAY >> 4,
        CLEAR_DISPLAY & 0x0f,
        em >> 4,
        em & 0x0f,
    ]);
}

/// The two latched bytes of one 4-bit write show the written byte's upper
/// and lower nibble on the data lines, and the low modelled bits survive.
proof fn lemma_nibble_views(prior: u8, b: u8)
    ensures
        ((prior & 0x0f) | (b & 0xf0)) >> 4 == b >> 4,
        ((prior & 0x0f) | (b << 4)) >> 4 == b & 0x0f,
        (((prior & 0x0f) | (b << 4)) & 0x0f) == prior & 0x0f,
{
    assert(((prior & 0x0f) | (b & 0xf0)) >> 4 == b >> 4) by (bit_vector);
    assert(((prior & 0x0f) | (b << 4)) >> 4 == b & 0x0f) by (bit_vector);
    assert((((prior & 0x0f) | (b << 4)) & 0x0f) == prior & 0x0f) by (bit_vector);
}

/// The exact bytes the 4-bit reset handshake latches, for reuse where the
/// nibble view alone is not enough.
proof fn lemma_reset4_latched_bytes(v: LcdTimingValues, data: u8)
    ensures
        sp_latched(sp_reset4_ops(v), data) =~= seq![
            (data & 0x0f) | 0x30,
            (data & 0x0f) | 0x30,
            (data & 0x0f) | 0x30,
            (data & 0x0f) | 0x20,
        ],
        sp_after(sp_reset4_ops(v), data) == ((data & 0x0f) | 0x20),
{
    let ctl = LcdRegisterSelect::Control;
    let a = sp_data4_ops(0x03);
    let p = sp_pulse_no_tail(v, ctl);
    let w1 = seq![LcdBusOp::Wait(v.first_init_delay)];
    let w2 = seq![LcdBusOp::Wait(v.second_init_delay)];
    let q = sp_pulse(v, ctl);
    let sel = sp_data4_ops(0x02);
    let s1 = (data & 0x0f) | (0x03u8 << 4);
    let s2 = (s1 & 0x0f) | (0x02u8 << 4);
    lemma_data4(0x03, data);
    lemma_latched_append(a, p, data);
    lemma_pulse_no_tail(v, ctl, s1);
    lemma_latched_append(a + p, w1, data);
    lemma_wait(v.first_init_delay, s1);
    lemma_latched_append(a + p + w1, p, data);
    lemma_latched_append(a + p + w1 + p, w2, data);
    lemma_wait(v.second_init_delay, s1);
    lemma_latched_append(a + p + w1 + p + w2, q, data);
    lemma_pulse(v, ctl, s1);
    lemma_latched_append(a + p + w1 + p + w2 + q, sel, data);
    lemma_data4(0x02, s1);
    lemma_latched_append(a + p + w1 + p + w2 + q + sel, q, data);
    lemma_pulse(v, ctl, s2);
    assert(s1 == (data & 0x0f) | 0x30 && s2 == (data & 0x0f) | 0x20) by (bit_vector)
        requires
            s1 == (data & 0x0f) | (0x03u8 << 4),
            s2 == (s1 & 0x0f) | (0x02u8 << 4),
    ;
}

/// The Enable-line level after a write plan, from the prior level `en`.
pub open spec fn sp_en_after(ops: Seq<LcdBusOp>, en: bool) -> bool
    decreases ops.len(),
{
    if ops.len() == 0 {
        en
    } else {
        let next = match ops[0] {
            LcdBusOp::SetLine(line, high) => if line is En {
                high
            } else {
                en
            },
            _ => en,
        };
        sp_en_after(ops.drop_first(), next)
    }
}

/// The Enable level after concatenated plans chains through.
proof fn lemma_en_after_append(a: Seq<LcdBusOp>, b: Seq<LcdBusOp>, en: bool)
    ensures
        sp_en_after(a + b, en) == sp_en_after(b, sp_en_after(a, en)),
    decreases a.len(),
{
    if a.len() == 0 {
        assert(a + b =~= b);
    } else {
        assert((a + b).drop_first() =~= a.drop_first() + b);
        let next = match a[0] {
            LcdBusOp::SetLine(line, high) => if line is En {
                high
            } else {
                en
            },
            _ => en,
        };
        lemma_en_after_append(a.drop_first(), b, next);
    }
}

/// An enable pulse leaves the Enable line low; driving data lines or
/// waiting leaves it alone.
proof fn lemma_en_components(v: LcdTimingValues, rs: LcdRegisterSelect, b: u8, en: bool)
    ensures
        !sp_en_after(sp_pulse(v, rs), en),
        !sp_en_after(sp_pulse_no_tail(v, rs), en),
        sp_en_after(sp_data8_ops(b), en) == en,
        sp_en_after(sp_data4_ops(b), en) == en,
        sp_en_after(seq![LcdBusOp::SetLine(LcdLine::Rs, rs is Memory)], en) == en,
{
    reveal_with_fuel(sp_en_after, 10);
}

/// Every write plan leaves the Enable line low, whatever level it had
/// before: the bus is ready for the next call.
pub proof fn lemma_write_leaves_enable_low(
    v: LcdTimingValues,
    rs: LcdRegisterSelect,
    b: u8,
    en: bool,
)
    ensures
        !sp_en_after(sp_write8_plan(v, rs, b), en),
        !sp_en_after(sp_write4_plan(v, rs, b), en),
{
    let rs_op = seq![LcdBusOp::SetLine(LcdLine::Rs, rs is Memory)];
    lemma_en_components(v, rs, b, en);
    lemma_en_components(v, rs, b >> 4, en);
    lemma_en_after_append(rs_op, sp_data8_ops(b), en);
    lemma_en_after_append(rs_op + sp_data8_ops(b), sp_pulse(v, rs), en);
    lemma_en_after_append(sp_data4_ops(b >> 4), sp_pulse(v, rs), en);
    lemma_en_after_append(rs_op, sp_nibble_cycle(v, rs, b >> 4), en);
    lemma_en_after_append(rs_op + sp_nibble_cycle(v, rs, b >> 4), sp_nibble_cycle(v, rs, b), en);
    let mid = sp_en_after(sp_nibble_cycle(v, rs, b >> 4), en);
    lemma_en_components(v, rs, b, mid);
    lemma_en_after_append(sp_data4_ops(b), sp_pulse(v, rs), mid);
}

/// Both init plans leave the Enable line low, whatever level it had
/// before.
pub proof fn lemma_init_leaves_enable_low(
    v: LcdTimingValues,
    function: u8,
    display: u8,
    entry: u8,
    en: bool,
)
    ensures
        !sp_en_after(sp_init8_plan(v, function, display, entry), en),
        !sp_en_after(sp_init4_plan(v, function, display, entry), en),
{
    let ctl = LcdRegisterSelect::Control;
    let em = sp_entry_mode_byte(entry);
    let head8 = sp_init_preamble(v) + sp_reset8_ops(v) + sp_write8_plan(
        v,
        ctl,
        sp_function_set_byte_8bit(function),
    ) + sp_write8_plan(v, ctl, sp_display_control_byte(display)) + sp_write8_plan(
        v,
        ctl,
        CLEAR_DISPLAY,
    );
    lemma_en_after_append(head8, sp_write8_plan(v, ctl, em), en);
    lemma_write_leaves_enable_low(v, ctl, em, sp_en_after(head8, en));
    let head4 = sp_init_preamble(v) + sp_reset4_ops(v) + sp_write4_plan(
        v,
        ctl,
        sp_function_set_byte_4bit(function),
    ) + sp_write4_plan(v, ctl, sp_display_control_byte(display)) + sp_write4_plan(
        v,
        ctl,
        CLEAR_DISPLAY,
    );
    lemma_en_after_append(head4, sp_write4_plan(v, ctl, em), en);
    lemma_write_leaves_enable_low(v, ctl, em, sp_en_after(head4, en));
}

/// The Enable-line level after a read plan, from the prior level `en`.
pub open spec fn sp_probe_en_after(ops: Seq<LcdProbeOp>, en: bool) -> bool
    decreases ops.len(),
{
    if ops.len() == 0 {
        en
    } else {
        let next = match ops[0] {
            LcdProbeOp::Drive(line, high) => if line is En {
                high
            } else {
                en
            },
            _ => en,
        };
        sp_probe_en_after(ops.drop_first(), next)
    }
}

/// Whether the bus is in write direction after a read plan, from the
/// prior direction (`true` meaning write).
pub open spec fn sp_probe_write_dir_after(ops: Seq<LcdProbeOp>, write_dir: bool) -> bool
    decreases ops.len(),
{
    if ops.len() == 0 {
        write_dir
    } else {
        let next = match ops[0] {
            LcdProbeOp::SetReadMode => false,
            LcdProbeOp::SetWriteMode => true,
            _ => write_dir,
        };
        sp_probe_write_dir_after(ops.drop_first(), next)
    }
}

/// An 8-bit status read leaves the Enable line low and restores the write
/// direction, whatever state the bus was in before: the bus is ready for
/// the next call.
#[verifier::rlimit(60)]
pub proof fn lemma_read8_leaves_bus_ready(v: LcdTimingValues, en: bool, write_dir: bool)
    ensures
        !sp_probe_en_after(sp_status_read8_plan(v), en),
        sp_probe_write_dir_after(sp_status_read8_plan(v), write_dir),
{
    reveal_with_fuel(sp_probe_en_after, 26);
    reveal_with_fuel(sp_probe_write_dir_after, 26);
}

/// A 4-bit status read leaves the Enable line low and restores the write
/// direction, whatever state the bus was in before.
#[verifier::rlimit(60)]
pub proof fn lemma_read4_leaves_bus_ready(v: LcdTimingValues, en: bool, write_dir: bool)
    ensures
        !sp_probe_en_after(sp_status_read4_plan(v), en),
        sp_probe_write_dir_after(sp_status_read4_plan(v), write_dir),
{
    reveal_with_fuel(sp_probe_en_after, 25);
    reveal_with_fuel(sp_probe_write_dir_after, 25);
}

/// Whether one I2C frame carries the backlight bit at the level `on` in
/// every byte it transfers.
pub open spec fn sp_i2c_op_backlight(op: LcdI2cOp, on: bool) -> bool {
    match op {
        LcdI2cOp::WriteOne(b) => ((b & I2C_BACKLIGHT) != 0) == on,
        LcdI2cOp::WriteTwo(b0, b1) => ((b0 & I2C_BACKLIGHT) != 0) == on && ((b1 & I2C_BACKLIGHT)
            != 0) == on,
        LcdI2cOp::ReadThenWrite(b) => ((b & I2C_BACKLIGHT) != 0) == on,
        LcdI2cOp::Wait(_) => true,
    }
}

/// Whether every frame of a plan carries the backlight bit at `on`.
pub open spec fn sp_i2c_plan_backlight(plan: Seq<LcdI2cOp>, on: bool) -> bool {
    forall|i: int| 0 <= i < plan.len() ==> sp_i2c_op_backlight(#[trigger] plan[i], on)
}

/// The backlight level of the composed frame bytes equals the persisted
/// state's backlight bit: forcing the register-select bit and OR-ing a
/// data nibble, the read bit, or the Enable bit never touches bit 3.
proof fn lemma_i2c_frame_bytes_backlight(state: u8, rs: LcdRegisterSelect, data: u8)
    ensures
        ((sp_i2c_state_with_rs(state, rs) & I2C_BACKLIGHT) != 0) == ((state & I2C_BACKLIGHT) != 0),
        forall|extra: u8|
            (extra & I2C_BACKLIGHT) == 0 ==> (((sp_i2c_state_with_rs(state, rs) | extra)
                & I2C_BACKLIGHT) != 0) == ((state & I2C_BACKLIGHT) != 0),
{
    let st = sp_i2c_state_with_rs(state, rs);
    assert(((state | 0x01) & 0x08 != 0) == (state & 0x08 != 0)) by (bit_vector);
    assert(((state & !0x01) & 0x08 != 0) == (state & 0x08 != 0)) by (bit_vector);
    assert forall|extra: u8| (extra & I2C_BACKLIGHT) == 0 implies (((st | extra) & I2C_BACKLIGHT)
        != 0) == ((st & I2C_BACKLIGHT) != 0) by {
        assert((extra & 0x08) == 0 ==> (((st | extra) & 0x08) != 0) == ((st & 0x08) != 0))
            by (bit_vector);
    }
}

/// A write over the expander carries the persisted backlight bit unchanged
/// in every byte of every frame: switching the backlight on and then
/// writing never clears it, switching it off and then writing never sets
/// it.
pub proof fn lemma_i2c_write_backlight(
    v: LcdTimingValues,
    state: u8,
    rs: LcdRegisterSelect,
    data: u8,
)
    ensures
        sp_i2c_plan_backlight(sp_i2c_write_plan(v, state, rs, data), (state & I2C_BACKLIGHT) != 0),
{
    let on = (state & I2C_BACKLIGHT) != 0;
    let st = sp_i2c_state_with_rs(state, rs);
    lemma_i2c_frame_bytes_backlight(state, rs, data);
    assert((data & 0xf0) & I2C_BACKLIGHT == 0) by (bit_vector);
    assert((data << 4) & I2C_BACKLIGHT == 0) by (bit_vector);
    assert(((data & 0xf0) | 0x04) & I2C_BACKLIGHT == 0) by (bit_vector);
    assert(((data << 4) | 0x04) & I2C_BACKLIGHT == 0) by (bit_vector);
    let upper = st | (data & 0xf0);
    let lower = st | (data << 4);
    assert(upper | 0x04 == st | ((data & 0xf0) | 0x04)) by (bit_vector)
        requires
            upper == st | (data & 0xf0),
    ;
    assert(lower | 0x04 == st | ((data << 4) | 0x04)) by (bit_vector)
        requires
            lower == st | (data << 4),
    ;
}

/// A status read over the expander carries the persisted backlight bit
/// unchanged in every byte of every frame.
pub proof fn lemma_i2c_read_backlight(v: LcdTimingValues, state: u8, rs: LcdRegisterSelect)
    ensures
        sp_i2c_plan_backlight(sp_i2c_read_plan(v, state, rs), (state & I2C_BACKLIGHT) != 0),
{
    let st = sp_i2c_state_with_rs(state, rs);
    lemma_i2c_frame_bytes_backlight(state, rs, 0);
    assert((0xf0u8 | 0x02) & I2C_BACKLIGHT == 0) by (bit_vector);
    assert(((0xf0u8 | 0x02) | 0x04) & I2C_BACKLIGHT == 0) by (bit_vector);
    let probe = st | 0xf0 | 0x02;
    assert(probe == st | (0xf0u8 | 0x02)) by (bit_vector)
        requires
            probe == (st | 0xf0) | 0x02,
    ;
    assert(probe | 0x04 == st | ((0xf0u8 | 0x02) | 0x04)) by (bit_vector)
        requires
            probe == st | (0xf0u8 | 0x02),
    ;
}

/// Concatenating plans keeps the backlight property.
proof fn lemma_i2c_backlight_concat(a: Seq<LcdI2cOp>, b: Seq<LcdI2cOp>, on: bool)
    requires
        sp_i2c_plan_backlight(a, on),
        sp_i2c_plan_backlight(b, on),
    ensures
        sp_i2c_plan_backlight(a + b, on),
{
    assert forall|i: int| 0 <= i < (a + b).len() implies sp_i2c_op_backlight(
        #[trigger] (a + b)[i],
        on,
    ) by {
        if i < a.len() {
            assert((a + b)[i] == a[i]);
        } else {
            assert((a + b)[i] == b[i - a.len()]);
        }
    }
}

/// The whole init plan over the expander carries the persisted backlight
/// bit unchanged in every byte of every frame.
pub proof fn lemma_i2c_init_backlight(
    v: LcdTimingValues,
    state: u8,
    function: u8,
    display: u8,
    entry: u8,
)
    ensures
        sp_i2c_plan_backlight(
            sp_i2c_init_plan(v, state, function, display, entry),
            (state & I2C_BACKLIGHT) != 0,
        ),
{
    let on = (state & I2C_BACKLIGHT) != 0;
    let ctl = LcdRegisterSelect::Control;
    assert(((state | 0x30) & 0x08 != 0) == on && (((state | 0x30) | 0x04) & 0x08 != 0) == on && ((
    state | 0x20) & 0x08 != 0) == on && (((state | 0x20) | 0x04) & 0x08 != 0) == on) by (bit_vector)
        requires
            on == (state & 0x08u8 != 0),
    ;
    assert(sp_i2c_plan_backlight(sp_i2c_reset_ops(v, state), on));
    assert(sp_i2c_plan_backlight(sp_i2c_select4_ops(v, state), on));
    lemma_i2c_write_backlight(v, state, ctl, sp_function_set_byte_4bit(function));
    lemma_i2c_write_backlight(v, state, ctl, sp_display_control_byte(display));
    lemma_i2c_write_backlight(v, state, ctl, CLEAR_DISPLAY);
    lemma_i2c_write_backlight(v, state, ctl, sp_entry_mode_byte(entry));
    lemma_i2c_backlight_concat(sp_i2c_reset_ops(v, state), sp_i2c_select4_ops(v, state), on);
    lemma_i2c_backlight_concat(
        sp_i2c_reset_ops(v, state) + sp_i2c_select4_ops(v, state),
        sp_i2c_write_plan(v, state, ctl, sp_function_set_byte_4bit(function)),
        on,
    );
    lemma_i2c_backlight_concat(
        sp_i2c_reset_ops(v, state) + sp_i2c_select4_ops(v, state) + sp_i2c_write_plan(
            v,
            state,
            ctl,
            sp_function_set_byte_4bit(function),
        ),
        sp_i2c_write_plan(v, state, ctl, sp_display_control_byte(display)),
        on,
    );
    lemma_i2c_backlight_concat(
        sp_i2c_reset_ops(v, state) + sp_i2c_select4_ops(v, state) + sp_i2c_write_plan(
            v,
            state,
            ctl,
            sp_function_set_byte_4bit(function),
        ) + sp_i2c_write_plan(v, state, ctl, sp_display_control_byte(display)),
        sp_i2c_write_plan(v, state, ctl, CLEAR_DISPLAY),
        on,
    );
    lemma_i2c_backlight_concat(
        sp_i2c_reset_ops(v, state) + sp_i2c_select4_ops(v, state) + sp_i2c_write_plan(
            v,
            state,
            ctl,
            sp_function_set_byte_4bit(function),
        ) + sp_i2c_write_plan(v, state, ctl, sp_display_control_byte(display)) + sp_i2c_write_plan(
            v,
            state,
            ctl,
            CLEAR_DISPLAY,
        ),
        sp_i2c_write_plan(v, state, ctl, sp_entry_mode_byte(entry)),
        on,
    );
}

/// The levels the eight data lines carry when the controller answers with
/// the status byte `b`: line `Dk` carries bit `k`.
pub open spec fn sp_levels_of_byte(b: u8) -> Seq<bool> {
    seq![
        (b & 0x01) != 0,
        (b & 0x02) != 0,
        (b & 0x04) != 0,
        (b & 0x08) != 0,
        (b & 0x10) != 0,
        (b & 0x20) != 0,
        (b & 0x40) != 0,
        (b & 0x80) != 0,
    ]
}

/// An 8-bit status read reproduces the controller's byte exactly: for
/// every busy level and every one of the 128 representable addresses, the
/// assembled status byte has bit 7 equal to the busy line and bits 0 to 6
/// equal to the address lines.
pub proof fn lemma_status8_round_trip(busy: bool, address: u8)
    requires
        address < 0x80,
    ensures
        sp_status8_of_levels(sp_levels_of_byte(address | (if busy { 0x80u8 } else { 0u8 })))
            == address | (if busy { 0x80u8 } else { 0u8 }),
        ((address | (if busy { 0x80u8 } else { 0u8 })) & 0x80 != 0) == busy,
        (address | (if busy { 0x80u8 } else { 0u8 })) & 0x7f == address,
{
    let b = address | (if busy { 0x80u8 } else { 0u8 });
    assert(sp_status8_of_levels(sp_levels_of_byte(b)) == b) by {
        assert((if (b & 0x01) != 0 { 0x01u8 } else { 0u8 }) | (if (b & 0x02) != 0 {
            0x02u8
        } else {
            0u8
        }) | (if (b & 0x04) != 0 { 0x04u8 } else { 0u8 }) | (if (b & 0x08) != 0 {
            0x08u8
        } else {
            0u8
        }) | (if (b & 0x10) != 0 { 0x10u8 } else { 0u8 }) | (if (b & 0x20) != 0 {
            0x20u8
        } else {
            0u8
        }) | (if (b & 0x40) != 0 { 0x40u8 } else { 0u8 }) | (if (b & 0x80) != 0 {
            0x80u8
        } else {
            0u8
        }) == b) by (bit_vector);
    }
    assert(address < 0x80 ==> ((address | (if busy { 0x80u8 } else { 0u8 })) & 0x80 != 0) == busy
        && (address | (if busy { 0x80u8 } else { 0u8 })) & 0x7f == address) by (bit_vector);
}

/// The levels the four data lines carry over a two-cycle 4-bit status
/// read of the byte `b`: the upper nibble's bits first, then the lower
/// nibble's.
pub open spec fn sp_levels4_of_byte(b: u8) -> Seq<bool> {
    seq![
        (b & 0x10) != 0,
        (b & 0x20) != 0,
        (b & 0x40) != 0,
        (b & 0x80) != 0,
        (b & 0x01) != 0,
        (b & 0x02) != 0,
        (b & 0x04) != 0,
        (b & 0x08) != 0,
    ]
}

/// A 4-bit status read reproduces the controller's byte exactly, upper
/// nibble sampled first.
pub proof fn lemma_status4_round_trip(b: u8)
    ensures
        sp_status4_of_levels(sp_levels4_of_byte(b)) == b,
{
    assert((if (b & 0x10) != 0 { 0x10u8 } else { 0u8 }) | (if (b & 0x20) != 0 {
        0x20u8
    } else {
        0u8
    }) | (if (b & 0x40) != 0 { 0x40u8 } else { 0u8 }) | (if (b & 0x80) != 0 {
        0x80u8
    } else {
        0u8
    }) | (if (b & 0x01) != 0 { 0x01u8 } else { 0u8 }) | (if (b & 0x02) != 0 {
        0x02u8
    } else {
        0u8
    }) | (if (b & 0x04) != 0 { 0x04u8 } else { 0u8 }) | (if (b & 0x08) != 0 {
        0x08u8
    } else {
        0u8
    }) == b) by (bit_vector);
}

/// A status read over the expander reproduces the controller's byte
/// exactly: the expander's data pins sit in the upper nibble of each
/// sampled byte, whatever its lower bits carry, and the reassembly takes
/// the upper nibble of the first sample and the upper nibble of the
/// second.
pub proof fn lemma_status_i2c_round_trip(b: u8, low_bits_first: u8, low_bits_second: u8)
    requires
        low_bits_first < 0x10,
        low_bits_second < 0x10,
    ensures
        sp_i2c_status_byte((b & 0xf0) | low_bits_first, (b << 4) | low_bits_second) == b,
{
    let x = low_bits_first;
    let y = low_bits_second;
    assert(x < 0x10 && y < 0x10 ==> ((((b & 0xf0) | x) & 0xf0) | (((b << 4) | y) >> 4)) == b)
        by (bit_vector);
}

} // verus!
