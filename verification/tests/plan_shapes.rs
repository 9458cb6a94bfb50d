//! The exact operation sequences of the parallel plans: write cycles,
//! nibble order, the reset handshake, and the full init plans.

use embedded_lcd::DefaultTimingsParallel4;
use embedded_lcd::DefaultTimingsParallel8;
use embedded_lcd::LcdBusOp;
use embedded_lcd::LcdDisplayMode;
use embedded_lcd::LcdEntryMode;
use embedded_lcd::LcdFunctionMode;
use embedded_lcd::LcdLine;
use embedded_lcd::LcdProbeOp;
use embedded_lcd::LcdRegisterSelect;
use embedded_lcd::parallel_init4_plan;
use embedded_lcd::parallel_init8_plan;
use embedded_lcd::parallel_read4_plan;
use embedded_lcd::parallel_read8_plan;
use embedded_lcd::parallel_write4_plan;
use embedded_lcd::parallel_write8_plan;

fn set8(data: u8) -> Vec<LcdBusOp> {
    vec![
        LcdBusOp::SetLine(LcdLine::D0, data & 0x01 != 0),
        LcdBusOp::SetLine(LcdLine::D1, data & 0x02 != 0),
        LcdBusOp::SetLine(LcdLine::D2, data & 0x04 != 0),
        LcdBusOp::SetLine(LcdLine::D3, data & 0x08 != 0),
        LcdBusOp::SetLine(LcdLine::D4, data & 0x10 != 0),
        LcdBusOp::SetLine(LcdLine::D5, data & 0x20 != 0),
        LcdBusOp::SetLine(LcdLine::D6, data & 0x40 != 0),
        LcdBusOp::SetLine(LcdLine::D7, data & 0x80 != 0),
    ]
}

fn set4(nibble: u8) -> Vec<LcdBusOp> {
    vec![
        LcdBusOp::SetLine(LcdLine::D4, nibble & 0x01 != 0),
        LcdBusOp::SetLine(LcdLine::D5, nibble & 0x02 != 0),
        LcdBusOp::SetLine(LcdLine::D6, nibble & 0x04 != 0),
        LcdBusOp::SetLine(LcdLine::D7, nibble & 0x08 != 0),
    ]
}

fn pulse(on: u32, off: u32) -> Vec<LcdBusOp> {
    vec![
        LcdBusOp::SetLine(LcdLine::En, true),
        LcdBusOp::Wait(on),
        LcdBusOp::SetLine(LcdLine::En, false),
        LcdBusOp::Wait(off),
    ]
}

fn pulse_no_tail(on: u32) -> Vec<LcdBusOp> {
    vec![
        LcdBusOp::SetLine(LcdLine::En, true),
        LcdBusOp::Wait(on),
        LcdBusOp::SetLine(LcdLine::En, false),
    ]
}

#[test]
fn write8_control_sets_every_data_line_and_pulses() {
    let plan = parallel_write8_plan(&DefaultTimingsParallel8, LcdRegisterSelect::Control, 0xa5);
    let mut expected = vec![LcdBusOp::SetLine(LcdLine::Rs, false)];
    expected.extend(set8(0xa5));
    expected.extend(pulse(1_500_000, 1_000_000));
    assert_eq!(plan, expected);
}

#[test]
fn write8_memory_selects_memory_durations() {
    let plan = parallel_write8_plan(&DefaultTimingsParallel8, LcdRegisterSelect::Memory, 0x41);
    let mut expected = vec![LcdBusOp::SetLine(LcdLine::Rs, true)];
    expected.extend(set8(0x41));
    expected.extend(pulse(500, 50_000));
    assert_eq!(plan, expected);
}

#[test]
fn write8_data_lines_carry_exactly_the_bits_for_every_byte() {
    for data in 0..=255u8 {
        for rs in [LcdRegisterSelect::Control, LcdRegisterSelect::Memory] {
            let plan = parallel_write8_plan(&DefaultTimingsParallel8, rs, data);
            assert_eq!(plan.len(), 13);
            assert_eq!(&plan[1..9], set8(data).as_slice());
        }
    }
}

#[test]
fn write4_sends_upper_nibble_strictly_before_lower() {
    for data in 0..=255u8 {
        let plan = parallel_write4_plan(&DefaultTimingsParallel4, LcdRegisterSelect::Memory, data);
        let mut expected = vec![LcdBusOp::SetLine(LcdLine::Rs, true)];
        expected.extend(set4(data >> 4));
        expected.extend(pulse(3_000, 50_000));
        expected.extend(set4(data & 0x0f));
        expected.extend(pulse(3_000, 50_000));
        assert_eq!(plan, expected);
    }
}

#[test]
fn init8_plan_is_reset_handshake_then_four_commands() {
    // Two-line display, 5x8 font.
    let function = LcdFunctionMode::new(true, false, false);
    let display = LcdDisplayMode::new(true, true, false);
    let entry = LcdEntryMode::new(true, false);
    let plan = parallel_init8_plan(&DefaultTimingsParallel8, function, display, entry);

    let mut expected = vec![
        LcdBusOp::SetLine(LcdLine::Rs, false),
        LcdBusOp::SetWriteMode,
        LcdBusOp::SetLine(LcdLine::En, false),
        LcdBusOp::Wait(50_000_000),
    ];
    expected.extend(set8(0x30));
    expected.extend(pulse_no_tail(1_500_000));
    expected.push(LcdBusOp::Wait(4_500_000));
    expected.extend(pulse_no_tail(1_500_000));
    expected.push(LcdBusOp::Wait(100_000));
    expected.extend(pulse(1_500_000, 1_000_000));
    // Function set: opcode 0x20, two lines 0x08, 8-bit data length 0x10.
    for command in [0x38u8, 0x0e, 0x01, 0x06] {
        expected.push(LcdBusOp::SetLine(LcdLine::Rs, false));
        expected.extend(set8(command));
        expected.extend(pulse(1_500_000, 1_000_000));
    }
    assert_eq!(plan, expected);
}

#[test]
fn init4_plan_pulses_3_3_3_then_2_then_four_commands() {
    let function = LcdFunctionMode::new(true, false, false);
    let display = LcdDisplayMode::new(true, true, false);
    let entry = LcdEntryMode::new(true, false);
    let plan = parallel_init4_plan(&DefaultTimingsParallel4, function, display, entry);

    let mut expected = vec![
        LcdBusOp::SetLine(LcdLine::Rs, false),
        LcdBusOp::SetWriteMode,
        LcdBusOp::SetLine(LcdLine::En, false),
        LcdBusOp::Wait(50_000_000),
    ];
    expected.extend(set4(0x3));
    expected.extend(pulse_no_tail(750_000));
    expected.push(LcdBusOp::Wait(4_500_000));
    expected.extend(pulse_no_tail(750_000));
    expected.push(LcdBusOp::Wait(100_000));
    expected.extend(pulse(750_000, 800_000));
    expected.extend(set4(0x2));
    expected.extend(pulse(750_000, 800_000));
    // Function set for the 4-bit bus: opcode 0x20, two lines 0x08.
    for command in [0x28u8, 0x0e, 0x01, 0x06] {
        expected.push(LcdBusOp::SetLine(LcdLine::Rs, false));
        expected.extend(set4(command >> 4));
        expected.extend(pulse(750_000, 800_000));
        expected.extend(set4(command & 0x0f));
        expected.extend(pulse(750_000, 800_000));
    }
    assert_eq!(plan, expected);
}

#[test]
fn read8_plan_floats_lines_high_samples_and_restores_write_mode() {
    let plan = parallel_read8_plan(&DefaultTimingsParallel8);
    let expected = vec![
        LcdProbeOp::Drive(LcdLine::Rs, false),
        LcdProbeOp::SetReadMode,
        LcdProbeOp::Drive(LcdLine::Rs, false),
        LcdProbeOp::Drive(LcdLine::D0, true),
        LcdProbeOp::Drive(LcdLine::D1, true),
        LcdProbeOp::Drive(LcdLine::D2, true),
        LcdProbeOp::Drive(LcdLine::D3, true),
        LcdProbeOp::Drive(LcdLine::D4, true),
        LcdProbeOp::Drive(LcdLine::D5, true),
        LcdProbeOp::Drive(LcdLine::D6, true),
        LcdProbeOp::Drive(LcdLine::D7, true),
        LcdProbeOp::Drive(LcdLine::En, true),
        LcdProbeOp::Wait(1_000_000),
        LcdProbeOp::Sample(LcdLine::D0),
        LcdProbeOp::Sample(LcdLine::D1),
        LcdProbeOp::Sample(LcdLine::D2),
        LcdProbeOp::Sample(LcdLine::D3),
        LcdProbeOp::Sample(LcdLine::D4),
        LcdProbeOp::Sample(LcdLine::D5),
        LcdProbeOp::Sample(LcdLine::D6),
        LcdProbeOp::Sample(LcdLine::D7),
        LcdProbeOp::Drive(LcdLine::En, false),
        LcdProbeOp::Wait(1_000_000),
        LcdProbeOp::SetWriteMode,
    ];
    assert_eq!(plan, expected);
}

#[test]
fn read4_plan_samples_upper_nibble_cycle_before_lower() {
    let plan = parallel_read4_plan(&DefaultTimingsParallel4);
    let samples: Vec<usize> = plan
        .iter()
        .enumerate()
        .filter_map(|(i, op)| match op {
            LcdProbeOp::Sample(_) => Some(i),
            _ => None,
        })
        .collect();
    assert_eq!(samples.len(), 8);
    // Two sampling bursts of four, separated by the Enable re-pulse.
    assert_eq!(&samples[0..4], &[8, 9, 10, 11]);
    assert_eq!(&samples[4..8], &[16, 17, 18, 19]);
    assert_eq!(plan[12], LcdProbeOp::Drive(LcdLine::En, false));
    assert_eq!(plan[14], LcdProbeOp::Drive(LcdLine::En, true));
    assert_eq!(plan[22], LcdProbeOp::SetWriteMode);
    assert_eq!(plan.len(), 23);
}
