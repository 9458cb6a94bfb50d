//! The flag types, the status byte, the command-byte composition, the
//! built-in timing policies, and the status assembly functions.

use embedded_lcd::DefaultTimingsI2c;
use embedded_lcd::DefaultTimingsParallel4;
use embedded_lcd::DefaultTimingsParallel8;
use embedded_lcd::LcdDisplayMode;
use embedded_lcd::LcdEntryMode;
use embedded_lcd::LcdFunctionMode;
use embedded_lcd::LcdRegisterSelect;
use embedded_lcd::LcdStatus;
use embedded_lcd::LcdTimingsI2c;
use embedded_lcd::LcdTimingsParallel;
use embedded_lcd::assemble_status_4bit;
use embedded_lcd::assemble_status_8bit;
use embedded_lcd::assemble_status_i2c;
use embedded_lcd::display_control_byte;
use embedded_lcd::entry_mode_byte;
use embedded_lcd::function_set_byte_4bit;
use embedded_lcd::function_set_byte_8bit;

#[test]
fn status_splits_into_busy_flag_and_address() {
    let status = LcdStatus::from_bits_retain(0xa5);
    assert!(status.busy());
    assert_eq!(status.address(), 0x25);
    assert_eq!(status.bits(), 0xa5);
    let idle = LcdStatus::from_bits_retain(0x7f);
    assert!(!idle.busy());
    assert_eq!(idle.address(), 0x7f);
}

#[test]
fn display_mode_getters_read_their_bits() {
    let mode = LcdDisplayMode::new(true, false, true);
    assert!(mode.show_display());
    assert!(!mode.show_cursor());
    assert!(mode.show_cursor_position());
    assert_eq!(mode.bits(), 0x05);
    assert_eq!(LcdDisplayMode::empty().bits(), 0);
    assert_eq!(LcdDisplayMode::from_bits_retain(0xff).bits(), 0xff);
}

#[test]
fn entry_and_function_flags_compose_their_bits() {
    assert_eq!(LcdEntryMode::new(true, false).bits(), 0x02);
    assert_eq!(LcdEntryMode::new(false, true).bits(), 0x01);
    assert_eq!(LcdEntryMode::empty().bits(), 0);
    assert_eq!(LcdFunctionMode::new(true, true, true).bits(), 0x1c);
    assert_eq!(LcdFunctionMode::new(false, true, false).bits(), 0x04);
    assert_eq!(LcdFunctionMode::empty().bits(), 0);
}

#[test]
fn command_bytes_mask_illegal_flag_bits() {
    assert_eq!(function_set_byte_8bit(LcdFunctionMode::from_bits_retain(0xff)), 0x3c);
    assert_eq!(function_set_byte_8bit(LcdFunctionMode::empty()), 0x30);
    assert_eq!(function_set_byte_4bit(LcdFunctionMode::from_bits_retain(0xff)), 0x2c);
    assert_eq!(function_set_byte_4bit(LcdFunctionMode::from_bits_retain(0x10)), 0x20);
    assert_eq!(display_control_byte(LcdDisplayMode::from_bits_retain(0xff)), 0x0f);
    assert_eq!(display_control_byte(LcdDisplayMode::new(true, true, false)), 0x0e);
    assert_eq!(entry_mode_byte(LcdEntryMode::from_bits_retain(0xff)), 0x07);
    assert_eq!(entry_mode_byte(LcdEntryMode::new(true, false)), 0x06);
}

#[test]
fn default_timing_policies_hold_the_documented_durations() {
    let p8 = DefaultTimingsParallel8;
    assert_eq!(p8.enable_pulse_on(LcdRegisterSelect::Control), 1_500_000);
    assert_eq!(p8.enable_pulse_on(LcdRegisterSelect::Memory), 500);
    assert_eq!(p8.enable_pulse_off(LcdRegisterSelect::Control), 1_000_000);
    assert_eq!(p8.enable_pulse_off(LcdRegisterSelect::Memory), 50_000);
    assert_eq!(p8.read_delay(), 1_000_000);
    assert_eq!(p8.power_on_delay(), 50_000_000);
    assert_eq!(p8.first_init_delay(), 4_500_000);
    assert_eq!(p8.second_init_delay(), 100_000);

    let p4 = DefaultTimingsParallel4;
    assert_eq!(p4.enable_pulse_on(LcdRegisterSelect::Control), 750_000);
    assert_eq!(p4.enable_pulse_on(LcdRegisterSelect::Memory), 3_000);
    assert_eq!(p4.enable_pulse_off(LcdRegisterSelect::Control), 800_000);
    assert_eq!(p4.enable_pulse_off(LcdRegisterSelect::Memory), 50_000);
    assert_eq!(p4.read_delay(), 800_000);

    let i2c = DefaultTimingsI2c;
    assert_eq!(i2c.enable_pulse_on(LcdRegisterSelect::Control), 750_000);
    assert_eq!(i2c.enable_pulse_on(LcdRegisterSelect::Memory), 3_000);
    assert_eq!(i2c.enable_pulse_off(LcdRegisterSelect::Control), 800_000);
    assert_eq!(i2c.read_delay(), 800_000);
    assert_eq!(i2c.power_on_delay(), 50_000_000);
}

#[test]
fn status_assembly_reconstructs_every_byte() {
    for value in 0..=255u16 {
        let byte = value as u8;
        let levels8: Vec<bool> = (0..8).map(|k| byte & (1 << k) != 0).collect();
        assert_eq!(assemble_status_8bit(&levels8).bits(), byte);

        let mut levels4: Vec<bool> = (4..8).map(|k| byte & (1 << k) != 0).collect();
        levels4.extend((0..4).map(|k| byte & (1 << k) != 0));
        assert_eq!(assemble_status_4bit(&levels4).bits(), byte);

        assert_eq!(assemble_status_i2c(byte & 0xf0, byte << 4).bits(), byte);
        assert_eq!(assemble_status_i2c((byte & 0xf0) | 0x0b, (byte << 4) | 0x03).bits(), byte);
    }
}
