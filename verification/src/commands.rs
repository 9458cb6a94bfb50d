//! Composition of the controller's command bytes: a fixed opcode bit OR'd
//! with the caller's mode flags restricted to their legal bit ranges.

use vstd::prelude::*;
use crate::modes::LcdDisplayMode;
use crate::modes::LcdEntryMode;
use crate::modes::LcdFunctionMode;

verus! {

/// Opcode of the clear-display command.
pub const CLEAR_DISPLAY: u8 = 0x01;

/// Opcode of the return-home command.
pub const RETURN_HOME: u8 = 0x02;

/// Opcode bit of the entry-mode-set command.
pub const ENTRY_MODE_SET: u8 = 0x04;

/// Opcode bit of the display-control command.
pub const DISPLAY_CONTROL: u8 = 0x08;

/// Opcode bit of the function-set command.
pub const FUNCTION_SET: u8 = 0x20;

/// Opcode bit of the set-DDRAM-address command.
pub const SET_DDRAM_ADDRESS: u8 = 0x80;

/// The function-set command byte for an 8-bit bus: the caller's flags
/// restricted to their legal bits (0x1c), with the data-length bit forced on.
pub open spec fn sp_function_set_byte_8bit(function: u8) -> u8 {
    FUNCTION_SET | ((function & 0x1c) | 0x10)
}

/// The function-set command byte for a 4-bit bus: the caller's flags
/// restricted to their legal bits with the data-length bit forced off.
pub open spec fn sp_function_set_byte_4bit(function: u8) -> u8 {
    FUNCTION_SET | (function & 0x0c)
}

/// The display-control command byte: the caller's visibility flags
/// restricted to their legal bits (0x07).
pub open spec fn sp_display_control_byte(display: u8) -> u8 {
    DISPLAY_CONTROL | (display & 0x07)
}

/// The entry-mode-set command byte: the caller's entry flags restricted to
/// their legal bits (0x03).
pub open spec fn sp_entry_mode_byte(entry: u8) -> u8 {
    ENTRY_MODE_SET | (entry & 0x03)
}

/// Composes the function-set command byte for an 8-bit bus.
pub fn function_set_byte_8bit(function: LcdFunctionMode) -> (r: u8)
    ensures
        r == sp_function_set_byte_8bit(function@),
{
    FUNCTION_SET | ((function.bits() & 0x1c) | 0x10)
}

/// Composes the function-set command byte for a 4-bit bus.
pub fn function_set_byte_4bit(function: LcdFunctionMode) -> (r: u8)
    ensures
        r == sp_function_set_byte_4bit(function@),
{
    FUNCTION_SET | (function.bits() & 0x0c)
}

/// Composes the display-control command byte.
pub fn display_control_byte(display: LcdDisplayMode) -> (r: u8)
    ensures
        r == sp_display_control_byte(display@),
{
    DISPLAY_CONTROL | (display.bits() & 0x07)
}

/// Composes the entry-mode-set command byte.
pub fn entry_mode_byte(entry: LcdEntryMode) -> (r: u8)
    ensures
        r == sp_entry_mode_byte(entry@),
{
    ENTRY_MODE_SET | (entry.bits() & 0x03)
}

} // verus!
