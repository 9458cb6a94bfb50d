//! The register selector, the controller status byte, and the mode-flag
//! bytes (display control, entry mode, function set, font choice) that the
//! initialization commands are composed from.
//!
//! Each flag type wraps one byte; its view is that byte, and every method
//! states exactly which bits it reads or writes.

use vstd::prelude::*;

verus! {

/// Selects which internal controller register a transfer targets: the
/// command register (`Control`) or the character-data register (`Memory`).
/// The choice drives both the RS line level and the timing class.
#[derive(Clone, Copy, Debug, PartialEq, Eq, Structural)]
pub enum LcdRegisterSelect {
    Control,
    Memory,
}

/// The status byte a read transfer returns: bit 7 is the busy flag, bits
/// 0 to 6 echo the current DDRAM/CGRAM address.
#[derive(Clone, Copy, Debug, PartialEq, Eq, Structural)]
pub struct LcdStatus {
    bits: u8,
}

impl View for LcdStatus {
    type V = u8;

    closed spec fn view(&self) -> u8 {
        self.bits
    }
}

impl LcdStatus {
    /// Wraps a raw status byte without interpretation.
    pub fn from_bits_retain(bits: u8) -> (r: Self)
        ensures
            r@ == bits,
    {
        LcdStatus { bits }
    }

    /// The raw status byte.
    pub fn bits(&self) -> (r: u8)
        ensures
            r == self@,
    {
        self.bits
    }

    /// The DDRAM/CGRAM address echoed by the controller (bits 0 to 6).
    pub fn address(&self) -> (r: u8)
        ensures
            r == (self@ & 0x7f),
    {
        self.bits & 0x7f
    }

    /// The busy flag (bit 7).
    pub fn busy(&self) -> (r: bool)
        ensures
            r == ((self@ & 0x80) != 0),
    {
        self.bits & 0x80 != 0
    }
}

/// Display-control flags: bit 0 blinks the character under the cursor,
/// bit 1 shows the cursor, bit 2 turns the display on.
#[derive(Clone, Copy, Debug, PartialEq, Eq, Structural)]
pub struct LcdDisplayMode {
    bits: u8,
}

impl View for LcdDisplayMode {
    type V = u8;

    closed spec fn view(&self) -> u8 {
        self.bits
    }
}

impl LcdDisplayMode {
    /// No flag set: display off, cursor hidden.
    pub fn empty() -> (r: Self)
        ensures
            r@ == 0,
    {
        LcdDisplayMode { bits: 0 }
    }

    /// Builds the flag byte from the three visibility choices.
    pub fn new(show_display: bool, show_cursor: bool, show_cursor_position: bool) -> (r: Self)
        ensures
            r@ == (if show_display { 4u8 } else { 0u8 }) | (if show_cursor { 2u8 } else { 0u8 })
                | (if show_cursor_position { 1u8 } else { 0u8 }),
    {
        let bits = (if show_display { 4u8 } else { 0u8 }) | (if show_cursor { 2u8 } else { 0u8 })
            | (if show_cursor_position { 1u8 } else { 0u8 });
        LcdDisplayMode { bits }
    }

    /// Wraps a raw flag byte without masking.
    pub fn from_bits_retain(bits: u8) -> (r: Self)
        ensures
            r@ == bits,
    {
        LcdDisplayMode { bits }
    }

    /// The raw flag byte.
    pub fn bits(&self) -> (r: u8)
        ensures
            r == self@,
    {
        self.bits
    }

    /// Whether the character under the cursor blinks (bit 0).
    pub fn show_cursor_position(&self) -> (r: bool)
        ensures
            r == ((self@ & 1) != 0),
    {
        self.bits & 1 != 0
    }

    /// Whether the cursor is visible (bit 1).
    pub fn show_cursor(&self) -> (r: bool)
        ensures
            r == ((self@ & 2) != 0),
    {
        self.bits & 2 != 0
    }

    /// Whether the display is on (bit 2).
    pub fn show_display(&self) -> (r: bool)
        ensures
            r == ((self@ & 4) != 0),
    {
        self.bits & 4 != 0
    }
}

/// Entry-mode flags: bit 0 shifts the whole display on each write, bit 1
/// increments the DDRAM address after each write (decrements when clear).
#[derive(Clone, Copy, Debug, PartialEq, Eq, Structural)]
pub struct LcdEntryMode {
    bits: u8,
}

impl View for LcdEntryMode {
    type V = u8;

    closed spec fn view(&self) -> u8 {
        self.bits
    }
}

impl LcdEntryMode {
    /// No flag set: decrementing address, no display shift.
    pub fn empty() -> (r: Self)
        ensures
            r@ == 0,
    {
        LcdEntryMode { bits: 0 }
    }

    /// Builds the flag byte from the two entry choices.
    pub fn new(increment: bool, shift: bool) -> (r: Self)
        ensures
            r@ == (if increment { 2u8 } else { 0u8 }) | (if shift { 1u8 } else { 0u8 }),
    {
        let bits = (if increment { 2u8 } else { 0u8 }) | (if shift { 1u8 } else { 0u8 });
        LcdEntryMode { bits }
    }

    /// Wraps a raw flag byte without masking.
    pub fn from_bits_retain(bits: u8) -> (r: Self)
        ensures
            r@ == bits,
    {
        LcdEntryMode { bits }
    }

    /// The raw flag byte.
    pub fn bits(&self) -> (r: u8)
        ensures
            r == self@,
    {
        self.bits
    }
}

/// Function-set flags: bit 2 selects the 5x10 font, bit 3 enables the
/// second display line, bit 4 selects the 8-bit bus width.
#[derive(Clone, Copy, Debug, PartialEq, Eq, Structural)]
pub struct LcdFunctionMode {
    bits: u8,
}

impl View for LcdFunctionMode {
    type V = u8;

    closed spec fn view(&self) -> u8 {
        self.bits
    }
}

impl LcdFunctionMode {
    /// No flag set: one line, 5x8 font, 4-bit bus.
    pub fn empty() -> (r: Self)
        ensures
            r@ == 0,
    {
        LcdFunctionMode { bits: 0 }
    }

    /// Builds the flag byte from the three function choices.
    pub fn new(two_lines: bool, font_5x10: bool, eight_bit_bus: bool) -> (r: Self)
        ensures
            r@ == (if eight_bit_bus { 0x10u8 } else { 0u8 }) | (if two_lines { 8u8 } else { 0u8 })
                | (if font_5x10 { 4u8 } else { 0u8 }),
    {
        let bits = (if eight_bit_bus { 0x10u8 } else { 0u8 }) | (if two_lines { 8u8 } else { 0u8 })
            | (if font_5x10 { 4u8 } else { 0u8 });
        LcdFunctionMode { bits }
    }

    /// Wraps a raw flag byte without masking.
    pub fn from_bits_retain(bits: u8) -> (r: Self)
        ensures
            r@ == bits,
    {
        LcdFunctionMode { bits }
    }

    /// The raw flag byte.
    pub fn bits(&self) -> (r: u8)
        ensures
            r == self@,
    {
        self.bits
    }
}

/// The two character fonts the controller offers.
#[derive(Clone, Copy, Debug, PartialEq, Eq, Structural)]
pub enum LcdFontMode {
    Font5x8,
    Font5x10,
}

} // verus!
