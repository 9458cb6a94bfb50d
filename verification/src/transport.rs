//! Transport capabilities the engines consume: a single digital line, a
//! blocking delay, and a one- or two-byte I2C master. The surrounding
//! application implements these for its hardware; the engines state their
//! behaviour over the plans they hand to these capabilities, and promise
//! nothing of what the hardware itself does.

use vstd::prelude::*;

verus! {

/// One digital line: a failable level output and a failable level input.
/// Hardware wired without input capability may report a constant level.
pub trait DigitalLine: Sized {
    /// The transport's own error type, propagated unchanged.
    type Fault;

    /// Drives the line high or low.
    fn set(&mut self, high: bool) -> Result<(), Self::Fault>;

    /// Samples the line level.
    fn get(&mut self) -> Result<bool, Self::Fault>;
}

/// A blocking delay sink. The protocol's hold times are handed to it in
/// nanoseconds; it must wait at least that long.
pub trait LcdDelay: Sized {
    /// Blocks for at least `ns` nanoseconds.
    fn delay_ns(&mut self, ns: u32);
}

/// An I2C master capable of the only transaction shapes this protocol
/// needs: writing one byte, writing two bytes, and a combined transaction
/// that reads one byte and then writes one byte.
pub trait LcdI2cPort: Sized {
    /// The transport's own error type, propagated unchanged.
    type Fault;

    /// Writes a single byte to the device at `address`.
    fn write_one(&mut self, address: u8, byte: u8) -> Result<(), Self::Fault>;

    /// Writes two bytes in one transaction to the device at `address`.
    fn write_two(&mut self, address: u8, first: u8, second: u8) -> Result<(), Self::Fault>;

    /// One combined transaction: reads one byte from the device at
    /// `address`, then writes `byte` to it.
    fn read_one_then_write(&mut self, address: u8, byte: u8) -> Result<u8, Self::Fault>;
}

} // verus!
