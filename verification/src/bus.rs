//! The uniform bus-engine interface: write a byte to a register, read the
//! status byte, run the power-on initialization. Every engine implements
//! these against its own transport; the exact electrical behaviour of each
//! engine is pinned down by its public plan functions.

use vstd::prelude::*;
use crate::modes::LcdDisplayMode;
use crate::modes::LcdEntryMode;
use crate::modes::LcdFunctionMode;
use crate::modes::LcdRegisterSelect;
use crate::modes::LcdStatus;
use crate::transport::LcdDelay;

verus! {

/// Writing one byte to a controller register.
pub trait LcdWrite<Delay: LcdDelay>: Sized {
    /// The transport's error type, propagated unchanged.
    type Error;

    /// Transfers `data` to the register `rs`, pulsing Enable with the
    /// engine's timing policy, and leaves the bus ready for the next call.
    fn write(&mut self, rs: LcdRegisterSelect, data: u8, delay: &mut Delay) -> Result<
        (),
        Self::Error,
    >;

    /// Transfers `data` to the control register.
    fn write_command(&mut self, data: u8, delay: &mut Delay) -> Result<(), Self::Error> {
        self.write(LcdRegisterSelect::Control, data, delay)
    }

    /// Transfers `data` to the memory register.
    fn write_memory(&mut self, data: u8, delay: &mut Delay) -> Result<(), Self::Error> {
        self.write(LcdRegisterSelect::Memory, data, delay)
    }
}

/// Reading the controller's status byte; only transports with input
/// capability offer it.
pub trait LcdRead<Delay: LcdDelay>: LcdWrite<Delay> {
    /// Reads the status byte: busy flag in bit 7, current address in bits
    /// 0 to 6. Leaves the bus in write direction.
    fn read_status(&mut self, delay: &mut Delay) -> Result<LcdStatus, Self::Error>;
}

/// The controller's documented power-on bring-up.
pub trait LcdInit<Delay: LcdDelay>: LcdWrite<Delay> {
    /// Runs the multi-pulse reset handshake, then configures function,
    /// display and entry modes and clears the display.
    fn init(
        &mut self,
        function: LcdFunctionMode,
        display: LcdDisplayMode,
        entry: LcdEntryMode,
        delay: &mut Delay,
    ) -> Result<(), Self::Error>;
}

} // verus!
