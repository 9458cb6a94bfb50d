//! The character-display driver around a bus engine: it owns the engine, a
//! memory map that turns (x, y) coordinates into DDRAM addresses, and a
//! charset that turns characters into controller character codes. Both
//! collaborators are external to the protocol core; the driver consumes
//! them through capability traits and composes the exactly specified
//! command bytes around the engine's uniform write contract.

use vstd::prelude::*;
use vstd::string::StrSliceExecFns;
use crate::bus::LcdInit;
use crate::bus::LcdRead;
use crate::bus::LcdWrite;
use crate::commands::CLEAR_DISPLAY;
use crate::commands::RETURN_HOME;
use crate::commands::SET_DDRAM_ADDRESS;
use crate::commands::display_control_byte;
use crate::modes::LcdDisplayMode;
use crate::modes::LcdEntryMode;
use crate::modes::LcdFontMode;
use crate::modes::LcdFunctionMode;
use crate::modes::LcdRegisterSelect;
use crate::modes::LcdStatus;
use crate::transport::LcdDelay;

verus! {

/// A display memory map: which DDRAM address a character coordinate lives
/// at, and whether the display uses the controller's second memory line.
/// Maps are supplied by the display description, outside this crate.
pub trait DisplayMemoryMap: Sized {
    /// The DDRAM address of the coordinate `(x, y)`, or `None` when it is
    /// off the display.
    fn address_for_xy(&self, x: u8, y: u8) -> Option<u8>;

    /// Whether the display uses two controller memory lines.
    fn has_two_memory_lines(&self) -> bool;
}

/// A character set with a fallback: every character maps to some
/// controller character code. Charsets are supplied outside this crate.
pub trait CharsetWithFallback: Sized {
    /// The controller character code for `ch`, falling back to the
    /// charset's substitute for unmapped characters.
    fn code_from_utf8_with_fallback(&self, ch: char) -> u8;
}

/// What a driver is built from: the bus engine, the memory map, the
/// charset, and the font choice for the function-set command.
pub struct LcdDriverOptions<B, M: DisplayMemoryMap, C> {
    pub bus: B,
    pub memory_map: M,
    pub charset: C,
    pub font: LcdFontMode,
}

impl<B, M: DisplayMemoryMap> LcdDriverOptions<B, M, ()> {
    /// Options over `bus` and `memory_map` with no charset chosen yet and
    /// the 5x8 font. A charset is attached with `with_charset`.
    pub fn new(bus: B, memory_map: M) -> (r: Self)
        ensures
            r.bus == bus,
            r.memory_map == memory_map,
            r.font == LcdFontMode::Font5x8,
    {
        LcdDriverOptions { bus, memory_map, charset: (), font: LcdFontMode::Font5x8 }
    }
}

impl<B, M: DisplayMemoryMap, C> LcdDriverOptions<B, M, C> {
    /// The same options with `charset` attached.
    pub fn with_charset<C2>(self, charset: C2) -> (r: LcdDriverOptions<B, M, C2>)
        ensures
            r.bus == self.bus,
            r.memory_map == self.memory_map,
            r.charset == charset,
            r.font == self.font,
    {
        LcdDriverOptions { bus: self.bus, memory_map: self.memory_map, charset, font: self.font }
    }
}

/// A failed driver initialization: the options are handed back together
/// with the engine's error, so the caller can retry.
pub struct LcdInitError<O, E> {
    pub options: O,
    pub source: E,
}

/// The character-display driver: the bus engine, its collaborators, and
/// the display mode chosen at initialization.
pub struct LcdDriver<B, M, C> {
    bus: B,
    memory_map: M,
    charset: C,
    display_mode: LcdDisplayMode,
}

impl<B, M, C> LcdDriver<B, M, C> {
    /// The memory map the driver was built with.
    pub closed spec fn spec_memory_map(&self) -> M {
        self.memory_map
    }

    /// The charset the driver was built with.
    pub closed spec fn spec_charset(&self) -> C {
        self.charset
    }

    /// The display mode the driver configured at initialization.
    pub closed spec fn spec_display_mode(&self) -> LcdDisplayMode {
        self.display_mode
    }

    /// The bus engine the driver owns.
    pub closed spec fn spec_bus(&self) -> B {
        self.bus
    }

    /// The driver's memory map.
    pub fn memory_map(&self) -> (r: &M)
        ensures
            r == self.spec_memory_map(),
    {
        &self.memory_map
    }

    /// The driver's charset.
    pub fn charset(&self) -> (r: &C)
        ensures
            r == self.spec_charset(),
    {
        &self.charset
    }
}

/// Initializing a driver: runs the engine's bring-up with flags derived
/// from the memory map and the font choice.
pub trait BlockingLcdDriverInit<Delay: LcdDelay>: Sized {
    /// The memory-map collaborator.
    type MemoryMap: DisplayMemoryMap;

    /// The charset collaborator.
    type Charset;

    /// The bus engine driven.
    type Bus: LcdInit<Delay>;

    /// Builds the driver and runs the controller's bring-up. On an engine
    /// error the options are handed back unchanged with the error.
    fn init(
        options: LcdDriverOptions<Self::Bus, Self::MemoryMap, Self::Charset>,
        delay: &mut Delay,
    ) -> Result<
        Self,
        LcdInitError<
            LcdDriverOptions<Self::Bus, Self::MemoryMap, Self::Charset>,
            <Self::Bus as LcdWrite<Delay>>::Error,
        >,
    >;
}

/// Tearing a driver down to its bus engine.
pub trait BlockingLcdDriverDestroy {
    /// The bus engine handed back.
    type Bus;

    /// Hands the bus engine back to the caller.
    fn destroy(self) -> Self::Bus;
}

/// Writing characters and strings through the driver.
pub trait BlockingLcdWrite<Delay: LcdDelay> {
    /// The engine's error type, propagated unchanged.
    type Error;

    /// Writes one character's code to the memory register.
    fn write_char(&mut self, ch: char, delay: &mut Delay) -> Result<(), Self::Error>;

    /// Writes every character of `s` in order; the first engine error
    /// aborts the rest.
    fn write_str(&mut self, s: &str, delay: &mut Delay) -> Result<(), Self::Error> {
        let n = s.unicode_len();
        for i in 0..n
            invariant
                n == s@.len(),
        {
            let ch = s.get_char(i);
            self.write_char(ch, delay)?;
        }
        Ok(())
    }
}

/// Reading the controller status through the driver.
pub trait BlockingLcdRead<Delay: LcdDelay> {
    /// The engine's error type, propagated unchanged.
    type Error;

    /// Reads the controller's status byte.
    fn status(&mut self, delay: &mut Delay) -> Result<LcdStatus, Self::Error>;
}

/// The cursor- and display-control operations of the driver.
pub trait BlockingLcdDriver<Delay: LcdDelay> {
    /// The engine's error type, propagated unchanged.
    type Error;

    /// Clears the display.
    fn clear(&mut self, delay: &mut Delay) -> Result<(), Self::Error>;

    /// Returns the cursor to the home position.
    fn return_home(&mut self, delay: &mut Delay) -> Result<(), Self::Error>;

    /// Reconfigures the display-control flags.
    fn set_display_mode(&mut self, display_mode: LcdDisplayMode, delay: &mut Delay) -> Result<
        (),
        Self::Error,
    >;

    /// Moves the cursor to the coordinate `(x, y)`; a coordinate off the
    /// display is ignored.
    fn set_xy(&mut self, x: u8, y: u8, delay: &mut Delay) -> Result<(), Self::Error>;

    /// Moves the cursor to the DDRAM address `address`.
    fn set_address(&mut self, address: u8, delay: &mut Delay) -> Result<(), Self::Error>;
}

impl<B, M, C, Delay> BlockingLcdDriverInit<Delay> for LcdDriver<B, M, C> where
    B: LcdInit<Delay>,
    M: DisplayMemoryMap,
    Delay: LcdDelay,
 {
    type MemoryMap = M;

    type Charset = C;

    type Bus = B;

    fn init(
        mut options: LcdDriverOptions<B, M, C>,
        delay: &mut Delay,
    ) -> (r: Result<Self, LcdInitError<LcdDriverOptions<B, M, C>, <B as LcdWrite<Delay>>::Error>>)
        ensures
            r is Ok ==> r->Ok_0.spec_memory_map() == options.memory_map
                && r->Ok_0.spec_charset() == options.charset && r->Ok_0.spec_display_mode()@ == 6,
            r is Err ==> r->Err_0.options.memory_map == options.memory_map
                && r->Err_0.options.charset == options.charset && r->Err_0.options.font
                == options.font,
    {
        let two_lines = options.memory_map.has_two_memory_lines();
        let font_5x10 = options.font == LcdFontMode::Font5x10;
        let function = LcdFunctionMode::new(two_lines, font_5x10, false);
        let display_mode = LcdDisplayMode::new(true, true, false);
        proof {
            assert(4u8 | 2u8 | 0u8 == 6) by (bit_vector);
        }
        let entry = LcdEntryMode::new(true, false);
        match options.bus.init(function, display_mode, entry, delay) {
            Ok(()) => Ok(
                LcdDriver {
                    bus: options.bus,
                    memory_map: options.memory_map,
                    charset: options.charset,
                    display_mode,
                },
            ),
            Err(source) => Err(LcdInitError { options, source }),
        }
    }
}

impl<B, M, C> BlockingLcdDriverDestroy for LcdDriver<B, M, C> {
    type Bus = B;

    fn destroy(self) -> Self::Bus {
        self.bus
    }
}

impl<B, M, C, Delay> BlockingLcdDriver<Delay> for LcdDriver<B, M, C> where
    B: LcdWrite<Delay>,
    M: DisplayMemoryMap,
    Delay: LcdDelay,
 {
    type Error = B::Error;

    fn clear(&mut self, delay: &mut Delay) -> (r: Result<(), Self::Error>)
        ensures
            final(self).spec_memory_map() == old(self).spec_memory_map(),
            final(self).spec_charset() == old(self).spec_charset(),
            final(self).spec_display_mode() == old(self).spec_display_mode(),
    {
        self.bus.write(LcdRegisterSelect::Control, CLEAR_DISPLAY, delay)
    }

    fn return_home(&mut self, delay: &mut Delay) -> (r: Result<(), Self::Error>)
        ensures
            final(self).spec_memory_map() == old(self).spec_memory_map(),
            final(self).spec_charset() == old(self).spec_charset(),
            final(self).spec_display_mode() == old(self).spec_display_mode(),
    {
        self.bus.write(LcdRegisterSelect::Control, RETURN_HOME, delay)
    }

    fn set_display_mode(&mut self, display_mode: LcdDisplayMode, delay: &mut Delay) -> (r: Result<
        (),
        Self::Error,
    >)
        ensures
            final(self).spec_memory_map() == old(self).spec_memory_map(),
            final(self).spec_charset() == old(self).spec_charset(),
            final(self).spec_display_mode() == old(self).spec_display_mode(),
    {
        self.bus.write(LcdRegisterSelect::Control, display_control_byte(display_mode), delay)
    }

    fn set_xy(&mut self, x: u8, y: u8, delay: &mut Delay) -> (r: Result<(), Self::Error>)
        ensures
            final(self).spec_memory_map() == old(self).spec_memory_map(),
            final(self).spec_charset() == old(self).spec_charset(),
            final(self).spec_display_mode() == old(self).spec_display_mode(),
    {
        let address = self.memory_map.address_for_xy(x, y);
        match address {
            Some(address) => self.set_address(address, delay),
            None => Ok(()),
        }
    }

    fn set_address(&mut self, address: u8, delay: &mut Delay) -> (r: Result<(), Self::Error>)
        ensures
            final(self).spec_memory_map() == old(self).spec_memory_map(),
            final(self).spec_charset() == old(self).spec_charset(),
            final(self).spec_display_mode() == old(self).spec_display_mode(),
    {
        self.bus.write(LcdRegisterSelect::Control, SET_DDRAM_ADDRESS | address, delay)
    }
}

impl<B, M, C, Delay> BlockingLcdWrite<Delay> for LcdDriver<B, M, C> where
    B: LcdWrite<Delay>,
    M: DisplayMemoryMap,
    C: CharsetWithFallback,
    Delay: LcdDelay,
 {
    type Error = B::Error;

    fn write_char(&mut self, ch: char, delay: &mut Delay) -> (r: Result<(), Self::Error>)
        ensures
            final(self).spec_memory_map() == old(self).spec_memory_map(),
            final(self).spec_charset() == old(self).spec_charset(),
            final(self).spec_display_mode() == old(self).spec_display_mode(),
    {
        let code = self.charset.code_from_utf8_with_fallback(ch);
        self.bus.write(LcdRegisterSelect::Memory, code, delay)
    }
}

impl<B, M, C, Delay> BlockingLcdRead<Delay> for LcdDriver<B, M, C> where
    B: LcdRead<Delay>,
    M: DisplayMemoryMap,
    C: CharsetWithFallback,
    Delay: LcdDelay,
 {
    type Error = B::Error;

    fn status(&mut self, delay: &mut Delay) -> (r: Result<LcdStatus, Self::Error>)
        ensures
            final(self).spec_memory_map() == old(self).spec_memory_map(),
            final(self).spec_charset() == old(self).spec_charset(),
            final(self).spec_display_mode() == old(self).spec_display_mode(),
    {
        self.bus.read_status(delay)
    }
}

} // verus!
