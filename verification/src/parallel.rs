//! The parallel bus engine, in its 8-bit and 4-bit width variants.
//!
//! The engine owns a set of lines and a timing policy. Every operation
//! first builds its plan — whose contract pins the electrical sequence down
//! bit for bit — and then replays it over the lines. The status byte of a
//! read is assembled from the sampled levels by an exactly specified
//! function.

use vstd::prelude::*;
use crate::bus::LcdInit;
use crate::bus::LcdRead;
use crate::bus::LcdWrite;
use crate::modes::LcdDisplayMode;
use crate::modes::LcdEntryMode;
use crate::modes::LcdFunctionMode;
use crate::modes::LcdRegisterSelect;
use crate::modes::LcdStatus;
use crate::parallel_ops::LcdBusOp;
use crate::parallel_ops::LcdLine;
use crate::parallel_ops::LcdProbeOp;
use crate::parallel_ops::parallel_init4_plan;
use crate::parallel_ops::parallel_init8_plan;
use crate::parallel_ops::parallel_read4_plan;
use crate::parallel_ops::parallel_read8_plan;
use crate::parallel_ops::parallel_write4_plan;
use crate::parallel_ops::parallel_write8_plan;
use crate::parallel_ops::sp_samples_from;
use crate::parallel_ops::sp_status_read4_plan;
use crate::parallel_ops::sp_status_read8_plan;
use crate::timings::DefaultTimingsParallel4;
use crate::timings::DefaultTimingsParallel8;
use crate::timings::LcdTimingValues;
use crate::timings::LcdTimingsParallel;
use crate::transport::DigitalLine;
use crate::transport::LcdDelay;

verus! {

/// A set of parallel-bus lines the engine can drive: the individual lines
/// by name, and the read/write direction of the whole bus.
pub trait LcdParallelPins: Sized {
    /// The line transport's error type, propagated unchanged.
    type Fault;

    /// Drives one line to a level. A set without that physical line
    /// accepts the call and does nothing.
    fn set_line(&mut self, line: LcdLine, high: bool) -> Result<(), Self::Fault>;

    /// Switches the bus into write direction. A set wired without a
    /// direction line accepts the call and does nothing.
    fn set_write_mode(&mut self) -> Result<(), Self::Fault>;
}

/// A set of parallel-bus lines that can also be sampled, for status reads.
pub trait LcdParallelPinsRead: LcdParallelPins {
    /// Switches the bus into read direction.
    fn set_read_mode(&mut self) -> Result<(), Self::Fault>;

    /// Samples one line's level. A set without that physical line reports
    /// low.
    fn read_line(&mut self, line: LcdLine) -> Result<bool, Self::Fault>;
}

/// The full 8-bit wiring with a read/write direction line.
pub struct LcdParallelPinsRW8<L> {
    pub rs: L,
    pub rw: L,
    pub en: L,
    pub d0: L,
    pub d1: L,
    pub d2: L,
    pub d3: L,
    pub d4: L,
    pub d5: L,
    pub d6: L,
    pub d7: L,
}

impl<L: DigitalLine> LcdParallelPins for LcdParallelPinsRW8<L> {
    type Fault = L::Fault;

    fn set_line(&mut self, line: LcdLine, high: bool) -> Result<(), Self::Fault> {
        match line {
            LcdLine::Rs => self.rs.set(high),
            LcdLine::En => self.en.set(high),
            LcdLine::D0 => self.d0.set(high),
            LcdLine::D1 => self.d1.set(high),
            LcdLine::D2 => self.d2.set(high),
            LcdLine::D3 => self.d3.set(high),
            LcdLine::D4 => self.d4.set(high),
            LcdLine::D5 => self.d5.set(high),
            LcdLine::D6 => self.d6.set(high),
            LcdLine::D7 => self.d7.set(high),
        }
    }

    fn set_write_mode(&mut self) -> Result<(), Self::Fault> {
        self.rw.set(false)
    }
}

impl<L: DigitalLine> LcdParallelPinsRead for LcdParallelPinsRW8<L> {
    fn set_read_mode(&mut self) -> Result<(), Self::Fault> {
        self.rw.set(true)
    }

    fn read_line(&mut self, line: LcdLine) -> Result<bool, Self::Fault> {
        match line {
            LcdLine::Rs => self.rs.get(),
            LcdLine::En => self.en.get(),
            LcdLine::D0 => self.d0.get(),
            LcdLine::D1 => self.d1.get(),
            LcdLine::D2 => self.d2.get(),
            LcdLine::D3 => self.d3.get(),
            LcdLine::D4 => self.d4.get(),
            LcdLine::D5 => self.d5.get(),
            LcdLine::D6 => self.d6.get(),
            LcdLine::D7 => self.d7.get(),
        }
    }
}

/// The 8-bit wiring without a direction line: the bus is permanently in
/// write direction, so status reads are not offered.
pub struct LcdParallelPinsW8<L> {
    pub rs: L,
    pub en: L,
    pub d0: L,
    pub d1: L,
    pub d2: L,
    pub d3: L,
    pub d4: L,
    pub d5: L,
    pub d6: L,
    pub d7: L,
}

impl<L: DigitalLine> LcdParallelPins for LcdParallelPinsW8<L> {
    type Fault = L::Fault;

    fn set_line(&mut self, line: LcdLine, high: bool) -> Result<(), Self::Fault> {
        match line {
            LcdLine::Rs => self.rs.set(high),
            LcdLine::En => self.en.set(high),
            LcdLine::D0 => self.d0.set(high),
            LcdLine::D1 => self.d1.set(high),
            LcdLine::D2 => self.d2.set(high),
            LcdLine::D3 => self.d3.set(high),
            LcdLine::D4 => self.d4.set(high),
            LcdLine::D5 => self.d5.set(high),
            LcdLine::D6 => self.d6.set(high),
            LcdLine::D7 => self.d7.set(high),
        }
    }

    fn set_write_mode(&mut self) -> (r: Result<(), Self::Fault>)
        ensures
            r is Ok,
    {
        Ok(())
    }
}

/// The 4-bit wiring with a direction line: only the four upper data lines
/// exist; the lower four accept sets and report low.
pub struct LcdParallelPinsRW4<L> {
    pub rs: L,
    pub rw: L,
    pub en: L,
    pub d4: L,
    pub d5: L,
    pub d6: L,
    pub d7: L,
}

impl<L: DigitalLine> LcdParallelPins for LcdParallelPinsRW4<L> {
    type Fault = L::Fault;

    fn set_line(&mut self, line: LcdLine, high: bool) -> Result<(), Self::Fault> {
        match line {
            LcdLine::Rs => self.rs.set(high),
            LcdLine::En => self.en.set(high),
            LcdLine::D4 => self.d4.set(high),
            LcdLine::D5 => self.d5.set(high),
            LcdLine::D6 => self.d6.set(high),
            LcdLine::D7 => self.d7.set(high),
            _ => Ok(()),
        }
    }

    fn set_write_mode(&mut self) -> Result<(), Self::Fault> {
        self.rw.set(false)
    }
}

impl<L: DigitalLine> LcdParallelPinsRead for LcdParallelPinsRW4<L> {
    fn set_read_mode(&mut self) -> Result<(), Self::Fault> {
        self.rw.set(true)
    }

    fn read_line(&mut self, line: LcdLine) -> Result<bool, Self::Fault> {
        match line {
            LcdLine::Rs => self.rs.get(),
            LcdLine::En => self.en.get(),
            LcdLine::D4 => self.d4.get(),
            LcdLine::D5 => self.d5.get(),
            LcdLine::D6 => self.d6.get(),
            LcdLine::D7 => self.d7.get(),
            _ => Ok(false),
        }
    }
}

/// The 4-bit wiring without a direction line.
pub struct LcdParallelPinsW4<L> {
    pub rs: L,
    pub en: L,
    pub d4: L,
    pub d5: L,
    pub d6: L,
    pub d7: L,
}

impl<L: DigitalLine> LcdParallelPins for LcdParallelPinsW4<L> {
    type Fault = L::Fault;

    fn set_line(&mut self, line: LcdLine, high: bool) -> Result<(), Self::Fault> {
        match line {
            LcdLine::Rs => self.rs.set(high),
            LcdLine::En => self.en.set(high),
            LcdLine::D4 => self.d4.set(high),
            LcdLine::D5 => self.d5.set(high),
            LcdLine::D6 => self.d6.set(high),
            LcdLine::D7 => self.d7.set(high),
            _ => Ok(()),
        }
    }

    fn set_write_mode(&mut self) -> (r: Result<(), Self::Fault>)
        ensures
            r is Ok,
    {
        Ok(())
    }
}

/// Replays a write plan over the lines: every step is performed in plan
/// order, and the first line fault aborts the replay and is returned
/// unchanged.
fn run_write_ops<P: LcdParallelPins, D: LcdDelay>(
    pins: &mut P,
    plan: &Vec<LcdBusOp>,
    delay: &mut D,
) -> Result<(), P::Fault> {
    let n = plan.len();
    for i in 0..n
        invariant
            n == plan@.len(),
    {
        let op = plan[i];
        match op {
            LcdBusOp::SetLine(line, high) => {
                pins.set_line(line, high)?;
            },
            LcdBusOp::SetWriteMode => {
                pins.set_write_mode()?;
            },
            LcdBusOp::Wait(ns) => {
                delay.delay_ns(ns);
            },
        }
    }
    Ok(())
}

/// Replays a read plan over the lines and collects the sampled levels in
/// plan order. On success the result holds exactly one level per sample
/// step of the plan; the first line fault aborts the replay.
fn run_read_ops<P: LcdParallelPinsRead, D: LcdDelay>(
    pins: &mut P,
    plan: &Vec<LcdProbeOp>,
    delay: &mut D,
) -> (r: Result<Vec<bool>, P::Fault>)
    ensures
        r is Ok ==> r->Ok_0@.len() == sp_samples_from(plan@, 0),
{
    let mut levels: Vec<bool> = Vec::new();
    let n = plan.len();
    for i in 0..n
        invariant
            n == plan@.len(),
            levels@.len() + sp_samples_from(plan@, i as int) == sp_samples_from(plan@, 0),
    {
        let op = plan[i];
        match op {
            LcdProbeOp::Drive(line, high) => {
                pins.set_line(line, high)?;
            },
            LcdProbeOp::SetReadMode => {
                pins.set_read_mode()?;
            },
            LcdProbeOp::SetWriteMode => {
                pins.set_write_mode()?;
            },
            LcdProbeOp::Sample(line) => {
                let level = pins.read_line(line)?;
                levels.push(level);
            },
            LcdProbeOp::Wait(ns) => {
                delay.delay_ns(ns);
            },
        }
    }
    Ok(levels)
}

/// The status byte assembled from eight levels sampled in one 8-bit read
/// cycle: the level of line `Dk` becomes bit `k`.
pub open spec fn sp_status8_of_levels(levels: Seq<bool>) -> u8
    recommends
        levels.len() == 8,
{
    (if levels[0] { 0x01u8 } else { 0u8 }) | (if levels[1] { 0x02u8 } else { 0u8 }) | (if levels[2] {
        0x04u8
    } else {
        0u8
    }) | (if levels[3] { 0x08u8 } else { 0u8 }) | (if levels[4] { 0x10u8 } else { 0u8 }) | (
    if levels[5] {
        0x20u8
    } else {
        0u8
    }) | (if levels[6] { 0x40u8 } else { 0u8 }) | (if levels[7] { 0x80u8 } else { 0u8 })
}

/// The status byte assembled from two nibble-read cycles of the 4-bit
/// engine: the first four levels (upper nibble, sampled first) become bits
/// 4 to 7, the last four become bits 0 to 3.
pub open spec fn sp_status4_of_levels(levels: Seq<bool>) -> u8
    recommends
        levels.len() == 8,
{
    (if levels[0] { 0x10u8 } else { 0u8 }) | (if levels[1] { 0x20u8 } else { 0u8 }) | (if levels[2] {
        0x40u8
    } else {
        0u8
    }) | (if levels[3] { 0x80u8 } else { 0u8 }) | (if levels[4] { 0x01u8 } else { 0u8 }) | (
    if levels[5] {
        0x02u8
    } else {
        0u8
    }) | (if levels[6] { 0x04u8 } else { 0u8 }) | (if levels[7] { 0x08u8 } else { 0u8 })
}

/// Assembles the status byte of an 8-bit read from the eight sampled
/// levels, in sampling order `D0` to `D7`.
pub fn assemble_status_8bit(levels: &Vec<bool>) -> (s: LcdStatus)
    requires
        levels@.len() == 8,
    ensures
        s@ == sp_status8_of_levels(levels@),
{
    let bits = (if levels[0] { 0x01u8 } else { 0u8 }) | (if levels[1] { 0x02u8 } else { 0u8 }) | (
    if levels[2] {
        0x04u8
    } else {
        0u8
    }) | (if levels[3] { 0x08u8 } else { 0u8 }) | (if levels[4] { 0x10u8 } else { 0u8 }) | (
    if levels[5] {
        0x20u8
    } else {
        0u8
    }) | (if levels[6] { 0x40u8 } else { 0u8 }) | (if levels[7] { 0x80u8 } else { 0u8 });
    LcdStatus::from_bits_retain(bits)
}

/// Assembles the status byte of a 4-bit read from the eight sampled
/// levels: upper nibble sampled first, then lower nibble.
pub fn assemble_status_4bit(levels: &Vec<bool>) -> (s: LcdStatus)
    requires
        levels@.len() == 8,
    ensures
        s@ == sp_status4_of_levels(levels@),
{
    let bits = (if levels[0] { 0x10u8 } else { 0u8 }) | (if levels[1] { 0x20u8 } else { 0u8 }) | (
    if levels[2] {
        0x40u8
    } else {
        0u8
    }) | (if levels[3] { 0x80u8 } else { 0u8 }) | (if levels[4] { 0x01u8 } else { 0u8 }) | (
    if levels[5] {
        0x02u8
    } else {
        0u8
    }) | (if levels[6] { 0x04u8 } else { 0u8 }) | (if levels[7] { 0x08u8 } else { 0u8 });
    LcdStatus::from_bits_retain(bits)
}

/// A parallel bus engine: a set of lines and a timing policy, at a bus
/// width fixed for the engine's lifetime by its type.
pub struct LcdParallelBus<P, T, const WIDTH: u8> {
    pins: P,
    timings: T,
}

impl<P, T, const WIDTH: u8> LcdParallelBus<P, T, WIDTH> {
    /// The lines the engine owns.
    pub closed spec fn spec_pins(&self) -> P {
        self.pins
    }

    /// Hands the lines back to the caller. The controller needs no
    /// protocol-level teardown.
    pub fn destroy(self) -> (r: P)
        ensures
            r == self.spec_pins(),
    {
        self.pins
    }
}

impl<P, T: LcdTimingsParallel, const WIDTH: u8> LcdParallelBus<P, T, WIDTH> {
    /// The value table of the engine's timing policy.
    pub closed spec fn timing_values(&self) -> LcdTimingValues {
        self.timings.spec_values()
    }
}

impl<P> LcdParallelBus<P, DefaultTimingsParallel8, 8> {
    /// An 8-bit engine over `pins` with the built-in 8-bit timing policy.
    pub fn new_8bit(pins: P) -> (r: Self)
        ensures
            r.spec_pins() == pins,
            r.timing_values() == crate::timings::spec_parallel8_values(),
    {
        LcdParallelBus { pins, timings: DefaultTimingsParallel8 }
    }
}

impl<P, T: LcdTimingsParallel> LcdParallelBus<P, T, 8> {
    /// An 8-bit engine over `pins` with a caller-supplied timing policy.
    pub fn new_8bit_with_timings(pins: P, timings: T) -> (r: Self)
        ensures
            r.spec_pins() == pins,
            r.timing_values() == timings.spec_values(),
    {
        LcdParallelBus { pins, timings }
    }
}

impl<P> LcdParallelBus<P, DefaultTimingsParallel4, 4> {
    /// A 4-bit engine over `pins` with the built-in 4-bit timing policy.
    pub fn new_4bit(pins: P) -> (r: Self)
        ensures
            r.spec_pins() == pins,
            r.timing_values() == crate::timings::spec_nibble_values(),
    {
        LcdParallelBus { pins, timings: DefaultTimingsParallel4 }
    }
}

impl<P, T: LcdTimingsParallel> LcdParallelBus<P, T, 4> {
    /// A 4-bit engine over `pins` with a caller-supplied timing policy.
    pub fn new_4bit_with_timings(pins: P, timings: T) -> (r: Self)
        ensures
            r.spec_pins() == pins,
            r.timing_values() == timings.spec_values(),
    {
        LcdParallelBus { pins, timings }
    }
}

impl<P: LcdParallelPins, T: LcdTimingsParallel, Delay: LcdDelay> LcdWrite<Delay> for LcdParallelBus<
    P,
    T,
    8,
> {
    type Error = P::Fault;

    fn write(&mut self, rs: LcdRegisterSelect, data: u8, delay: &mut Delay) -> (r: Result<
        (),
        Self::Error,
    >)
        ensures
            final(self).timing_values() == old(self).timing_values(),
    {
        let plan = parallel_write8_plan(&self.timings, rs, data);
        run_write_ops(&mut self.pins, &plan, delay)
    }
}

impl<
    P: LcdParallelPinsRead,
    T: LcdTimingsParallel,
    Delay: LcdDelay,
> LcdRead<Delay> for LcdParallelBus<P, T, 8> {
    fn read_status(&mut self, delay: &mut Delay) -> (r: Result<LcdStatus, Self::Error>)
        ensures
            final(self).timing_values() == old(self).timing_values(),
    {
        let plan = parallel_read8_plan(&self.timings);
        let levels = run_read_ops(&mut self.pins, &plan, delay)?;
        proof {
            reveal_with_fuel(sp_samples_from, 26);
            assert(sp_samples_from(sp_status_read8_plan(self.timings.spec_values()), 0) == 8);
        }
        Ok(assemble_status_8bit(&levels))
    }
}

impl<
    P: LcdParallelPins,
    T: LcdTimingsParallel,
    Delay: LcdDelay,
> LcdInit<Delay> for LcdParallelBus<P, T, 8> {
    fn init(
        &mut self,
        function: LcdFunctionMode,
        display: LcdDisplayMode,
        entry: LcdEntryMode,
        delay: &mut Delay,
    ) -> (r: Result<(), Self::Error>)
        ensures
            final(self).timing_values() == old(self).timing_values(),
    {
        let plan = parallel_init8_plan(&self.timings, function, display, entry);
        run_write_ops(&mut self.pins, &plan, delay)
    }
}

impl<P: LcdParallelPins, T: LcdTimingsParallel, Delay: LcdDelay> LcdWrite<Delay> for LcdParallelBus<
    P,
    T,
    4,
> {
    type Error = P::Fault;

    fn write(&mut self, rs: LcdRegisterSelect, data: u8, delay: &mut Delay) -> (r: Result<
        (),
        Self::Error,
    >)
        ensures
            final(self).timing_values() == old(self).timing_values(),
    {
        let plan = parallel_write4_plan(&self.timings, rs, data);
        run_write_ops(&mut self.pins, &plan, delay)
    }
}

impl<
    P: LcdParallelPinsRead,
    T: LcdTimingsParallel,
    Delay: LcdDelay,
> LcdRead<Delay> for LcdParallelBus<P, T, 4> {
    fn read_status(&mut self, delay: &mut Delay) -> (r: Result<LcdStatus, Self::Error>)
        ensures
            final(self).timing_values() == old(self).timing_values(),
    {
        let plan = parallel_read4_plan(&self.timings);
        let levels = run_read_ops(&mut self.pins, &plan, delay)?;
        proof {
            reveal_with_fuel(sp_samples_from, 26);
            assert(sp_samples_from(sp_status_read4_plan(self.timings.spec_values()), 0) == 8);
        }
        Ok(assemble_status_4bit(&levels))
    }
}

impl<
    P: LcdParallelPins,
    T: LcdTimingsParallel,
    Delay: LcdDelay,
> LcdInit<Delay> for LcdParallelBus<P, T, 4> {
    fn init(
        &mut self,
        function: LcdFunctionMode,
        display: LcdDisplayMode,
        entry: LcdEntryMode,
        delay: &mut Delay,
    ) -> (r: Result<(), Self::Error>)
        ensures
            final(self).timing_values() == old(self).timing_values(),
    {
        let plan = parallel_init4_plan(&self.timings, function, display, entry);
        run_write_ops(&mut self.pins, &plan, delay)
    }
}

} // verus!
