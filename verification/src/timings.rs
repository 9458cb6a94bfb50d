//! Timing policies: the six delay and pulse durations the protocol needs,
//! in nanoseconds, selected where relevant by the targeted register.
//!
//! A policy is a pure function table. Its contract is its value table
//! (`spec_values`), so a plan built from a policy carries the exact
//! durations that the policy promises.

use vstd::prelude::*;
use crate::modes::LcdRegisterSelect;

verus! {

/// The six durations of a timing policy, in nanoseconds. Enable-pulse hold
/// times differ between the control and the memory register because
/// control-register commands take far longer to execute.
#[derive(Clone, Copy, Debug, PartialEq, Eq, Structural)]
pub struct LcdTimingValues {
    /// Minimum hold time of the Enable line after it rises, for a transfer
    /// to the control register.
    pub enable_on_control: u32,
    /// Minimum hold time of the Enable line after it rises, for a transfer
    /// to the memory register.
    pub enable_on_memory: u32,
    /// Minimum hold time of the Enable line after it falls, for a transfer
    /// to the control register.
    pub enable_off_control: u32,
    /// Minimum hold time of the Enable line after it falls, for a transfer
    /// to the memory register.
    pub enable_off_memory: u32,
    /// Settle time between driving the bus into read mode and sampling.
    pub read_delay: u32,
    /// Mandatory wait after power-up before the first bus transaction.
    pub power_on_delay: u32,
    /// Inter-pulse wait after the first reset pulse.
    pub first_init_delay: u32,
    /// Inter-pulse wait after the second reset pulse.
    pub second_init_delay: u32,
}

/// The enable-pulse hold time after a rising edge, selected by register.
pub open spec fn spec_enable_on(v: LcdTimingValues, rs: LcdRegisterSelect) -> u32 {
    if rs is Control {
        v.enable_on_control
    } else {
        v.enable_on_memory
    }
}

/// The enable-pulse hold time after a falling edge, selected by register.
pub open spec fn spec_enable_off(v: LcdTimingValues, rs: LcdRegisterSelect) -> u32 {
    if rs is Control {
        v.enable_off_control
    } else {
        v.enable_off_memory
    }
}

/// A timing policy for the parallel bus engines. Each executable method
/// returns exactly the duration that the policy's value table holds.
pub trait LcdTimingsParallel: Sized {
    /// The policy's value table.
    spec fn spec_values(&self) -> LcdTimingValues;

    /// Hold time of the Enable line after it rises.
    fn enable_pulse_on(&self, rs: LcdRegisterSelect) -> (r: u32)
        ensures
            r == spec_enable_on(self.spec_values(), rs),
    ;

    /// Hold time of the Enable line after it falls.
    fn enable_pulse_off(&self, rs: LcdRegisterSelect) -> (r: u32)
        ensures
            r == spec_enable_off(self.spec_values(), rs),
    ;

    /// Settle time before sampling in read mode.
    fn read_delay(&self) -> (r: u32)
        ensures
            r == self.spec_values().read_delay,
    ;

    /// Wait after power-up before the first transaction.
    fn power_on_delay(&self) -> (r: u32)
        ensures
            r == self.spec_values().power_on_delay,
    ;

    /// Wait after the first reset pulse.
    fn first_init_delay(&self) -> (r: u32)
        ensures
            r == self.spec_values().first_init_delay,
    ;

    /// Wait after the second reset pulse.
    fn second_init_delay(&self) -> (r: u32)
        ensures
            r == self.spec_values().second_init_delay,
    ;
}

/// A timing policy for the I2C expander bus engine.
pub trait LcdTimingsI2c: Sized {
    /// The policy's value table.
    spec fn spec_values(&self) -> LcdTimingValues;

    /// Hold time of the Enable bit after it rises.
    fn enable_pulse_on(&self, rs: LcdRegisterSelect) -> (r: u32)
        ensures
            r == spec_enable_on(self.spec_values(), rs),
    ;

    /// Hold time of the Enable bit after it falls.
    fn enable_pulse_off(&self, rs: LcdRegisterSelect) -> (r: u32)
        ensures
            r == spec_enable_off(self.spec_values(), rs),
    ;

    /// Settle time before the combined read transaction samples the bus.
    fn read_delay(&self) -> (r: u32)
        ensures
            r == self.spec_values().read_delay,
    ;

    /// Wait after power-up before the first transaction.
    fn power_on_delay(&self) -> (r: u32)
        ensures
            r == self.spec_values().power_on_delay,
    ;

    /// Wait after the first reset pulse.
    fn first_init_delay(&self) -> (r: u32)
        ensures
            r == self.spec_values().first_init_delay,
    ;

    /// Wait after the second reset pulse.
    fn second_init_delay(&self) -> (r: u32)
        ensures
            r == self.spec_values().second_init_delay,
    ;
}

/// The built-in value table of the 8-bit parallel policy.
pub open spec fn spec_parallel8_values() -> LcdTimingValues {
    LcdTimingValues {
        enable_on_control: 1_500_000,
        enable_on_memory: 500,
        enable_off_control: 1_000_000,
        enable_off_memory: 50_000,
        read_delay: 1_000_000,
        power_on_delay: 50_000_000,
        first_init_delay: 4_500_000,
        second_init_delay: 100_000,
    }
}

/// The built-in value table of the 4-bit parallel and I2C policies.
pub open spec fn spec_nibble_values() -> LcdTimingValues {
    LcdTimingValues {
        enable_on_control: 750_000,
        enable_on_memory: 3_000,
        enable_off_control: 800_000,
        enable_off_memory: 50_000,
        read_delay: 800_000,
        power_on_delay: 50_000_000,
        first_init_delay: 4_500_000,
        second_init_delay: 100_000,
    }
}

/// The built-in timing policy for the 8-bit parallel bus.
#[derive(Clone, Copy, Debug, PartialEq, Eq, Structural)]
pub struct DefaultTimingsParallel8;

impl LcdTimingsParallel for DefaultTimingsParallel8 {
    open spec fn spec_values(&self) -> LcdTimingValues {
        spec_parallel8_values()
    }

    fn enable_pulse_on(&self, rs: LcdRegisterSelect) -> (r: u32) {
        match rs {
            LcdRegisterSelect::Control => 1_500_000,
            LcdRegisterSelect::Memory => 500,
        }
    }

    fn enable_pulse_off(&self, rs: LcdRegisterSelect) -> (r: u32) {
        match rs {
            LcdRegisterSelect::Control => 1_000_000,
            LcdRegisterSelect::Memory => 50_000,
        }
    }

    fn read_delay(&self) -> (r: u32) {
        1_000_000
    }

    fn power_on_delay(&self) -> (r: u32) {
        50_000_000
    }

    fn first_init_delay(&self) -> (r: u32) {
        4_500_000
    }

    fn second_init_delay(&self) -> (r: u32) {
        100_000
    }
}

/// The built-in timing policy for the 4-bit parallel bus.
#[derive(Clone, Copy, Debug, PartialEq, Eq, Structural)]
pub struct DefaultTimingsParallel4;

impl LcdTimingsParallel for DefaultTimingsParallel4 {
    open spec fn spec_values(&self) -> LcdTimingValues {
        spec_nibble_values()
    }

    fn enable_pulse_on(&self, rs: LcdRegisterSelect) -> (r: u32) {
        match rs {
            LcdRegisterSelect::Control => 750_000,
            LcdRegisterSelect::Memory => 3_000,
        }
    }

    fn enable_pulse_off(&self, rs: LcdRegisterSelect) -> (r: u32) {
        match rs {
            LcdRegisterSelect::Control => 800_000,
            LcdRegisterSelect::Memory => 50_000,
        }
    }

    fn read_delay(&self) -> (r: u32) {
        800_000
    }

    fn power_on_delay(&self) -> (r: u32) {
        50_000_000
    }

    fn first_init_delay(&self) -> (r: u32) {
        4_500_000
    }

    fn second_init_delay(&self) -> (r: u32) {
        100_000
    }
}

/// The built-in timing policy for the I2C expander bus.
#[derive(Clone, Copy, Debug, PartialEq, Eq, Structural)]
pub struct DefaultTimingsI2c;

impl LcdTimingsI2c for DefaultTimingsI2c {
    open spec fn spec_values(&self) -> LcdTimingValues {
        spec_nibble_values()
    }

    fn enable_pulse_on(&self, rs: LcdRegisterSelect) -> (r: u32) {
        match rs {
            LcdRegisterSelect::Control => 750_000,
            LcdRegisterSelect::Memory => 3_000,
        }
    }

    fn enable_pulse_off(&self, rs: LcdRegisterSelect) -> (r: u32) {
        match rs {
            LcdRegisterSelect::Control => 800_000,
            LcdRegisterSelect::Memory => 50_000,
        }
    }

    fn read_delay(&self) -> (r: u32) {
        800_000
    }

    fn power_on_delay(&self) -> (r: u32) {
        50_000_000
    }

    fn first_init_delay(&self) -> (r: u32) {
        4_500_000
    }

    fn second_init_delay(&self) -> (r: u32) {
        100_000
    }
}

} // verus!
