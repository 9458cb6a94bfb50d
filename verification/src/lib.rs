//! A verified protocol engine for HD44780-compatible character-LCD
//! controllers.
//!
//! The engine drives a controller over one of three transports: an 8-bit
//! parallel bus, a 4-bit nibble-multiplexed parallel bus, or a single-byte
//! I2C GPIO expander that emulates the 4-bit bus. Each engine turns the
//! three uniform operations — write a control or data byte, read the status
//! byte, run the power-on initialization handshake — into an exact sequence
//! of electrical steps: line levels, enable pulses, hold times, and I2C
//! frames.
//!
//! Every such sequence is first computed as a *plan*, a list of bus
//! operations whose contract pins it down bit for bit, and then replayed
//! through small transport capabilities (`DigitalLine`, `LcdDelay`,
//! `LcdI2cPort`) that the surrounding application implements for its
//! hardware. The protocol laws — what a write puts on the data lines, the
//! nibble order, the reset handshake, backlight persistence, status
//! assembly — are proved over the plan specifications in `laws`.

mod bus;
mod commands;
mod driver;
mod i2c;
mod laws;
mod modes;
mod parallel;
mod parallel_ops;
mod timings;
mod transport;

pub use bus::LcdInit;
pub use bus::LcdRead;
pub use bus::LcdWrite;
pub use commands::CLEAR_DISPLAY;
pub use commands::DISPLAY_CONTROL;
pub use commands::ENTRY_MODE_SET;
pub use commands::FUNCTION_SET;
pub use commands::RETURN_HOME;
pub use commands::SET_DDRAM_ADDRESS;
pub use commands::display_control_byte;
pub use commands::entry_mode_byte;
pub use commands::function_set_byte_4bit;
pub use commands::function_set_byte_8bit;
pub use commands::sp_display_control_byte;
pub use commands::sp_entry_mode_byte;
pub use commands::sp_function_set_byte_4bit;
pub use commands::sp_function_set_byte_8bit;
pub use driver::BlockingLcdDriver;
pub use driver::BlockingLcdDriverDestroy;
pub use driver::BlockingLcdDriverInit;
pub use driver::BlockingLcdRead;
pub use driver::BlockingLcdWrite;
pub use driver::CharsetWithFallback;
pub use driver::DisplayMemoryMap;
pub use driver::LcdDriver;
pub use driver::LcdDriverOptions;
pub use driver::LcdInitError;
pub use i2c::I2C_BACKLIGHT;
pub use i2c::I2C_DATA;
pub use i2c::I2C_ENABLE;
pub use i2c::I2C_READ;
pub use i2c::I2C_REGISTER_SELECT;
pub use i2c::LcdI2c8574Bus;
pub use i2c::LcdI2cOp;
pub use i2c::assemble_status_i2c;
pub use i2c::sp_i2c_init_plan;
pub use i2c::sp_i2c_read_plan;
pub use i2c::sp_i2c_reads_from;
pub use i2c::sp_i2c_reset_ops;
pub use i2c::sp_i2c_select4_ops;
pub use i2c::sp_i2c_state_with_backlight;
pub use i2c::sp_i2c_state_with_rs;
pub use i2c::sp_i2c_status_byte;
pub use i2c::sp_i2c_write_plan;
pub use laws::lemma_data4;
pub use laws::lemma_data8;
pub use laws::lemma_i2c_init_backlight;
pub use laws::lemma_i2c_read_backlight;
pub use laws::lemma_i2c_write_backlight;
pub use laws::lemma_init4_exact;
pub use laws::lemma_init8_exact;
pub use laws::lemma_init_leaves_enable_low;
pub use laws::lemma_init_preamble;
pub use laws::lemma_latched_append;
pub use laws::lemma_nibble_cycle;
pub use laws::lemma_pulse;
pub use laws::lemma_pulse_no_tail;
pub use laws::lemma_read4_leaves_bus_ready;
pub use laws::lemma_read8_leaves_bus_ready;
pub use laws::lemma_reset4;
pub use laws::lemma_reset8;
pub use laws::lemma_status4_round_trip;
pub use laws::lemma_status8_round_trip;
pub use laws::lemma_status_i2c_round_trip;
pub use laws::lemma_wait;
pub use laws::lemma_write4_exact;
pub use laws::lemma_write8_exact;
pub use laws::lemma_write_leaves_enable_low;
pub use laws::sp_after;
pub use laws::sp_data_after;
pub use laws::sp_en_after;
pub use laws::sp_i2c_op_backlight;
pub use laws::sp_i2c_plan_backlight;
pub use laws::sp_latched;
pub use laws::sp_levels4_of_byte;
pub use laws::sp_levels_of_byte;
pub use laws::sp_line_mask;
pub use laws::sp_probe_en_after;
pub use laws::sp_probe_write_dir_after;
pub use laws::sp_upper_nibbles;
pub use modes::LcdDisplayMode;
pub use modes::LcdEntryMode;
pub use modes::LcdFontMode;
pub use modes::LcdFunctionMode;
pub use modes::LcdRegisterSelect;
pub use modes::LcdStatus;
pub use parallel::LcdParallelBus;
pub use parallel::LcdParallelPins;
pub use parallel::LcdParallelPinsRW4;
pub use parallel::LcdParallelPinsRW8;
pub use parallel::LcdParallelPinsRead;
pub use parallel::LcdParallelPinsW4;
pub use parallel::LcdParallelPinsW8;
pub use parallel::assemble_status_4bit;
pub use parallel::assemble_status_8bit;
pub use parallel::sp_status4_of_levels;
pub use parallel::sp_status8_of_levels;
pub use parallel_ops::LcdBusOp;
pub use parallel_ops::LcdLine;
pub use parallel_ops::LcdProbeOp;
pub use parallel_ops::parallel_init4_plan;
pub use parallel_ops::parallel_init8_plan;
pub use parallel_ops::parallel_read4_plan;
pub use parallel_ops::parallel_read8_plan;
pub use parallel_ops::parallel_write4_plan;
pub use parallel_ops::parallel_write8_plan;
pub use parallel_ops::sp_data4_ops;
pub use parallel_ops::sp_data8_ops;
pub use parallel_ops::sp_init4_plan;
pub use parallel_ops::sp_init8_plan;
pub use parallel_ops::sp_init_preamble;
pub use parallel_ops::sp_nibble_cycle;
pub use parallel_ops::sp_pulse;
pub use parallel_ops::sp_pulse_no_tail;
pub use parallel_ops::sp_reset4_ops;
pub use parallel_ops::sp_reset8_ops;
pub use parallel_ops::sp_samples_from;
pub use parallel_ops::sp_status_read4_plan;
pub use parallel_ops::sp_status_read8_plan;
pub use parallel_ops::sp_write4_plan;
pub use parallel_ops::sp_write8_plan;
pub use timings::DefaultTimingsI2c;
pub use timings::DefaultTimingsParallel4;
pub use timings::DefaultTimingsParallel8;
pub use timings::LcdTimingValues;
pub use timings::LcdTimingsI2c;
pub use timings::LcdTimingsParallel;
pub use timings::spec_enable_off;
pub use timings::spec_enable_on;
pub use timings::spec_nibble_values;
pub use timings::spec_parallel8_values;
pub use transport::DigitalLine;
pub use transport::LcdDelay;
pub use transport::LcdI2cPort;
