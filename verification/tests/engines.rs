//! The engines replayed over recording mock transports: execution order,
//! status assembly for every representable address, backlight persistence,
//! error propagation, and the full 4-bit bring-up scenario.

use std::cell::RefCell;
use std::collections::VecDeque;
use std::rc::Rc;

use embedded_lcd::DigitalLine;
use embedded_lcd::LcdDelay;
use embedded_lcd::LcdDisplayMode;
use embedded_lcd::LcdEntryMode;
use embedded_lcd::LcdFunctionMode;
use embedded_lcd::LcdI2c8574Bus;
use embedded_lcd::LcdI2cOp;
use embedded_lcd::LcdI2cPort;
use embedded_lcd::LcdInit;
use embedded_lcd::LcdParallelBus;
use embedded_lcd::LcdParallelPinsRW4;
use embedded_lcd::LcdParallelPinsRW8;
use embedded_lcd::LcdParallelPinsW8;
use embedded_lcd::LcdTimingValues;
use embedded_lcd::LcdTimingsParallel;
use embedded_lcd::LcdRead;
use embedded_lcd::LcdRegisterSelect;
use embedded_lcd::LcdWrite;

#[derive(Debug, Clone, PartialEq, Eq)]
enum Ev {
    Level(&'static str, bool),
    Sampled(&'static str, bool),
    Wait(u32),
    I2cWriteOne(u8, u8),
    I2cWriteTwo(u8, u8, u8),
    I2cReadWrite(u8, u8, u8),
}

struct BenchInner {
    log: Vec<Ev>,
    calls: usize,
    fail_at: Option<usize>,
}

type Bench = Rc<RefCell<BenchInner>>;

fn new_bench() -> Bench {
    Rc::new(RefCell::new(BenchInner { log: Vec::new(), calls: 0, fail_at: None }))
}

struct MockLine {
    name: &'static str,
    bench: Bench,
    inputs: Rc<RefCell<VecDeque<bool>>>,
}

fn line(name: &'static str, bench: &Bench) -> MockLine {
    MockLine { name, bench: bench.clone(), inputs: Rc::new(RefCell::new(VecDeque::new())) }
}

fn line_with_inputs(name: &'static str, bench: &Bench, inputs: &[bool]) -> MockLine {
    MockLine {
        name,
        bench: bench.clone(),
        inputs: Rc::new(RefCell::new(inputs.iter().copied().collect())),
    }
}

impl DigitalLine for MockLine {
    type Fault = u8;

    fn set(&mut self, high: bool) -> Result<(), u8> {
        let mut bench = self.bench.borrow_mut();
        bench.calls += 1;
        if bench.fail_at == Some(bench.calls) {
            return Err(7);
        }
        bench.log.push(Ev::Level(self.name, high));
        Ok(())
    }

    fn get(&mut self) -> Result<bool, u8> {
        let mut bench = self.bench.borrow_mut();
        bench.calls += 1;
        if bench.fail_at == Some(bench.calls) {
            return Err(7);
        }
        let level = self.inputs.borrow_mut().pop_front().unwrap_or(false);
        bench.log.push(Ev::Sampled(self.name, level));
        Ok(level)
    }
}

struct MockDelay {
    bench: Bench,
}

impl LcdDelay for MockDelay {
    fn delay_ns(&mut self, ns: u32) {
        self.bench.borrow_mut().log.push(Ev::Wait(ns));
    }
}

struct MockI2c {
    bench: Bench,
    address_seen: u8,
    reads: VecDeque<u8>,
}

impl LcdI2cPort for MockI2c {
    type Fault = u8;

    fn write_one(&mut self, address: u8, byte: u8) -> Result<(), u8> {
        let mut bench = self.bench.borrow_mut();
        bench.calls += 1;
        if bench.fail_at == Some(bench.calls) {
            return Err(9);
        }
        self.address_seen = address;
        bench.log.push(Ev::I2cWriteOne(address, byte));
        Ok(())
    }

    fn write_two(&mut self, address: u8, first: u8, second: u8) -> Result<(), u8> {
        let mut bench = self.bench.borrow_mut();
        bench.calls += 1;
        if bench.fail_at == Some(bench.calls) {
            return Err(9);
        }
        self.address_seen = address;
        bench.log.push(Ev::I2cWriteTwo(address, first, second));
        Ok(())
    }

    fn read_one_then_write(&mut self, address: u8, byte: u8) -> Result<u8, u8> {
        let mut bench = self.bench.borrow_mut();
        bench.calls += 1;
        if bench.fail_at == Some(bench.calls) {
            return Err(9);
        }
        let sampled = self.reads.pop_front().unwrap_or(0);
        bench.log.push(Ev::I2cReadWrite(address, sampled, byte));
        Ok(sampled)
    }
}

fn rw8_pins(bench: &Bench) -> LcdParallelPinsRW8<MockLine> {
    LcdParallelPinsRW8 {
        rs: line("rs", bench),
        rw: line("rw", bench),
        en: line("en", bench),
        d0: line("d0", bench),
        d1: line("d1", bench),
        d2: line("d2", bench),
        d3: line("d3", bench),
        d4: line("d4", bench),
        d5: line("d5", bench),
        d6: line("d6", bench),
        d7: line("d7", bench),
    }
}

#[test]
fn write8_execution_follows_the_plan_in_order() {
    let bench = new_bench();
    let mut delay = MockDelay { bench: bench.clone() };
    let mut bus = LcdParallelBus::new_8bit(rw8_pins(&bench));
    bus.write(LcdRegisterSelect::Control, 0xa5, &mut delay).unwrap();
    let expected = vec![
        Ev::Level("rs", false),
        Ev::Level("d0", true),
        Ev::Level("d1", false),
        Ev::Level("d2", true),
        Ev::Level("d3", false),
        Ev::Level("d4", false),
        Ev::Level("d5", true),
        Ev::Level("d6", false),
        Ev::Level("d7", true),
        Ev::Level("en", true),
        Ev::Wait(1_500_000),
        Ev::Level("en", false),
        Ev::Wait(1_000_000),
    ];
    assert_eq!(bench.borrow().log, expected);
}

#[test]
fn read_status_8bit_returns_busy_and_address_for_all_128_addresses() {
    for address in 0..128u8 {
        for busy in [false, true] {
            let byte = address | if busy { 0x80 } else { 0 };
            let bench = new_bench();
            let mut delay = MockDelay { bench: bench.clone() };
            let pins = LcdParallelPinsRW8 {
                rs: line("rs", &bench),
                rw: line("rw", &bench),
                en: line("en", &bench),
                d0: line_with_inputs("d0", &bench, &[byte & 0x01 != 0]),
                d1: line_with_inputs("d1", &bench, &[byte & 0x02 != 0]),
                d2: line_with_inputs("d2", &bench, &[byte & 0x04 != 0]),
                d3: line_with_inputs("d3", &bench, &[byte & 0x08 != 0]),
                d4: line_with_inputs("d4", &bench, &[byte & 0x10 != 0]),
                d5: line_with_inputs("d5", &bench, &[byte & 0x20 != 0]),
                d6: line_with_inputs("d6", &bench, &[byte & 0x40 != 0]),
                d7: line_with_inputs("d7", &bench, &[byte & 0x80 != 0]),
            };
            let mut bus = LcdParallelBus::new_8bit(pins);
            let status = bus.read_status(&mut delay).unwrap();
            assert_eq!(status.busy(), busy);
            assert_eq!(status.address(), address);
            assert_eq!(status.bits(), byte);
        }
    }
}

#[test]
fn read_status_4bit_reassembles_upper_nibble_first_for_every_byte() {
    for value in 0..=255u16 {
        let byte = value as u8;
        let bench = new_bench();
        let mut delay = MockDelay { bench: bench.clone() };
        let pins = LcdParallelPinsRW4 {
            rs: line("rs", &bench),
            rw: line("rw", &bench),
            en: line("en", &bench),
            d4: line_with_inputs("d4", &bench, &[byte & 0x10 != 0, byte & 0x01 != 0]),
            d5: line_with_inputs("d5", &bench, &[byte & 0x20 != 0, byte & 0x02 != 0]),
            d6: line_with_inputs("d6", &bench, &[byte & 0x40 != 0, byte & 0x04 != 0]),
            d7: line_with_inputs("d7", &bench, &[byte & 0x80 != 0, byte & 0x08 != 0]),
        };
        let mut bus = LcdParallelBus::new_4bit(pins);
        let status = bus.read_status(&mut delay).unwrap();
        assert_eq!(status.bits(), byte);
    }
}

#[test]
fn first_line_fault_aborts_the_transfer_and_is_returned_unchanged() {
    let bench = new_bench();
    bench.borrow_mut().fail_at = Some(3);
    let mut delay = MockDelay { bench: bench.clone() };
    let mut bus = LcdParallelBus::new_8bit(rw8_pins(&bench));
    let result = bus.write(LcdRegisterSelect::Control, 0xff, &mut delay);
    assert_eq!(result, Err(7));
    // The two line sets before the fault happened; nothing after it did.
    assert_eq!(bench.borrow().log.len(), 2);
}

#[test]
fn backlight_persists_into_every_following_transfer_byte() {
    let bench = new_bench();
    let mut delay = MockDelay { bench: bench.clone() };
    let port = MockI2c { bench: bench.clone(), address_seen: 0, reads: VecDeque::new() };
    let mut bus = LcdI2c8574Bus::new(port, 0x27);

    bus.set_backlight(true).unwrap();
    bus.write(LcdRegisterSelect::Memory, 0x41, &mut delay).unwrap();
    for ev in bench.borrow().log.iter() {
        match ev {
            Ev::I2cWriteOne(_, b) => assert_ne!(b & 0x08, 0),
            Ev::I2cWriteTwo(_, b0, b1) => {
                assert_ne!(b0 & 0x08, 0);
                assert_ne!(b1 & 0x08, 0);
            }
            Ev::Wait(_) => {}
            other => panic!("unexpected event {:?}", other),
        }
    }

    bench.borrow_mut().log.clear();
    bus.set_backlight(false).unwrap();
    bus.write(LcdRegisterSelect::Control, 0x41, &mut delay).unwrap();
    for ev in bench.borrow().log.iter() {
        match ev {
            Ev::I2cWriteOne(_, b) => assert_eq!(b & 0x08, 0),
            Ev::I2cWriteTwo(_, b0, b1) => {
                assert_eq!(b0 & 0x08, 0);
                assert_eq!(b1 & 0x08, 0);
            }
            Ev::Wait(_) => {}
            other => panic!("unexpected event {:?}", other),
        }
    }
}

#[test]
fn i2c_write_sends_four_frames_per_byte_with_enable_pulses() {
    let bench = new_bench();
    let mut delay = MockDelay { bench: bench.clone() };
    let port = MockI2c { bench: bench.clone(), address_seen: 0, reads: VecDeque::new() };
    let mut bus = LcdI2c8574Bus::new(port, 0x27);
    // Backlight on (0x08), memory register (0x01): base state 0x09.
    bus.write(LcdRegisterSelect::Memory, 0x41, &mut delay).unwrap();
    let expected = vec![
        Ev::I2cWriteTwo(0x27, 0x49, 0x4d),
        Ev::Wait(3_000),
        Ev::I2cWriteOne(0x27, 0x49),
        Ev::Wait(50_000),
        Ev::I2cWriteTwo(0x27, 0x19, 0x1d),
        Ev::Wait(3_000),
        Ev::I2cWriteOne(0x27, 0x19),
        Ev::Wait(50_000),
    ];
    assert_eq!(bench.borrow().log, expected);
}

#[test]
fn i2c_read_status_takes_upper_nibbles_of_both_samples() {
    let bench = new_bench();
    let mut delay = MockDelay { bench: bench.clone() };
    let port = MockI2c {
        bench: bench.clone(),
        address_seen: 0,
        reads: [0xa7, 0x5c].into_iter().collect(),
    };
    let mut bus = LcdI2c8574Bus::new(port, 0x3f);
    let status = bus.read_status(&mut delay).unwrap();
    assert_eq!(status.bits(), 0xa5);
    assert!(status.busy());
    assert_eq!(status.address(), 0x25);
    // Both probe frames float the data lines high with the read bit set.
    let log = bench.borrow().log.clone();
    assert_eq!(log[0], Ev::I2cWriteTwo(0x3f, 0xfa, 0xfe));
    assert_eq!(log[2], Ev::I2cReadWrite(0x3f, 0xa7, 0xfa));
    assert_eq!(log[4], Ev::I2cWriteTwo(0x3f, 0xfa, 0xfe));
    assert_eq!(log[6], Ev::I2cReadWrite(0x3f, 0x5c, 0xfa));
}

#[test]
fn i2c_fault_leaves_the_backlight_mirror_unchanged() {
    let bench = new_bench();
    bench.borrow_mut().fail_at = Some(1);
    let port = MockI2c { bench: bench.clone(), address_seen: 0, reads: VecDeque::new() };
    let mut bus = LcdI2c8574Bus::new(port, 0x27);
    // The transfer fails, so the mirror must keep the backlight on.
    assert_eq!(bus.set_backlight(false), Err(9));
    let mut delay = MockDelay { bench: bench.clone() };
    bus.write(LcdRegisterSelect::Control, 0x00, &mut delay).unwrap();
    for ev in bench.borrow().log.iter() {
        if let Ev::I2cWriteOne(_, b) | Ev::I2cWriteTwo(_, b, _) = ev {
            assert_ne!(b & 0x08, 0);
        }
    }
}

#[test]
fn i2c_init_replays_its_plan_frame_for_frame() {
    let function = LcdFunctionMode::new(true, false, false);
    let display = LcdDisplayMode::new(true, true, false);
    let entry = LcdEntryMode::new(true, false);

    let bench = new_bench();
    let mut delay = MockDelay { bench: bench.clone() };
    let port = MockI2c { bench: bench.clone(), address_seen: 0, reads: VecDeque::new() };
    let mut bus = LcdI2c8574Bus::new(port, 0x27);
    let plan = bus.init_plan(function, display, entry);
    bus.init(function, display, entry, &mut delay).unwrap();

    let expected: Vec<Ev> = plan
        .iter()
        .map(|op| match *op {
            LcdI2cOp::WriteOne(b) => Ev::I2cWriteOne(0x27, b),
            LcdI2cOp::WriteTwo(b0, b1) => Ev::I2cWriteTwo(0x27, b0, b1),
            LcdI2cOp::ReadThenWrite(b) => Ev::I2cReadWrite(0x27, 0, b),
            LcdI2cOp::Wait(ns) => Ev::Wait(ns),
        })
        .collect();
    assert_eq!(bench.borrow().log, expected);
    // The reset handshake opens with the mode-select pattern over the
    // backlight-on state: 0x38 with Enable, then released.
    assert_eq!(bench.borrow().log[1], Ev::I2cWriteTwo(0x27, 0x38, 0x3c));
    assert_eq!(bench.borrow().log[3], Ev::I2cWriteOne(0x27, 0x38));
}

#[test]
fn full_4bit_bring_up_latches_exactly_the_documented_nibbles() {
    let function = LcdFunctionMode::new(true, false, false);
    let display = LcdDisplayMode::new(true, true, false);
    let entry = LcdEntryMode::new(true, false);

    let bench = new_bench();
    let mut delay = MockDelay { bench: bench.clone() };
    let pins = LcdParallelPinsRW4 {
        rs: line("rs", &bench),
        rw: line("rw", &bench),
        en: line("en", &bench),
        d4: line("d4", &bench),
        d5: line("d5", &bench),
        d6: line("d6", &bench),
        d7: line("d7", &bench),
    };
    let mut bus = LcdParallelBus::new_4bit(pins);
    bus.init(function, display, entry, &mut delay).unwrap();
    bus.write(LcdRegisterSelect::Memory, b'A', &mut delay).unwrap();

    // Replay the log as the controller would: remember the four data line
    // levels and the register select, and latch at each rising Enable edge.
    let mut nibble = 0u8;
    let mut rs_high = false;
    let mut latched: Vec<(u8, bool)> = Vec::new();
    for ev in bench.borrow().log.iter() {
        match *ev {
            Ev::Level("rs", level) => rs_high = level,
            Ev::Level("d4", level) => nibble = nibble & !0x1 | if level { 0x1 } else { 0 },
            Ev::Level("d5", level) => nibble = nibble & !0x2 | if level { 0x2 } else { 0 },
            Ev::Level("d6", level) => nibble = nibble & !0x4 | if level { 0x4 } else { 0 },
            Ev::Level("d7", level) => nibble = nibble & !0x8 | if level { 0x8 } else { 0 },
            Ev::Level("en", true) => latched.push((nibble, rs_high)),
            _ => {}
        }
    }
    let expected = vec![
        // Three reset pulses, then the 4-bit select pulse.
        (0x3, false),
        (0x3, false),
        (0x3, false),
        (0x2, false),
        // Function set 0x28, display control 0x0e, clear 0x01, entry 0x06.
        (0x2, false),
        (0x8, false),
        (0x0, false),
        (0xe, false),
        (0x0, false),
        (0x1, false),
        (0x0, false),
        (0x6, false),
        // The memory write of 'A' (0x41), upper nibble first.
        (0x4, true),
        (0x1, true),
    ];
    assert_eq!(latched, expected);
    // No other bus activity: the log is exactly the two plans, one event
    // per operation.
    assert_eq!(bench.borrow().log.len(), 96 + 17);
}

#[test]
fn write_only_wiring_writes_without_a_direction_line() {
    let bench = new_bench();
    let mut delay = MockDelay { bench: bench.clone() };
    let pins = LcdParallelPinsW8 {
        rs: line("rs", &bench),
        en: line("en", &bench),
        d0: line("d0", &bench),
        d1: line("d1", &bench),
        d2: line("d2", &bench),
        d3: line("d3", &bench),
        d4: line("d4", &bench),
        d5: line("d5", &bench),
        d6: line("d6", &bench),
        d7: line("d7", &bench),
    };
    let mut bus = LcdParallelBus::new_8bit(pins);
    let function = LcdFunctionMode::new(false, false, false);
    let display = LcdDisplayMode::new(true, false, false);
    let entry = LcdEntryMode::new(true, false);
    bus.init(function, display, entry, &mut delay).unwrap();
    // The write-direction switch of the preamble is a no-op here, so the
    // init plan leaves one event fewer than it has operations.
    let log = bench.borrow().log.clone();
    assert_eq!(log[0], Ev::Level("rs", false));
    assert_eq!(log[1], Ev::Level("en", false));
    assert_eq!(log[2], Ev::Wait(50_000_000));
    assert!(log.iter().all(|ev| !matches!(ev, Ev::Level("rw", _))));
}

struct SlowTimings;

impl LcdTimingsParallel for SlowTimings {
    fn spec_values(&self) -> LcdTimingValues {
        LcdTimingValues {
            enable_on_control: 11,
            enable_on_memory: 12,
            enable_off_control: 13,
            enable_off_memory: 14,
            read_delay: 15,
            power_on_delay: 16,
            first_init_delay: 17,
            second_init_delay: 18,
        }
    }

    fn enable_pulse_on(&self, rs: LcdRegisterSelect) -> u32 {
        match rs {
            LcdRegisterSelect::Control => 11,
            LcdRegisterSelect::Memory => 12,
        }
    }

    fn enable_pulse_off(&self, rs: LcdRegisterSelect) -> u32 {
        match rs {
            LcdRegisterSelect::Control => 13,
            LcdRegisterSelect::Memory => 14,
        }
    }

    fn read_delay(&self) -> u32 {
        15
    }

    fn power_on_delay(&self) -> u32 {
        16
    }

    fn first_init_delay(&self) -> u32 {
        17
    }

    fn second_init_delay(&self) -> u32 {
        18
    }
}

#[test]
fn caller_supplied_timings_select_the_pulse_durations() {
    let bench = new_bench();
    let mut delay = MockDelay { bench: bench.clone() };
    let mut bus = LcdParallelBus::new_4bit_with_timings(
        LcdParallelPinsRW4 {
            rs: line("rs", &bench),
            rw: line("rw", &bench),
            en: line("en", &bench),
            d4: line("d4", &bench),
            d5: line("d5", &bench),
            d6: line("d6", &bench),
            d7: line("d7", &bench),
        },
        SlowTimings,
    );
    bus.write(LcdRegisterSelect::Memory, 0x00, &mut delay).unwrap();
    let waits: Vec<u32> = bench
        .borrow()
        .log
        .iter()
        .filter_map(|ev| match ev {
            Ev::Wait(ns) => Some(*ns),
            _ => None,
        })
        .collect();
    assert_eq!(waits, vec![12, 14, 12, 14]);
}

#[test]
fn destroy_hands_the_transports_back() {
    let bench = new_bench();
    let bus = LcdParallelBus::new_8bit(rw8_pins(&bench));
    let pins = bus.destroy();
    assert_eq!(pins.rs.name, "rs");

    let port = MockI2c { bench: bench.clone(), address_seen: 0, reads: VecDeque::new() };
    let bus = LcdI2c8574Bus::new(port, 0x27);
    assert_eq!(bus.address(), 0x27);
    let port = bus.destroy();
    assert_eq!(port.address_seen, 0);
}
