//! The display driver over a recording mock engine: command bytes, cursor
//! addressing through the memory map, character writes through the
//! charset, and the flags the initialization derives.

use std::cell::RefCell;
use std::rc::Rc;

use embedded_lcd::BlockingLcdDriver;
use embedded_lcd::BlockingLcdDriverDestroy;
use embedded_lcd::BlockingLcdDriverInit;
use embedded_lcd::BlockingLcdRead;
use embedded_lcd::BlockingLcdWrite;
use embedded_lcd::CharsetWithFallback;
use embedded_lcd::DisplayMemoryMap;
use embedded_lcd::LcdDelay;
use embedded_lcd::LcdDisplayMode;
use embedded_lcd::LcdDriver;
use embedded_lcd::LcdDriverOptions;
use embedded_lcd::LcdEntryMode;
use embedded_lcd::LcdFontMode;
use embedded_lcd::LcdFunctionMode;
use embedded_lcd::LcdInit;
use embedded_lcd::LcdRead;
use embedded_lcd::LcdRegisterSelect;
use embedded_lcd::LcdStatus;
use embedded_lcd::LcdWrite;

struct NoDelay;

impl LcdDelay for NoDelay {
    fn delay_ns(&mut self, _ns: u32) {}
}

#[derive(Debug, Clone, PartialEq, Eq)]
enum BusEv {
    Write(bool, u8),
    Init(u8, u8, u8),
    ReadStatus,
}

struct MockBus {
    log: Rc<RefCell<Vec<BusEv>>>,
    fail_init: bool,
    status: u8,
}

impl LcdWrite<NoDelay> for MockBus {
    type Error = u8;

    fn write(&mut self, rs: LcdRegisterSelect, data: u8, _delay: &mut NoDelay) -> Result<(), u8> {
        self.log.borrow_mut().push(BusEv::Write(rs == LcdRegisterSelect::Memory, data));
        Ok(())
    }
}

impl LcdInit<NoDelay> for MockBus {
    fn init(
        &mut self,
        function: LcdFunctionMode,
        display: LcdDisplayMode,
        entry: LcdEntryMode,
        _delay: &mut NoDelay,
    ) -> Result<(), u8> {
        if self.fail_init {
            return Err(3);
        }
        self.log.borrow_mut().push(BusEv::Init(function.bits(), display.bits(), entry.bits()));
        Ok(())
    }
}

impl LcdRead<NoDelay> for MockBus {
    fn read_status(&mut self, _delay: &mut NoDelay) -> Result<LcdStatus, u8> {
        self.log.borrow_mut().push(BusEv::ReadStatus);
        Ok(LcdStatus::from_bits_retain(self.status))
    }
}

/// A 16x2 layout: row 0 at 0x00, row 1 at 0x40.
struct Map16x2;

impl DisplayMemoryMap for Map16x2 {
    fn address_for_xy(&self, x: u8, y: u8) -> Option<u8> {
        if x < 16 && y < 2 {
            Some(y * 0x40 + x)
        } else {
            None
        }
    }

    fn has_two_memory_lines(&self) -> bool {
        true
    }
}

/// ASCII passes through; everything else becomes a question mark.
struct AsciiCharset;

impl CharsetWithFallback for AsciiCharset {
    fn code_from_utf8_with_fallback(&self, ch: char) -> u8 {
        if ch.is_ascii() {
            ch as u8
        } else {
            b'?'
        }
    }
}

fn ready_driver(
    log: &Rc<RefCell<Vec<BusEv>>>,
    status: u8,
) -> LcdDriver<MockBus, Map16x2, AsciiCharset> {
    let bus = MockBus { log: log.clone(), fail_init: false, status };
    let options = LcdDriverOptions::new(bus, Map16x2).with_charset(AsciiCharset);
    let driver = LcdDriver::init(options, &mut NoDelay).map_err(|_| ()).unwrap();
    log.borrow_mut().clear();
    driver
}

#[test]
fn driver_init_derives_two_line_flag_and_default_modes() {
    let log: Rc<RefCell<Vec<BusEv>>> = Rc::new(RefCell::new(Vec::new()));
    let bus = MockBus { log: log.clone(), fail_init: false, status: 0 };
    let options = LcdDriverOptions::new(bus, Map16x2).with_charset(AsciiCharset);
    let _driver = LcdDriver::init(options, &mut NoDelay).map_err(|_| ()).unwrap();
    // Two memory lines set bit 3; the display shows itself and the cursor;
    // entry increments the address.
    assert_eq!(log.borrow().as_slice(), &[BusEv::Init(0x08, 0x06, 0x02)]);
}

#[test]
fn driver_init_with_5x10_font_sets_the_font_flag() {
    let log: Rc<RefCell<Vec<BusEv>>> = Rc::new(RefCell::new(Vec::new()));
    let bus = MockBus { log: log.clone(), fail_init: false, status: 0 };
    let mut options = LcdDriverOptions::new(bus, Map16x2).with_charset(AsciiCharset);
    options.font = LcdFontMode::Font5x10;
    let _driver = LcdDriver::init(options, &mut NoDelay).map_err(|_| ()).unwrap();
    assert_eq!(log.borrow().as_slice(), &[BusEv::Init(0x0c, 0x06, 0x02)]);
}

#[test]
fn driver_init_failure_hands_the_options_back() {
    let log: Rc<RefCell<Vec<BusEv>>> = Rc::new(RefCell::new(Vec::new()));
    let bus = MockBus { log: log.clone(), fail_init: true, status: 0 };
    let options = LcdDriverOptions::new(bus, Map16x2).with_charset(AsciiCharset);
    match LcdDriver::init(options, &mut NoDelay) {
        Ok(_) => panic!("init must fail"),
        Err(err) => {
            assert_eq!(err.source, 3);
            assert_eq!(err.options.font, LcdFontMode::Font5x8);
            assert!(err.options.memory_map.has_two_memory_lines());
        }
    }
    assert!(log.borrow().is_empty());
}

#[test]
fn clear_and_return_home_send_their_opcodes() {
    let log: Rc<RefCell<Vec<BusEv>>> = Rc::new(RefCell::new(Vec::new()));
    let mut driver = ready_driver(&log, 0);
    driver.clear(&mut NoDelay).unwrap();
    driver.return_home(&mut NoDelay).unwrap();
    assert_eq!(log.borrow().as_slice(), &[BusEv::Write(false, 0x01), BusEv::Write(false, 0x02)]);
}

#[test]
fn set_display_mode_masks_the_flags_onto_the_opcode() {
    let log: Rc<RefCell<Vec<BusEv>>> = Rc::new(RefCell::new(Vec::new()));
    let mut driver = ready_driver(&log, 0);
    driver.set_display_mode(LcdDisplayMode::new(true, false, true), &mut NoDelay).unwrap();
    assert_eq!(log.borrow().as_slice(), &[BusEv::Write(false, 0x0d)]);
}

#[test]
fn set_xy_addresses_through_the_memory_map_and_ignores_off_display() {
    let log: Rc<RefCell<Vec<BusEv>>> = Rc::new(RefCell::new(Vec::new()));
    let mut driver = ready_driver(&log, 0);
    driver.set_xy(3, 1, &mut NoDelay).unwrap();
    driver.set_xy(40, 0, &mut NoDelay).unwrap();
    driver.set_address(0x10, &mut NoDelay).unwrap();
    assert_eq!(log.borrow().as_slice(), &[BusEv::Write(false, 0xc3), BusEv::Write(false, 0x90)]);
}

#[test]
fn write_char_and_str_go_through_the_charset_to_memory() {
    let log: Rc<RefCell<Vec<BusEv>>> = Rc::new(RefCell::new(Vec::new()));
    let mut driver = ready_driver(&log, 0);
    driver.write_char('A', &mut NoDelay).unwrap();
    driver.write_str("Hi\u{263a}", &mut NoDelay).unwrap();
    assert_eq!(log.borrow().as_slice(), &[
        BusEv::Write(true, b'A'),
        BusEv::Write(true, b'H'),
        BusEv::Write(true, b'i'),
        BusEv::Write(true, b'?'),
    ]);
}

#[test]
fn status_and_accessors_pass_through() {
    let log: Rc<RefCell<Vec<BusEv>>> = Rc::new(RefCell::new(Vec::new()));
    let mut driver = ready_driver(&log, 0xc2);
    let status = driver.status(&mut NoDelay).unwrap();
    assert!(status.busy());
    assert_eq!(status.address(), 0x42);
    assert!(driver.memory_map().has_two_memory_lines());
    assert_eq!(driver.charset().code_from_utf8_with_fallback('z'), b'z');
    let bus = driver.destroy();
    assert_eq!(bus.status, 0xc2);
}
