use std::cell::RefCell;
use std::collections::VecDeque;
use std::rc::Rc;

use stmpe1600::bus::I2cBus;
use stmpe1600::{Error, Polarity, Stmpe1600Builder, DEFAULT_ADDRESS};

/// One scripted bus transaction the mock expects, in order.
#[derive(Clone, Debug, PartialEq)]
enum Xact {
    /// Expect a write of exactly these bytes to this address.
    Write(u8, Vec<u8>),
    /// Expect a read from this address, answered with these bytes.
    Read(u8, Vec<u8>),
    /// Expect a write of exactly these bytes, then fail the transaction.
    FailWrite(u8, Vec<u8>),
    /// Expect a read from this address, then fail the transaction.
    FailRead(u8),
}

/// A scripted two-wire bus: checks every transaction the driver issues
/// against the expectation list, in order. Clones share the same script,
/// so a test can keep one to assert consumption after the driver has taken
/// ownership of the other. Leftover expectations are tolerated unless
/// `assert_done` is called.
#[derive(Clone)]
struct MockBus {
    expected: Rc<RefCell<VecDeque<Xact>>>,
}

impl MockBus {
    fn new(expectations: &[Xact]) -> MockBus {
        MockBus { expected: Rc::new(RefCell::new(expectations.iter().cloned().collect())) }
    }

    fn assert_done(&self) {
        let left = self.expected.borrow();
        assert!(left.is_empty(), "expectations left over: {:?}", left);
    }

    fn next_expected(&mut self) -> Option<Xact> {
        self.expected.borrow_mut().pop_front()
    }
}

impl I2cBus for MockBus {
    type BusError = String;

    fn write_bytes(&mut self, address: u8, bytes: &[u8]) -> Result<(), String> {
        match self.next_expected() {
            Some(Xact::Write(a, b)) => {
                assert_eq!(a, address, "write to unexpected address");
                assert_eq!(b.as_slice(), bytes, "unexpected bytes written");
                Ok(())
            }
            Some(Xact::FailWrite(a, b)) => {
                assert_eq!(a, address, "write to unexpected address");
                assert_eq!(b.as_slice(), bytes, "unexpected bytes written");
                Err("bus fault".to_string())
            }
            other => panic!("unexpected write of {:?}, expected {:?}", bytes, other),
        }
    }

    fn read_byte(&mut self, address: u8) -> Result<u8, String> {
        match self.next_expected() {
            Some(Xact::Read(a, b)) => {
                assert_eq!(a, address, "read from unexpected address");
                assert_eq!(b.len(), 1, "scripted answer has the wrong width");
                Ok(b[0])
            }
            Some(Xact::FailRead(a)) => {
                assert_eq!(a, address, "read from unexpected address");
                Err("bus fault".to_string())
            }
            other => panic!("unexpected single-byte read, expected {:?}", other),
        }
    }

    fn read_byte_pair(&mut self, address: u8) -> Result<[u8; 2], String> {
        match self.next_expected() {
            Some(Xact::Read(a, b)) => {
                assert_eq!(a, address, "read from unexpected address");
                assert_eq!(b.len(), 2, "scripted answer has the wrong width");
                Ok([b[0], b[1]])
            }
            Some(Xact::FailRead(a)) => {
                assert_eq!(a, address, "read from unexpected address");
                Err("bus fault".to_string())
            }
            other => panic!("unexpected two-byte read, expected {:?}", other),
        }
    }
}

/// The three transactions every successful default construction issues:
/// identity check and soft reset.
fn construction(addr: u8) -> Vec<Xact> {
    vec![
        Xact::Write(addr, vec![0x00]),
        Xact::Read(addr, vec![0x00, 0x16]),
        Xact::Write(addr, vec![0x03, 0x80]),
    ]
}

#[test]
fn read_pin() {
    let i2c = MockBus::new(&[
        // Check device ID.
        Xact::Write(DEFAULT_ADDRESS, vec![0x00]),
        Xact::Read(DEFAULT_ADDRESS, vec![0x00, 0x16]),
        // Software reset.
        Xact::Write(DEFAULT_ADDRESS, vec![0x03, 0x80]),
        // Get pin 0 state.
        Xact::Write(DEFAULT_ADDRESS, vec![0x10]),
        Xact::Read(DEFAULT_ADDRESS, vec![0x01, 0x00]),
    ]);

    let mut stmpe1600 = Stmpe1600Builder::new(i2c).build().unwrap();
    let mut input_pin = stmpe1600.pin_input(0).unwrap();
    assert!(input_pin.is_high().unwrap(), "Input pin in is LOW");
}

#[test]
fn write_pin() {
    let i2c = MockBus::new(&[
        // Check device ID.
        Xact::Write(DEFAULT_ADDRESS, vec![0x00]),
        Xact::Read(DEFAULT_ADDRESS, vec![0x00, 0x16]),
        // Software reset.
        Xact::Write(DEFAULT_ADDRESS, vec![0x03, 0x80]),
        // Set pin 0 as an output pin.
        Xact::Write(DEFAULT_ADDRESS, vec![0x14]),
        Xact::Read(DEFAULT_ADDRESS, vec![0x00, 0x00]),
        Xact::Write(DEFAULT_ADDRESS, vec![0x14, 0x01, 0x00]),
        // Set pin 0 as HIGH.
        Xact::Write(DEFAULT_ADDRESS, vec![0x12]),
        Xact::Read(DEFAULT_ADDRESS, vec![0x00, 0x00]),
        Xact::Write(DEFAULT_ADDRESS, vec![0x12, 0x01, 0x00]),
    ]);

    let mut stmpe1600 = Stmpe1600Builder::new(i2c).build().unwrap();
    let mut output_pin = stmpe1600.pin_output(0).unwrap();
    output_pin.set_high().unwrap();
}

#[test]
fn polarity_inversion() {
    let i2c = MockBus::new(&[
        // Check device ID.
        Xact::Write(DEFAULT_ADDRESS, vec![0x00]),
        Xact::Read(DEFAULT_ADDRESS, vec![0x00, 0x16]),
        // Software reset.
        Xact::Write(DEFAULT_ADDRESS, vec![0x03, 0x80]),
        // Get pin 0 polarity inversion.
        Xact::Write(DEFAULT_ADDRESS, vec![0x16]),
        Xact::Read(DEFAULT_ADDRESS, vec![0x00, 0x00]),
        // Set pin 0 polarity inversion to HIGH.
        Xact::Write(DEFAULT_ADDRESS, vec![0x16]),
        Xact::Read(DEFAULT_ADDRESS, vec![0x00, 0x00]),
        Xact::Write(DEFAULT_ADDRESS, vec![0x16, 0x01, 0x00]),
        // Get pin 0 polarity inversion.
        Xact::Write(DEFAULT_ADDRESS, vec![0x16]),
        Xact::Read(DEFAULT_ADDRESS, vec![0x01, 0x00]),
    ]);

    let mut stmpe1600 = Stmpe1600Builder::new(i2c).build().unwrap();
    let mut pin = stmpe1600.pin_input(0).unwrap();
    assert_eq!(pin.polarity_inversion().unwrap(), Polarity::Low);
    pin.set_polarity_inversion(Polarity::High).unwrap();
    assert_eq!(pin.polarity_inversion().unwrap(), Polarity::High);
}

#[test]
fn set_high_from_zero_sets_exactly_one_bit() {
    // On a pin in output mode, driving it high when the pin-level set
    // register reads zero issues exactly: read it back as 0x0000, write
    // back 0x0001.
    let mut expectations = construction(DEFAULT_ADDRESS);
    expectations.extend([
        // Transition pin 0 to output mode.
        Xact::Write(DEFAULT_ADDRESS, vec![0x14]),
        Xact::Read(DEFAULT_ADDRESS, vec![0x00, 0x00]),
        Xact::Write(DEFAULT_ADDRESS, vec![0x14, 0x01, 0x00]),
        // Drive it high.
        Xact::Write(DEFAULT_ADDRESS, vec![0x12]),
        Xact::Read(DEFAULT_ADDRESS, vec![0x00, 0x00]),
        Xact::Write(DEFAULT_ADDRESS, vec![0x12, 0x01, 0x00]),
    ]);
    let i2c = MockBus::new(&expectations);
    let script = i2c.clone();
    let mut stmpe1600 = Stmpe1600Builder::new(i2c).build().unwrap();
    let mut output_pin = stmpe1600.pin_output(0).unwrap();
    output_pin.set_high().unwrap();
    script.assert_done();
}

#[test]
fn level_writes_leave_other_bits_untouched() {
    let mut expectations = construction(DEFAULT_ADDRESS);
    expectations.extend([
        // Transition pin 0 to output mode; other direction bits survive.
        Xact::Write(DEFAULT_ADDRESS, vec![0x14]),
        Xact::Read(DEFAULT_ADDRESS, vec![0xF0, 0x00]),
        Xact::Write(DEFAULT_ADDRESS, vec![0x14, 0xF1, 0x00]),
        // Driving high keeps every other level bit.
        Xact::Write(DEFAULT_ADDRESS, vec![0x12]),
        Xact::Read(DEFAULT_ADDRESS, vec![0xF0, 0x00]),
        Xact::Write(DEFAULT_ADDRESS, vec![0x12, 0xF1, 0x00]),
        // Driving low clears only this pin's bit.
        Xact::Write(DEFAULT_ADDRESS, vec![0x12]),
        Xact::Read(DEFAULT_ADDRESS, vec![0xFF, 0xFF]),
        Xact::Write(DEFAULT_ADDRESS, vec![0x12, 0xFE, 0xFF]),
    ]);
    let i2c = MockBus::new(&expectations);
    let script = i2c.clone();
    let mut stmpe1600 = Stmpe1600Builder::new(i2c).build().unwrap();
    let mut output_pin = stmpe1600.pin_output(0).unwrap();
    output_pin.set_high().unwrap();
    output_pin.set_low().unwrap();
    script.assert_done();
}

#[test]
fn pending_interrupts_unpack_and_clear() {
    // Element i of the result is true iff bit i of the just-read
    // interrupt-status value was set; the chip clears the register on
    // read, so a second call with nothing re-asserted reports all-false.
    let mut expectations = construction(DEFAULT_ADDRESS);
    expectations.extend([
        Xact::Write(DEFAULT_ADDRESS, vec![0x0A]),
        Xact::Read(DEFAULT_ADDRESS, vec![0x05, 0x80]),
        Xact::Write(DEFAULT_ADDRESS, vec![0x0A]),
        Xact::Read(DEFAULT_ADDRESS, vec![0x00, 0x00]),
    ]);
    let i2c = MockBus::new(&expectations);
    let script = i2c.clone();
    let mut stmpe1600 = Stmpe1600Builder::new(i2c).build().unwrap();

    let first = stmpe1600.get_interrupts().unwrap();
    for (i, flag) in first.iter().enumerate() {
        let expected = i == 0 || i == 2 || i == 15;
        assert_eq!(*flag, expected, "pin {} flag is wrong", i);
    }

    let second = stmpe1600.get_interrupts().unwrap();
    assert_eq!(second, [false; 16]);
    script.assert_done();
}

#[test]
fn same_mode_vend_issues_no_traffic() {
    // Re-vending a pin in the mode it is already in performs no register
    // access at all: the script holds nothing beyond construction.
    let expectations = construction(DEFAULT_ADDRESS);
    let i2c = MockBus::new(&expectations);
    let script = i2c.clone();
    let mut stmpe1600 = Stmpe1600Builder::new(i2c).build().unwrap();
    let pin = stmpe1600.pin_input(3).unwrap();
    drop(pin);
    let pin_again = stmpe1600.pin_input(3).unwrap();
    drop(pin_again);
    script.assert_done();
}

#[test]
fn failed_transition_leaves_mode_table_unchanged() {
    // A bus fault in the middle of a mode transition surfaces as an error
    // and the in-memory table keeps the old mode: the next vend in the old
    // mode issues no transition traffic.
    let mut expectations = construction(DEFAULT_ADDRESS);
    expectations.extend([
        // The transition's read of the direction register fails.
        Xact::Write(DEFAULT_ADDRESS, vec![0x14]),
        Xact::FailRead(DEFAULT_ADDRESS),
        // Pin 0 is still an input: reading its level goes straight to the
        // monitor register.
        Xact::Write(DEFAULT_ADDRESS, vec![0x10]),
        Xact::Read(DEFAULT_ADDRESS, vec![0x00, 0x00]),
    ]);
    let i2c = MockBus::new(&expectations);
    let script = i2c.clone();
    let mut stmpe1600 = Stmpe1600Builder::new(i2c).build().unwrap();

    let result = stmpe1600.pin_output(0);
    assert!(matches!(result, Err(Error::I2CError(_))));

    let mut pin = stmpe1600.pin_input(0).unwrap();
    assert!(pin.is_low().unwrap());
    script.assert_done();
}

#[test]
fn output_to_interrupt_rewrites_both_registers() {
    // Moving a pin from output to interrupt clears its direction bit and
    // then sets its interrupt-enable bit, touching nothing else.
    let mut expectations = construction(DEFAULT_ADDRESS);
    expectations.extend([
        // Input -> Output on pin 3.
        Xact::Write(DEFAULT_ADDRESS, vec![0x14]),
        Xact::Read(DEFAULT_ADDRESS, vec![0x00, 0x00]),
        Xact::Write(DEFAULT_ADDRESS, vec![0x14, 0x08, 0x00]),
        // Output -> Interrupt on pin 3: direction bit cleared...
        Xact::Write(DEFAULT_ADDRESS, vec![0x14]),
        Xact::Read(DEFAULT_ADDRESS, vec![0x08, 0x00]),
        Xact::Write(DEFAULT_ADDRESS, vec![0x14, 0x00, 0x00]),
        // ...then interrupt-enable bit set.
        Xact::Write(DEFAULT_ADDRESS, vec![0x08]),
        Xact::Read(DEFAULT_ADDRESS, vec![0x00, 0x00]),
        Xact::Write(DEFAULT_ADDRESS, vec![0x08, 0x08, 0x00]),
    ]);
    let i2c = MockBus::new(&expectations);
    let script = i2c.clone();
    let mut stmpe1600 = Stmpe1600Builder::new(i2c).build().unwrap();
    let pin = stmpe1600.pin_output(3).unwrap();
    drop(pin);
    let pin = stmpe1600.pin_interrupt(3).unwrap();
    drop(pin);
    script.assert_done();
}

#[test]
fn interrupt_pin_reads_monitor_register() {
    let mut expectations = construction(DEFAULT_ADDRESS);
    expectations.extend([
        // Input -> Interrupt on pin 1.
        Xact::Write(DEFAULT_ADDRESS, vec![0x08]),
        Xact::Read(DEFAULT_ADDRESS, vec![0x00, 0x00]),
        Xact::Write(DEFAULT_ADDRESS, vec![0x08, 0x02, 0x00]),
        // Its level comes from the monitor register.
        Xact::Write(DEFAULT_ADDRESS, vec![0x10]),
        Xact::Read(DEFAULT_ADDRESS, vec![0x02, 0x00]),
    ]);
    let i2c = MockBus::new(&expectations);
    let script = i2c.clone();
    let mut stmpe1600 = Stmpe1600Builder::new(i2c).build().unwrap();
    let mut pin = stmpe1600.pin_interrupt(1).unwrap();
    assert!(pin.is_high().unwrap());
    script.assert_done();
}

#[test]
fn handle_transitions_between_modes() {
    // The consuming transitions on a handle issue the same register
    // sequences as vending: interrupt-enable set on the way in, cleared on
    // the way back.
    let mut expectations = construction(DEFAULT_ADDRESS);
    expectations.extend([
        // Input -> Interrupt on pin 5.
        Xact::Write(DEFAULT_ADDRESS, vec![0x08]),
        Xact::Read(DEFAULT_ADDRESS, vec![0x00, 0x00]),
        Xact::Write(DEFAULT_ADDRESS, vec![0x08, 0x20, 0x00]),
        // Interrupt -> Input on pin 5.
        Xact::Write(DEFAULT_ADDRESS, vec![0x08]),
        Xact::Read(DEFAULT_ADDRESS, vec![0x20, 0x00]),
        Xact::Write(DEFAULT_ADDRESS, vec![0x08, 0x00, 0x00]),
    ]);
    let i2c = MockBus::new(&expectations);
    let script = i2c.clone();
    let mut stmpe1600 = Stmpe1600Builder::new(i2c).build().unwrap();
    let pin = stmpe1600.pin_input(5).unwrap();
    let pin = pin.into_interrupt_pin().unwrap();
    let pin = pin.into_input_pin().unwrap();
    drop(pin);
    script.assert_done();
}

#[test]
fn polarity_inversion_is_legal_in_output_mode() {
    // Polarity inversion is orthogonal to direction: it works on an
    // output pin just as on an input pin.
    let mut expectations = construction(DEFAULT_ADDRESS);
    expectations.extend([
        // Input -> Output on pin 0.
        Xact::Write(DEFAULT_ADDRESS, vec![0x14]),
        Xact::Read(DEFAULT_ADDRESS, vec![0x00, 0x00]),
        Xact::Write(DEFAULT_ADDRESS, vec![0x14, 0x01, 0x00]),
        // Read the polarity-inversion register.
        Xact::Write(DEFAULT_ADDRESS, vec![0x16]),
        Xact::Read(DEFAULT_ADDRESS, vec![0x01, 0x00]),
    ]);
    let i2c = MockBus::new(&expectations);
    let script = i2c.clone();
    let mut stmpe1600 = Stmpe1600Builder::new(i2c).build().unwrap();
    let mut pin = stmpe1600.pin_output(0).unwrap();
    assert_eq!(pin.polarity_inversion().unwrap(), Polarity::High);
    script.assert_done();
}

#[test]
fn bus_fault_on_level_read_surfaces() {
    let mut expectations = construction(DEFAULT_ADDRESS);
    expectations.extend([Xact::FailWrite(DEFAULT_ADDRESS, vec![0x10])]);
    let i2c = MockBus::new(&expectations);
    let script = i2c.clone();
    let mut stmpe1600 = Stmpe1600Builder::new(i2c).build().unwrap();
    let mut pin = stmpe1600.pin_input(0).unwrap();
    let result = pin.is_high();
    assert!(matches!(result, Err(Error::I2CError(_))));
    script.assert_done();
}
