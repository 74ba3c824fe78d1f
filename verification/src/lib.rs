//! Platform-agnostic driver for the STMPE1600 I²C I/O expander.
//!
//! The STMPE1600 provides 16 GPIO pins, each configurable in software as a
//! floating input, a push-pull output, or an interrupt input that asserts
//! the chip's interrupt output line on a transition.
//!
//! The driver is built around two verified cores:
//!
//! * the register access protocol — every register operation issues a fixed
//!   byte sequence over the two-wire bus, recorded in a ghost transaction
//!   log, and each operation's contract states exactly which bytes go out
//!   and how the result relates to the bytes that came back;
//! * the pin-mode state machine — each pin is in exactly one mode (input,
//!   output or interrupt), the in-memory mode table only changes when the
//!   register writes of a transition have succeeded, and every read-modify-
//!   write leaves unrelated pins' bits untouched.
//!
//! The bus itself is an external collaborator: anything that implements
//! [`I2cBus`](bus::I2cBus) can carry the driver, and the driver's contracts
//! hold for every answer the bus can give.
//!
//! To construct the driver, use [`Stmpe1600Builder`]; to access the I/O
//! pins, call [`Stmpe1600::pin_input`], [`Stmpe1600::pin_output`] or
//! [`Stmpe1600::pin_interrupt`], which return a [`Pin`] whose type records
//! the mode it was vended in.

use vstd::prelude::*;

pub mod bits;
mod builder;
pub mod bus;
mod device;
pub mod pins;

pub use builder::Stmpe1600Builder;
pub use device::{Register, Stmpe1600Device, Txn, DEVICE_ID};
pub use pins::{Input, Interrupt, Output, Pin};

use crate::bits::{bit16, set_bit_spec};
use crate::bus::I2cBus;
use crate::device::{aborted_logged, bit_rmw_logged, read16_logged, rmw16_txns, rmw_aborted_logged};

verus! {

/// The default bus address of the expander.
pub const DEFAULT_ADDRESS: u8 = 0x42;

/// The mode a pin of the expander is configured in: exactly one of these is
/// active for each pin at any time.
#[derive(Clone, Copy, Debug, PartialEq, Eq, Structural)]
pub enum PinMode {
    /// Floating input; readable, never driven.
    Input,
    /// Push-pull output; driven, not monitored.
    Output,
    /// Input that asserts the interrupt output line on a transition.
    Interrupt,
}

/// Input/interrupt polarity.
#[derive(Clone, Copy, Debug, PartialEq, Eq, Structural)]
pub enum Polarity {
    /// Active low.
    Low,
    /// Active high.
    High,
}

/// The errors that can occur while interacting with the expander.
#[derive(Debug)]
pub enum Error<E> {
    /// The underlying bus transaction failed; the fault is surfaced
    /// unchanged and never retried.
    I2CError(E),
    /// The chip did not report the expected identity at construction.
    InvalidDeviceID,
}

/// The STMPE1600 device driver: the register transport together with the
/// per-pin mode table.
pub struct Stmpe1600<B> {
    device: Stmpe1600Device<B>,
    pins: [PinMode; 16],
}

impl<B: I2cBus> Stmpe1600<B> {
    /// The full history of bus transactions this driver has issued.
    pub closed spec fn log(&self) -> Seq<Txn> {
        self.device.log()
    }

    /// The bus address the driver talks to.
    pub closed spec fn address_spec(&self) -> u8 {
        self.device.address_spec()
    }

    /// The in-memory mode table: entry `i` is the configured mode of pin
    /// `i`.
    pub closed spec fn pins_spec(&self) -> Seq<PinMode> {
        self.pins@
    }

    pub(crate) fn assemble(device: Stmpe1600Device<B>, pins: [PinMode; 16]) -> (s: Stmpe1600<B>)
        ensures
            s.log() == device.log(),
            s.address_spec() == device.address_spec(),
            s.pins_spec() == pins@,
    {
        Stmpe1600 { device, pins }
    }

    pub(crate) fn dev_read_reg(&mut self, register: Register) -> (r: Result<
        u16,
        Error<B::BusError>,
    >)
        ensures
            final(self).address_spec() == old(self).address_spec(),
            final(self).pins_spec() == old(self).pins_spec(),
            r matches Ok(v) ==> read16_logged(
                old(self).log(),
                final(self).log(),
                old(self).address_spec(),
                register,
                v,
            ),
            r matches Err(e) ==> e matches Error::I2CError(_) && aborted_logged(
                old(self).log(),
                final(self).log(),
                old(self).address_spec(),
                register,
            ),
    {
        self.device.read_reg(register)
    }

    /// Read-modify-write of one bit: read `register`, force bit `pin` of
    /// the value just read to `bit`, write the result back. Every other bit
    /// of the written value is exactly the bit that was read, so unrelated
    /// pins' configuration is never disturbed.
    pub(crate) fn rmw_bit(&mut self, register: Register, pin: u8, bit: bool) -> (r: Result<
        (),
        Error<B::BusError>,
    >)
        requires
            pin < 16,
        ensures
            final(self).address_spec() == old(self).address_spec(),
            final(self).pins_spec() == old(self).pins_spec(),
            r matches Ok(()) ==> bit_rmw_logged(
                old(self).log(),
                final(self).log(),
                old(self).address_spec(),
                register,
                pin as u16,
                bit,
            ),
            r matches Err(e) ==> e matches Error::I2CError(_) && rmw_aborted_logged(
                old(self).log(),
                final(self).log(),
                old(self).address_spec(),
                register,
            ),
    {
        let value = match self.device.read_reg(register) {
            Ok(v) => v,
            Err(e) => {
                return Err(e);
            },
        };
        let written = crate::bits::set_bit(value, pin, bit);
        match self.device.write_reg(register, written) {
            Ok(()) => {
                proof {
                    assert(self.log() == old(self).log() + rmw16_txns(
                        old(self).address_spec(),
                        register,
                        value,
                        set_bit_spec(value, pin as u16, bit),
                    )) by {
                        assert(self.log() =~= old(self).log() + rmw16_txns(
                            old(self).address_spec(),
                            register,
                            value,
                            set_bit_spec(value, pin as u16, bit),
                        ));
                    }
                }
                Ok(())
            },
            Err(e) => Err(e),
        }
    }

    pub(crate) fn mode_of(&self, pin: u8) -> (m: PinMode)
        requires
            pin < 16,
        ensures
            m == self.pins_spec()[pin as int],
    {
        self.pins[pin as usize]
    }

    pub(crate) fn record_mode(&mut self, pin: u8, mode: PinMode)
        requires
            pin < 16,
        ensures
            final(self).pins_spec() == old(self).pins_spec().update(pin as int, mode),
            final(self).log() == old(self).log(),
            final(self).address_spec() == old(self).address_spec(),
    {
        self.pins[pin as usize] = mode;
    }

    /// Create a [`Pin`] for the given pin index, configured in input mode.
    ///
    /// If the pin is not already configured in input mode, the mode is
    /// changed automatically: the transition issues its read-modify-write
    /// register sequence, and the mode table is updated only if every
    /// register write succeeded. A pin that is already in input mode is
    /// vended without any bus traffic.
    pub fn pin_input(&mut self, pin: u8) -> (r: Result<Pin<'_, B, Input>, Error<B::BusError>>)
        requires
            pin < 16,
        ensures
            r matches Ok(p) ==> {
                &&& p.wf()
                &&& p.pin_no() == pin
                &&& p.session().address_spec() == old(self).address_spec()
                &&& p.session().pins_spec() == old(self).pins_spec().update(
                    pin as int,
                    PinMode::Input,
                )
                &&& pins::transition_logged(
                    old(self).log(),
                    p.session().log(),
                    old(self).address_spec(),
                    pin as u16,
                    old(self).pins_spec()[pin as int],
                    PinMode::Input,
                )
            },
            old(self).pins_spec()[pin as int] == PinMode::Input ==> r matches Ok(_),
            r matches Err(e) ==> {
                &&& e matches Error::I2CError(_)
                &&& final(self).pins_spec() == old(self).pins_spec()
                &&& final(self).address_spec() == old(self).address_spec()
            },
    {
        let mode = self.mode_of(pin);
        match mode {
            PinMode::Input => {
                proof {
                    assert(old(self).pins_spec().update(pin as int, PinMode::Input) =~= old(
                        self,
                    ).pins_spec());
                }
            },
            PinMode::Output => {
                match self.rmw_bit(Register::GPDR, pin, false) {
                    Ok(()) => {},
                    Err(e) => {
                        return Err(e);
                    },
                }
                self.record_mode(pin, PinMode::Input);
            },
            PinMode::Interrupt => {
                match self.rmw_bit(Register::IEGPIOR, pin, false) {
                    Ok(()) => {},
                    Err(e) => {
                        return Err(e);
                    },
                }
                self.record_mode(pin, PinMode::Input);
            },
        }
        Ok(Pin::new(self, pin))
    }

    /// Create a [`Pin`] for the given pin index, configured in output mode.
    ///
    /// If the pin is not already configured in output mode, the mode is
    /// changed automatically: the transition issues its read-modify-write
    /// register sequence, and the mode table is updated only if every
    /// register write succeeded. A pin that is already in output mode is
    /// vended without any bus traffic.
    pub fn pin_output(&mut self, pin: u8) -> (r: Result<Pin<'_, B, Output>, Error<B::BusError>>)
        requires
            pin < 16,
        ensures
            r matches Ok(p) ==> {
                &&& p.wf()
                &&& p.pin_no() == pin
                &&& p.session().address_spec() == old(self).address_spec()
                &&& p.session().pins_spec() == old(self).pins_spec().update(
                    pin as int,
                    PinMode::Output,
                )
                &&& pins::transition_logged(
                    old(self).log(),
                    p.session().log(),
                    old(self).address_spec(),
                    pin as u16,
                    old(self).pins_spec()[pin as int],
                    PinMode::Output,
                )
            },
            old(self).pins_spec()[pin as int] == PinMode::Output ==> r matches Ok(_),
            r matches Err(e) ==> {
                &&& e matches Error::I2CError(_)
                &&& final(self).pins_spec() == old(self).pins_spec()
                &&& final(self).address_spec() == old(self).address_spec()
            },
    {
        let mode = self.mode_of(pin);
        match mode {
            PinMode::Input => {
                match self.rmw_bit(Register::GPDR, pin, true) {
                    Ok(()) => {},
                    Err(e) => {
                        return Err(e);
                    },
                }
                self.record_mode(pin, PinMode::Output);
            },
            PinMode::Output => {
                proof {
                    assert(old(self).pins_spec().update(pin as int, PinMode::Output) =~= old(
                        self,
                    ).pins_spec());
                }
            },
            PinMode::Interrupt => {
                match self.rmw_bit(Register::GPDR, pin, true) {
                    Ok(()) => {},
                    Err(e) => {
                        return Err(e);
                    },
                }
                match self.rmw_bit(Register::IEGPIOR, pin, false) {
                    Ok(()) => {},
                    Err(e) => {
                        return Err(e);
                    },
                }
                self.record_mode(pin, PinMode::Output);
            },
        }
        Ok(Pin::new(self, pin))
    }

    /// Create a [`Pin`] for the given pin index, configured in interrupt
    /// mode.
    ///
    /// If the pin is not already configured in interrupt mode, the mode is
    /// changed automatically: the transition issues its read-modify-write
    /// register sequence, and the mode table is updated only if every
    /// register write succeeded. A pin that is already in interrupt mode is
    /// vended without any bus traffic.
    pub fn pin_interrupt(&mut self, pin: u8) -> (r: Result<
        Pin<'_, B, Interrupt>,
        Error<B::BusError>,
    >)
        requires
            pin < 16,
        ensures
            r matches Ok(p) ==> {
                &&& p.wf()
                &&& p.pin_no() == pin
                &&& p.session().address_spec() == old(self).address_spec()
                &&& p.session().pins_spec() == old(self).pins_spec().update(
                    pin as int,
                    PinMode::Interrupt,
                )
                &&& pins::transition_logged(
                    old(self).log(),
                    p.session().log(),
                    old(self).address_spec(),
                    pin as u16,
                    old(self).pins_spec()[pin as int],
                    PinMode::Interrupt,
                )
            },
            old(self).pins_spec()[pin as int] == PinMode::Interrupt ==> r matches Ok(_),
            r matches Err(e) ==> {
                &&& e matches Error::I2CError(_)
                &&& final(self).pins_spec() == old(self).pins_spec()
                &&& final(self).address_spec() == old(self).address_spec()
            },
    {
        let mode = self.mode_of(pin);
        match mode {
            PinMode::Input => {
                match self.rmw_bit(Register::IEGPIOR, pin, true) {
                    Ok(()) => {},
                    Err(e) => {
                        return Err(e);
                    },
                }
                self.record_mode(pin, PinMode::Interrupt);
            },
            PinMode::Output => {
                match self.rmw_bit(Register::GPDR, pin, false) {
                    Ok(()) => {},
                    Err(e) => {
                        return Err(e);
                    },
                }
                match self.rmw_bit(Register::IEGPIOR, pin, true) {
                    Ok(()) => {},
                    Err(e) => {
                        return Err(e);
                    },
                }
                self.record_mode(pin, PinMode::Interrupt);
            },
            PinMode::Interrupt => {
                proof {
                    assert(old(self).pins_spec().update(pin as int, PinMode::Interrupt) =~= old(
                        self,
                    ).pins_spec());
                }
            },
        }
        Ok(Pin::new(self, pin))
    }

    /// Read the pending interrupts and return them as one flag per pin:
    /// entry `i` is true iff bit `i` of the just-read interrupt-status
    /// register was set. Reading the status register clears it on the chip,
    /// so this is the only sanctioned way to observe and acknowledge
    /// interrupts.
    pub fn get_interrupts(&mut self) -> (r: Result<[bool; 16], Error<B::BusError>>)
        ensures
            final(self).address_spec() == old(self).address_spec(),
            final(self).pins_spec() == old(self).pins_spec(),
            r matches Ok(arr) ==> exists|v: u16|
                #[trigger] read16_logged(
                    old(self).log(),
                    final(self).log(),
                    old(self).address_spec(),
                    Register::ISGPIOR,
                    v,
                ) && forall|i: u16| i < 16 ==> arr@[i as int] == bit16(v, i),
            r matches Err(e) ==> e matches Error::I2CError(_) && aborted_logged(
                old(self).log(),
                final(self).log(),
                old(self).address_spec(),
                Register::ISGPIOR,
            ),
    {
        let r = self.device.get_interrupts();
        proof {
            if let Ok(arr) = r {
                let v = choose|v: u16|
                    #[trigger] read16_logged(
                        old(self).log(),
                        self.device.log(),
                        old(self).address_spec(),
                        Register::ISGPIOR,
                        v,
                    ) && forall|i: u16| i < 16 ==> arr@[i as int] == bit16(v, i);
                assert(read16_logged(
                    old(self).log(),
                    self.log(),
                    old(self).address_spec(),
                    Register::ISGPIOR,
                    v,
                ));
            }
        }
        r
    }
}

} // verus!
