//! Mode-typed pin handles.
//!
//! A [`Pin`] is a capability-scoped accessor bound to one pin number: its
//! `MODE` type parameter records the mode the pin was vended in, and each
//! mode only offers the operations that are legal in it. Reading a level is
//! offered in [`Input`] and [`Interrupt`] mode, driving a level only in
//! [`Output`] mode, and polarity inversion in every mode; an operation that
//! a mode does not allow cannot even be written down, so no bus transaction
//! is ever wasted on an illegal call.
//!
//! Changing a pin's mode consumes the handle and returns one of the new
//! mode. Every transition is a read-modify-write of the direction or
//! interrupt-enable register (or of both), so the configuration of every
//! other pin is left exactly as it was; the in-memory mode table is updated
//! only after all register writes of the transition have succeeded.

use core::marker::PhantomData;

use vstd::prelude::*;

use crate::bits::{bit16, lemma_set_bit, set_bit_spec};
use crate::bus::I2cBus;
use crate::device::{
    aborted_logged, bit_rmw_logged, read16_logged, rmw_aborted_logged, Register, Txn,
};
use crate::{Error, PinMode, Polarity, Stmpe1600};

verus! {

/// Marker for a pin in floating-input mode.
pub struct Input;

/// Marker for a pin in push-pull-output mode.
pub struct Output;

/// Marker for a pin in interrupt-input mode.
pub struct Interrupt;

/// The bus traffic of one pin-mode transition, from the mode table's point
/// of view: a transition to the mode the pin is already in issues nothing
/// at all, and every other transition is one read-modify-write of the
/// direction register, or of the interrupt-enable register, or of both in
/// that order, each forcing only bit `pin`.
pub open spec fn transition_logged(
    pre: Seq<Txn>,
    post: Seq<Txn>,
    addr: u8,
    pin: u16,
    from: PinMode,
    to: PinMode,
) -> bool {
    match (from, to) {
        (PinMode::Input, PinMode::Input) => post == pre,
        (PinMode::Output, PinMode::Output) => post == pre,
        (PinMode::Interrupt, PinMode::Interrupt) => post == pre,
        (PinMode::Input, PinMode::Output) => bit_rmw_logged(
            pre,
            post,
            addr,
            Register::GPDR,
            pin,
            true,
        ),
        (PinMode::Input, PinMode::Interrupt) => bit_rmw_logged(
            pre,
            post,
            addr,
            Register::IEGPIOR,
            pin,
            true,
        ),
        (PinMode::Output, PinMode::Input) => bit_rmw_logged(
            pre,
            post,
            addr,
            Register::GPDR,
            pin,
            false,
        ),
        (PinMode::Output, PinMode::Interrupt) => exists|mid: Seq<Txn>|
            #[trigger] bit_rmw_logged(pre, mid, addr, Register::GPDR, pin, false)
                && bit_rmw_logged(mid, post, addr, Register::IEGPIOR, pin, true),
        (PinMode::Interrupt, PinMode::Input) => bit_rmw_logged(
            pre,
            post,
            addr,
            Register::IEGPIOR,
            pin,
            false,
        ),
        (PinMode::Interrupt, PinMode::Output) => exists|mid: Seq<Txn>|
            #[trigger] bit_rmw_logged(pre, mid, addr, Register::GPDR, pin, true)
                && bit_rmw_logged(mid, post, addr, Register::IEGPIOR, pin, false),
    }
}

/// The chip-side register images agree with the in-memory mode table:
/// bit `j` of the direction register is set iff pin `j` is an output, and
/// bit `j` of the interrupt-enable register is set iff pin `j` is an
/// interrupt input.
pub open spec fn regs_match_table(dir: u16, ie: u16, pins: Seq<PinMode>) -> bool {
    &&& pins.len() == 16
    &&& forall|j: u16| j < 16 ==> #[trigger] bit16(dir, j) == (pins[j as int] == PinMode::Output)
    &&& forall|j: u16| j < 16 ==> #[trigger] bit16(ie, j) == (pins[j as int] == PinMode::Interrupt)
}

/// A mode transition keeps the registers in agreement with the mode table:
/// if the direction and interrupt-enable values a transition read back
/// agreed with the table, then the values it writes back (the read values
/// with only bit `pin` forced) agree with the table updated at `pin`.
pub proof fn lemma_transition_keeps_agreement(
    dir: u16,
    ie: u16,
    pins: Seq<PinMode>,
    pin: u16,
    to: PinMode,
)
    requires
        pin < 16,
        regs_match_table(dir, ie, pins),
    ensures
        regs_match_table(
            set_bit_spec(dir, pin, to == PinMode::Output),
            set_bit_spec(ie, pin, to == PinMode::Interrupt),
            pins.update(pin as int, to),
        ),
{
    lemma_set_bit(dir, pin, to == PinMode::Output);
    lemma_set_bit(ie, pin, to == PinMode::Interrupt);
    let dir2 = set_bit_spec(dir, pin, to == PinMode::Output);
    let ie2 = set_bit_spec(ie, pin, to == PinMode::Interrupt);
    let pins2 = pins.update(pin as int, to);
    assert forall|j: u16| j < 16 implies #[trigger] bit16(dir2, j) == (pins2[j as int]
        == PinMode::Output) by {
        if j != pin {
            assert(bit16(dir2, j) == bit16(dir, j));
            assert(pins2[j as int] == pins[j as int]);
        }
    }
    assert forall|j: u16| j < 16 implies #[trigger] bit16(ie2, j) == (pins2[j as int]
        == PinMode::Interrupt) by {
        if j != pin {
            assert(bit16(ie2, j) == bit16(ie, j));
            assert(pins2[j as int] == pins[j as int]);
        }
    }
}

/// For every pin index and every target mode, the value a transition
/// writes to the direction register carries bit `pin` equal to "the target
/// mode is output", the value it writes to the interrupt-enable register
/// carries bit `pin` equal to "the target mode is interrupt", and every
/// other bit of each written value is exactly the bit that was just read
/// back from the chip.
pub proof fn lemma_transition_writes(pin: u16, to: PinMode, dir_read: u16, ie_read: u16)
    requires
        pin < 16,
    ensures
        bit16(set_bit_spec(dir_read, pin, to == PinMode::Output), pin) == (to == PinMode::Output),
        forall|j: u16|
            j < 16 && j != pin ==> bit16(set_bit_spec(dir_read, pin, to == PinMode::Output), j)
                == bit16(dir_read, j),
        bit16(set_bit_spec(ie_read, pin, to == PinMode::Interrupt), pin) == (to
            == PinMode::Interrupt),
        forall|j: u16|
            j < 16 && j != pin ==> bit16(set_bit_spec(ie_read, pin, to == PinMode::Interrupt), j)
                == bit16(ie_read, j),
{
    lemma_set_bit(dir_read, pin, to == PinMode::Output);
    lemma_set_bit(ie_read, pin, to == PinMode::Interrupt);
}

/// A single I/O pin of the expander.
///
/// `Pin` takes a `MODE` type argument, one of [`Input`], [`Output`] or
/// [`Interrupt`], recording which mode of operation the pin is configured
/// for. The mode can be changed with the `into_input_pin`,
/// `into_output_pin` and `into_interrupt_pin` operations, which consume the
/// handle and return one of the new mode.
pub struct Pin<'a, B, MODE> {
    driver: &'a mut Stmpe1600<B>,
    pin: u8,
    _mode: PhantomData<MODE>,
}

impl<'a, B: I2cBus, MODE> Pin<'a, B, MODE> {
    /// The index of the pin this handle is bound to.
    pub closed spec fn pin_no(&self) -> u8 {
        self.pin
    }

    /// The current state of the driver this handle borrows.
    pub closed spec fn session(&self) -> Stmpe1600<B> {
        *self.driver
    }

    /// The handle is bound to one of the sixteen pins.
    pub open spec fn wf(&self) -> bool {
        self.pin_no() < 16
    }

    pub(crate) fn new(driver: &'a mut Stmpe1600<B>, pin: u8) -> (p: Pin<'a, B, MODE>)
        requires
            pin < 16,
        ensures
            p.wf(),
            p.pin_no() == pin,
            p.session() == *old(driver),
    {
        Pin { driver, pin, _mode: PhantomData }
    }

    /// Get the polarity inversion of the pin: [`Polarity::High`] iff the
    /// pin's bit of the polarity-inversion register is set. Legal in every
    /// mode.
    pub fn polarity_inversion(&mut self) -> (r: Result<Polarity, Error<B::BusError>>)
        requires
            old(self).wf(),
        ensures
            final(self).wf(),
            final(self).pin_no() == old(self).pin_no(),
            final(self).session().address_spec() == old(self).session().address_spec(),
            final(self).session().pins_spec() == old(self).session().pins_spec(),
            r matches Ok(p) ==> exists|v: u16|
                #[trigger] read16_logged(
                    old(self).session().log(),
                    final(self).session().log(),
                    old(self).session().address_spec(),
                    Register::GPPIR,
                    v,
                ) && p == (if bit16(v, old(self).pin_no() as u16) {
                    Polarity::High
                } else {
                    Polarity::Low
                }),
            r matches Err(e) ==> e matches Error::I2CError(_) && aborted_logged(
                old(self).session().log(),
                final(self).session().log(),
                old(self).session().address_spec(),
                Register::GPPIR,
            ),
    {
        let pin = self.pin;
        let gppir = match self.driver.dev_read_reg(Register::GPPIR) {
            Ok(v) => v,
            Err(e) => {
                return Err(e);
            },
        };
        if crate::bits::test_bit(gppir, pin) {
            Ok(Polarity::High)
        } else {
            Ok(Polarity::Low)
        }
    }

    /// Set the polarity inversion of the pin: force the pin's bit of the
    /// polarity-inversion register to `polarity`, leaving every other
    /// pin's bit untouched. Legal in every mode.
    pub fn set_polarity_inversion(&mut self, polarity: Polarity) -> (r: Result<
        (),
        Error<B::BusError>,
    >)
        requires
            old(self).wf(),
        ensures
            final(self).wf(),
            final(self).pin_no() == old(self).pin_no(),
            final(self).session().address_spec() == old(self).session().address_spec(),
            final(self).session().pins_spec() == old(self).session().pins_spec(),
            r matches Ok(()) ==> bit_rmw_logged(
                old(self).session().log(),
                final(self).session().log(),
                old(self).session().address_spec(),
                Register::GPPIR,
                old(self).pin_no() as u16,
                polarity == Polarity::High,
            ),
            r matches Err(e) ==> e matches Error::I2CError(_) && rmw_aborted_logged(
                old(self).session().log(),
                final(self).session().log(),
                old(self).session().address_spec(),
                Register::GPPIR,
            ),
    {
        let pin = self.pin;
        let bit = match polarity {
            Polarity::Low => false,
            Polarity::High => true,
        };
        self.driver.rmw_bit(Register::GPPIR, pin, bit)
    }
}

impl<'a, B: I2cBus> Pin<'a, B, Input> {
    /// Configure the pin as an output pin: set its direction-register bit.
    pub fn into_output_pin(self) -> (r: Result<Pin<'a, B, Output>, Error<B::BusError>>)
        requires
            self.wf(),
        ensures
            r matches Ok(p) ==> {
                &&& p.wf()
                &&& p.pin_no() == self.pin_no()
                &&& p.session().address_spec() == self.session().address_spec()
                &&& p.session().pins_spec() == self.session().pins_spec().update(
                    self.pin_no() as int,
                    PinMode::Output,
                )
                &&& transition_logged(
                    self.session().log(),
                    p.session().log(),
                    self.session().address_spec(),
                    self.pin_no() as u16,
                    PinMode::Input,
                    PinMode::Output,
                )
            },
            r matches Err(e) ==> e matches Error::I2CError(_),
    {
        let Pin { driver, pin, .. } = self;
        match driver.rmw_bit(Register::GPDR, pin, true) {
            Ok(()) => {},
            Err(e) => {
                return Err(e);
            },
        }
        driver.record_mode(pin, PinMode::Output);
        Ok(Pin { driver, pin, _mode: PhantomData })
    }

    /// Configure the pin as an interrupt pin: set its interrupt-enable
    /// register bit.
    pub fn into_interrupt_pin(self) -> (r: Result<Pin<'a, B, Interrupt>, Error<B::BusError>>)
        requires
            self.wf(),
        ensures
            r matches Ok(p) ==> {
                &&& p.wf()
                &&& p.pin_no() == self.pin_no()
                &&& p.session().address_spec() == self.session().address_spec()
                &&& p.session().pins_spec() == self.session().pins_spec().update(
                    self.pin_no() as int,
                    PinMode::Interrupt,
                )
                &&& transition_logged(
                    self.session().log(),
                    p.session().log(),
                    self.session().address_spec(),
                    self.pin_no() as u16,
                    PinMode::Input,
                    PinMode::Interrupt,
                )
            },
            r matches Err(e) ==> e matches Error::I2CError(_),
    {
        let Pin { driver, pin, .. } = self;
        match driver.rmw_bit(Register::IEGPIOR, pin, true) {
            Ok(()) => {},
            Err(e) => {
                return Err(e);
            },
        }
        driver.record_mode(pin, PinMode::Interrupt);
        Ok(Pin { driver, pin, _mode: PhantomData })
    }

    /// The pin reads high: the pin's bit of the monitor register is set.
    pub fn is_high(&mut self) -> (r: Result<bool, Error<B::BusError>>)
        requires
            old(self).wf(),
        ensures
            final(self).wf(),
            final(self).pin_no() == old(self).pin_no(),
            final(self).session().address_spec() == old(self).session().address_spec(),
            final(self).session().pins_spec() == old(self).session().pins_spec(),
            r matches Ok(b) ==> exists|v: u16|
                #[trigger] read16_logged(
                    old(self).session().log(),
                    final(self).session().log(),
                    old(self).session().address_spec(),
                    Register::GPMR,
                    v,
                ) && b == bit16(v, old(self).pin_no() as u16),
            r matches Err(e) ==> e matches Error::I2CError(_) && aborted_logged(
                old(self).session().log(),
                final(self).session().log(),
                old(self).session().address_spec(),
                Register::GPMR,
            ),
    {
        let pin = self.pin;
        let mask = match self.driver.dev_read_reg(Register::GPMR) {
            Ok(v) => v,
            Err(e) => {
                return Err(e);
            },
        };
        Ok(crate::bits::test_bit(mask, pin))
    }

    /// The pin reads low: the pin's bit of the monitor register is clear.
    pub fn is_low(&mut self) -> (r: Result<bool, Error<B::BusError>>)
        requires
            old(self).wf(),
        ensures
            final(self).wf(),
            final(self).pin_no() == old(self).pin_no(),
            final(self).session().address_spec() == old(self).session().address_spec(),
            final(self).session().pins_spec() == old(self).session().pins_spec(),
            r matches Ok(b) ==> exists|v: u16|
                #[trigger] read16_logged(
                    old(self).session().log(),
                    final(self).session().log(),
                    old(self).session().address_spec(),
                    Register::GPMR,
                    v,
                ) && b == !bit16(v, old(self).pin_no() as u16),
            r matches Err(e) ==> e matches Error::I2CError(_) && aborted_logged(
                old(self).session().log(),
                final(self).session().log(),
                old(self).session().address_spec(),
                Register::GPMR,
            ),
    {
        let pin = self.pin;
        let mask = match self.driver.dev_read_reg(Register::GPMR) {
            Ok(v) => v,
            Err(e) => {
                return Err(e);
            },
        };
        Ok(!crate::bits::test_bit(mask, pin))
    }
}

impl<'a, B: I2cBus> Pin<'a, B, Output> {
    /// Configure the pin as an input pin: clear its direction-register bit.
    pub fn into_input_pin(self) -> (r: Result<Pin<'a, B, Input>, Error<B::BusError>>)
        requires
            self.wf(),
        ensures
            r matches Ok(p) ==> {
                &&& p.wf()
                &&& p.pin_no() == self.pin_no()
                &&& p.session().address_spec() == self.session().address_spec()
                &&& p.session().pins_spec() == self.session().pins_spec().update(
                    self.pin_no() as int,
                    PinMode::Input,
                )
                &&& transition_logged(
                    self.session().log(),
                    p.session().log(),
                    self.session().address_spec(),
                    self.pin_no() as u16,
                    PinMode::Output,
                    PinMode::Input,
                )
            },
            r matches Err(e) ==> e matches Error::I2CError(_),
    {
        let Pin { driver, pin, .. } = self;
        match driver.rmw_bit(Register::GPDR, pin, false) {
            Ok(()) => {},
            Err(e) => {
                return Err(e);
            },
        }
        driver.record_mode(pin, PinMode::Input);
        Ok(Pin { driver, pin, _mode: PhantomData })
    }

    /// Configure the pin as an interrupt pin: clear its direction-register
    /// bit, then set its interrupt-enable register bit.
    pub fn into_interrupt_pin(self) -> (r: Result<Pin<'a, B, Interrupt>, Error<B::BusError>>)
        requires
            self.wf(),
        ensures
            r matches Ok(p) ==> {
                &&& p.wf()
                &&& p.pin_no() == self.pin_no()
                &&& p.session().address_spec() == self.session().address_spec()
                &&& p.session().pins_spec() == self.session().pins_spec().update(
                    self.pin_no() as int,
                    PinMode::Interrupt,
                )
                &&& transition_logged(
                    self.session().log(),
                    p.session().log(),
                    self.session().address_spec(),
                    self.pin_no() as u16,
                    PinMode::Output,
                    PinMode::Interrupt,
                )
            },
            r matches Err(e) ==> e matches Error::I2CError(_),
    {
        let Pin { driver, pin, .. } = self;
        match driver.rmw_bit(Register::GPDR, pin, false) {
            Ok(()) => {},
            Err(e) => {
                return Err(e);
            },
        }
        match driver.rmw_bit(Register::IEGPIOR, pin, true) {
            Ok(()) => {},
            Err(e) => {
                return Err(e);
            },
        }
        driver.record_mode(pin, PinMode::Interrupt);
        Ok(Pin { driver, pin, _mode: PhantomData })
    }

    /// Drive the pin high: force the pin's bit of the pin-level set
    /// register to one, leaving every other pin's bit untouched.
    pub fn set_high(&mut self) -> (r: Result<(), Error<B::BusError>>)
        requires
            old(self).wf(),
        ensures
            final(self).wf(),
            final(self).pin_no() == old(self).pin_no(),
            final(self).session().address_spec() == old(self).session().address_spec(),
            final(self).session().pins_spec() == old(self).session().pins_spec(),
            r matches Ok(()) ==> bit_rmw_logged(
                old(self).session().log(),
                final(self).session().log(),
                old(self).session().address_spec(),
                Register::GPSR,
                old(self).pin_no() as u16,
                true,
            ),
            r matches Err(e) ==> e matches Error::I2CError(_) && rmw_aborted_logged(
                old(self).session().log(),
                final(self).session().log(),
                old(self).session().address_spec(),
                Register::GPSR,
            ),
    {
        let pin = self.pin;
        self.driver.rmw_bit(Register::GPSR, pin, true)
    }

    /// Drive the pin low: force the pin's bit of the pin-level set
    /// register to zero, leaving every other pin's bit untouched.
    pub fn set_low(&mut self) -> (r: Result<(), Error<B::BusError>>)
        requires
            old(self).wf(),
        ensures
            final(self).wf(),
            final(self).pin_no() == old(self).pin_no(),
            final(self).session().address_spec() == old(self).session().address_spec(),
            final(self).session().pins_spec() == old(self).session().pins_spec(),
            r matches Ok(()) ==> bit_rmw_logged(
                old(self).session().log(),
                final(self).session().log(),
                old(self).session().address_spec(),
                Register::GPSR,
                old(self).pin_no() as u16,
                false,
            ),
            r matches Err(e) ==> e matches Error::I2CError(_) && rmw_aborted_logged(
                old(self).session().log(),
                final(self).session().log(),
                old(self).session().address_spec(),
                Register::GPSR,
            ),
    {
        let pin = self.pin;
        self.driver.rmw_bit(Register::GPSR, pin, false)
    }
}

impl<'a, B: I2cBus> Pin<'a, B, Interrupt> {
    /// Configure the pin as an input pin: clear its interrupt-enable
    /// register bit.
    pub fn into_input_pin(self) -> (r: Result<Pin<'a, B, Input>, Error<B::BusError>>)
        requires
            self.wf(),
        ensures
            r matches Ok(p) ==> {
                &&& p.wf()
                &&& p.pin_no() == self.pin_no()
                &&& p.session().address_spec() == self.session().address_spec()
                &&& p.session().pins_spec() == self.session().pins_spec().update(
                    self.pin_no() as int,
                    PinMode::Input,
                )
                &&& transition_logged(
                    self.session().log(),
                    p.session().log(),
                    self.session().address_spec(),
                    self.pin_no() as u16,
                    PinMode::Interrupt,
                    PinMode::Input,
                )
            },
            r matches Err(e) ==> e matches Error::I2CError(_),
    {
        let Pin { driver, pin, .. } = self;
        match driver.rmw_bit(Register::IEGPIOR, pin, false) {
            Ok(()) => {},
            Err(e) => {
                return Err(e);
            },
        }
        driver.record_mode(pin, PinMode::Input);
        Ok(Pin { driver, pin, _mode: PhantomData })
    }

    /// Configure the pin as an output pin: set its direction-register bit,
    /// then clear its interrupt-enable register bit.
    pub fn into_output_pin(self) -> (r: Result<Pin<'a, B, Output>, Error<B::BusError>>)
        requires
            self.wf(),
        ensures
            r matches Ok(p) ==> {
                &&& p.wf()
                &&& p.pin_no() == self.pin_no()
                &&& p.session().address_spec() == self.session().address_spec()
                &&& p.session().pins_spec() == self.session().pins_spec().update(
                    self.pin_no() as int,
                    PinMode::Output,
                )
                &&& transition_logged(
                    self.session().log(),
                    p.session().log(),
                    self.session().address_spec(),
                    self.pin_no() as u16,
                    PinMode::Interrupt,
                    PinMode::Output,
                )
            },
            r matches Err(e) ==> e matches Error::I2CError(_),
    {
        let Pin { driver, pin, .. } = self;
        match driver.rmw_bit(Register::GPDR, pin, true) {
            Ok(()) => {},
            Err(e) => {
                return Err(e);
            },
        }
        match driver.rmw_bit(Register::IEGPIOR, pin, false) {
            Ok(()) => {},
            Err(e) => {
                return Err(e);
            },
        }
        driver.record_mode(pin, PinMode::Output);
        Ok(Pin { driver, pin, _mode: PhantomData })
    }

    /// The pin reads high: the pin's bit of the monitor register is set.
    pub fn is_high(&mut self) -> (r: Result<bool, Error<B::BusError>>)
        requires
            old(self).wf(),
        ensures
            final(self).wf(),
            final(self).pin_no() == old(self).pin_no(),
            final(self).session().address_spec() == old(self).session().address_spec(),
            final(self).session().pins_spec() == old(self).session().pins_spec(),
            r matches Ok(b) ==> exists|v: u16|
                #[trigger] read16_logged(
                    old(self).session().log(),
                    final(self).session().log(),
                    old(self).session().address_spec(),
                    Register::GPMR,
                    v,
                ) && b == bit16(v, old(self).pin_no() as u16),
            r matches Err(e) ==> e matches Error::I2CError(_) && aborted_logged(
                old(self).session().log(),
                final(self).session().log(),
                old(self).session().address_spec(),
                Register::GPMR,
            ),
    {
        let pin = self.pin;
        let mask = match self.driver.dev_read_reg(Register::GPMR) {
            Ok(v) => v,
            Err(e) => {
                return Err(e);
            },
        };
        Ok(crate::bits::test_bit(mask, pin))
    }

    /// The pin reads low: the pin's bit of the monitor register is clear.
    pub fn is_low(&mut self) -> (r: Result<bool, Error<B::BusError>>)
        requires
            old(self).wf(),
        ensures
            final(self).wf(),
            final(self).pin_no() == old(self).pin_no(),
            final(self).session().address_spec() == old(self).session().address_spec(),
            final(self).session().pins_spec() == old(self).session().pins_spec(),
            r matches Ok(b) ==> exists|v: u16|
                #[trigger] read16_logged(
                    old(self).session().log(),
                    final(self).session().log(),
                    old(self).session().address_spec(),
                    Register::GPMR,
                    v,
                ) && b == !bit16(v, old(self).pin_no() as u16),
            r matches Err(e) ==> e matches Error::I2CError(_) && aborted_logged(
                old(self).session().log(),
                final(self).session().log(),
                old(self).session().address_spec(),
                Register::GPMR,
            ),
    {
        let pin = self.pin;
        let mask = match self.driver.dev_read_reg(Register::GPMR) {
            Ok(v) => v,
            Err(e) => {
                return Err(e);
            },
        };
        Ok(!crate::bits::test_bit(mask, pin))
    }
}

} // verus!
