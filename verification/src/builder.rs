//! Construction and configuration of the driver.
//!
//! [`Stmpe1600Builder`] collects the bus address, the initial mode of each
//! pin, and whether the chip's interrupt output should be enabled, then
//! [`build`](Stmpe1600Builder::build) opens the device: it checks the chip
//! identity, issues a soft reset, applies the pin configuration with at
//! most two bulk register writes (the chip resets every pin to input, so a
//! pin that stays an input needs no write at all), and finally enables
//! interrupt generation if it was requested.

use vstd::prelude::*;

use crate::bits::{bit16, high_byte, lemma_set_bit, lemma_zero_bits, low_byte};
use crate::bus::I2cBus;
use crate::device::{
    init_txns, query16_txns, query8_txns, store16_txns, store8_txns, Register, Stmpe1600Device,
    Txn,
};
use crate::{Error, PinMode, Polarity, Stmpe1600, DEFAULT_ADDRESS};

verus! {

/// Bit `n-1` down to bit `0` of the bulk configuration mask for `mode`:
/// bit `i` is set iff pin `i` is assigned `mode`.
pub open spec fn mode_mask(pins: Seq<PinMode>, mode: PinMode, n: int) -> u16
    decreases n,
{
    if n <= 0 {
        0u16
    } else {
        if pins[n - 1] == mode {
            mode_mask(pins, mode, n - 1) | (1u16 << ((n - 1) as u16))
        } else {
            mode_mask(pins, mode, n - 1)
        }
    }
}

/// Bit `i` of the bulk configuration mask for `mode` is set iff pin `i`
/// is assigned `mode`; this is what makes the two bulk writes of
/// construction equivalent to applying one mode transition per configured
/// pin.
pub proof fn lemma_mode_mask_bits(pins: Seq<PinMode>, mode: PinMode, n: int)
    requires
        0 <= n <= 16,
        pins.len() == 16,
    ensures
        forall|i: u16| i < n ==> #[trigger] bit16(mode_mask(pins, mode, n), i) == (pins[i as int]
            == mode),
        forall|i: u16| n <= i < 16 ==> !(#[trigger] bit16(mode_mask(pins, mode, n), i)),
    decreases n,
{
    if n <= 0 {
        lemma_zero_bits();
    } else {
        lemma_mode_mask_bits(pins, mode, n - 1);
        let prev = mode_mask(pins, mode, n - 1);
        let cur = mode_mask(pins, mode, n);
        if pins[n - 1] == mode {
            lemma_set_bit(prev, (n - 1) as u16, true);
            assert(cur == crate::bits::set_bit_spec(prev, (n - 1) as u16, true));
            assert forall|i: u16| i < n implies #[trigger] bit16(cur, i) == (pins[i as int]
                == mode) by {
                if i < n - 1 {
                    assert(bit16(cur, i) == bit16(prev, i));
                } else {
                    assert(i == n - 1);
                }
            }
            assert forall|i: u16| n <= i < 16 implies !(#[trigger] bit16(cur, i)) by {
                assert(bit16(cur, i) == bit16(prev, i));
            }
        } else {
            assert(cur == prev);
            assert forall|i: u16| i < n implies #[trigger] bit16(cur, i) == (pins[i as int]
                == mode) by {
                if i == n - 1 {
                    assert(!bit16(prev, i));
                }
            }
        }
    }
}

/// The two bulk masks of a construction agree with the configured mode
/// table, in the same sense in which every later transition keeps the
/// registers in agreement with it.
pub proof fn lemma_bulk_config_agreement(pins: Seq<PinMode>)
    requires
        pins.len() == 16,
    ensures
        crate::pins::regs_match_table(
            mode_mask(pins, PinMode::Output, 16),
            mode_mask(pins, PinMode::Interrupt, 16),
            pins,
        ),
{
    lemma_mode_mask_bits(pins, PinMode::Output, 16);
    lemma_mode_mask_bits(pins, PinMode::Interrupt, 16);
}

/// The bulk register writes that configure a freshly reset chip: a
/// direction-register write when some pin is an output, then an
/// interrupt-enable register write when some pin is an interrupt input.
/// The chip's reset leaves both registers at zero, so a zero mask needs no
/// write.
pub open spec fn config_txns(addr: u8, dir: u16, ie: u16) -> Seq<Txn> {
    (if dir != 0 {
        store16_txns(addr, Register::GPDR, dir)
    } else {
        Seq::<Txn>::empty()
    }) + (if ie != 0 {
        store16_txns(addr, Register::IEGPIOR, ie)
    } else {
        Seq::<Txn>::empty()
    })
}

/// The bit the system-control register carries for the requested polarity
/// of the interrupt output line.
pub open spec fn polarity_bit(pol: Polarity) -> u8 {
    match pol {
        Polarity::Low => 0x00,
        Polarity::High => 0x01,
    }
}

/// The transactions that enable interrupt generation at construction:
/// read the system-control register (it answered `s0`), write it back
/// with the interrupt-enable bit and the requested polarity bit set, then
/// one throwaway read of the monitor register (it answered `m`) to clear
/// any stale pending state.
pub open spec fn int_enable_txns(addr: u8, s0: u8, pol: Polarity, m: u16) -> Seq<Txn> {
    query8_txns(addr, Register::SystemControl, s0) + store8_txns(
        addr,
        Register::SystemControl,
        s0 | 0x04 | polarity_bit(pol),
    ) + query16_txns(addr, Register::GPMR, low_byte(m), high_byte(m))
}

/// The whole bus history of a successful construction with bulk masks
/// `dir` and `ie` and interrupt request `itr`: identity check and reset,
/// then the bulk configuration writes, then, only if interrupts were
/// requested, the interrupt-output enablement.
pub open spec fn built_logged(
    post: Seq<Txn>,
    addr: u8,
    dir: u16,
    ie: u16,
    itr: Option<Polarity>,
) -> bool {
    match itr {
        None => post == init_txns(addr) + config_txns(addr, dir, ie),
        Some(pol) => exists|s0: u8, m: u16|
            post == init_txns(addr) + config_txns(addr, dir, ie) + #[trigger] int_enable_txns(
                addr,
                s0,
                pol,
                m,
            ),
    }
}

/// A builder that collects the configurable options of the driver before
/// it touches the bus.
pub struct Stmpe1600Builder<B> {
    i2c: B,
    pins: [PinMode; 16],
    address: u8,
    interrupt_polarity: Option<Polarity>,
}

impl<B: I2cBus> Stmpe1600Builder<B> {
    /// The bus address the driver will be opened on.
    pub closed spec fn address_spec(&self) -> u8 {
        self.address
    }

    /// The initial mode each pin will be configured in.
    pub closed spec fn pins_spec(&self) -> Seq<PinMode> {
        self.pins@
    }

    /// The requested interrupt-output polarity, if interrupts were
    /// requested at all.
    pub closed spec fn interrupts_spec(&self) -> Option<Polarity> {
        self.interrupt_polarity
    }

    /// Construct a builder over a bus handle, with the default address,
    /// every pin an input, and interrupts off.
    pub fn new(i2c: B) -> (b: Stmpe1600Builder<B>)
        ensures
            b.address_spec() == DEFAULT_ADDRESS,
            b.pins_spec().len() == 16,
            forall|i: int| 0 <= i < 16 ==> b.pins_spec()[i] == PinMode::Input,
            b.interrupts_spec() is None,
    {
        Stmpe1600Builder {
            i2c,
            pins: [PinMode::Input; 16],
            address: DEFAULT_ADDRESS,
            interrupt_polarity: None,
        }
    }

    /// Set the bus address on which to talk to the chip.
    pub fn address(self, address: u8) -> (b: Stmpe1600Builder<B>)
        ensures
            b.address_spec() == address,
            b.pins_spec() == self.pins_spec(),
            b.interrupts_spec() == self.interrupts_spec(),
    {
        Stmpe1600Builder { address, ..self }
    }

    /// Enable interrupts, with the given polarity of the interrupt output
    /// line.
    pub fn interrupts(self, polarity: Polarity) -> (b: Stmpe1600Builder<B>)
        ensures
            b.address_spec() == self.address_spec(),
            b.pins_spec() == self.pins_spec(),
            b.interrupts_spec() == Some(polarity),
    {
        Stmpe1600Builder { interrupt_polarity: Some(polarity), ..self }
    }

    /// Assign the initial mode of one pin; pins never assigned stay
    /// inputs, the chip's hardware-reset default.
    pub fn pin_mode(self, pin: u8, mode: PinMode) -> (b: Stmpe1600Builder<B>)
        requires
            pin < 16,
        ensures
            b.address_spec() == self.address_spec(),
            b.pins_spec() == self.pins_spec().update(pin as int, mode),
            b.interrupts_spec() == self.interrupts_spec(),
    {
        let mut pins = self.pins;
        pins[pin as usize] = mode;
        Stmpe1600Builder { pins, ..self }
    }

    /// Consume the builder and open the device: check the chip identity,
    /// soft-reset it, apply the pin configuration in at most two bulk
    /// register writes, and enable interrupt generation if requested.
    ///
    /// Fails with [`Error::InvalidDeviceID`] when the chip does not report
    /// the expected identity — in that case nothing is issued after the
    /// identity read, a guarantee stated and proved on the identity-check
    /// sequence's contract at the register transport — and with
    /// [`Error::I2CError`] when any bus transaction fails. No driver
    /// value, and so no transaction log, escapes on failure, which is why
    /// this contract's error side names only the error kinds.
    pub fn build(self) -> (r: Result<Stmpe1600<B>, Error<B::BusError>>)
        ensures
            r matches Ok(s) ==> {
                &&& s.address_spec() == self.address_spec()
                &&& s.pins_spec() == self.pins_spec()
                &&& built_logged(
                    s.log(),
                    self.address_spec(),
                    mode_mask(self.pins_spec(), PinMode::Output, 16),
                    mode_mask(self.pins_spec(), PinMode::Interrupt, 16),
                    self.interrupts_spec(),
                )
            },
            r matches Err(e) ==> e matches Error::I2CError(_) || e matches Error::InvalidDeviceID,
    {
        let Stmpe1600Builder { i2c, pins, address, interrupt_polarity } = self;
        let mut dir: u16 = 0;
        let mut ie: u16 = 0;
        let mut i: u8 = 0;
        while i < 16
            invariant
                i <= 16,
                pins@.len() == 16,
                dir == mode_mask(pins@, PinMode::Output, i as int),
                ie == mode_mask(pins@, PinMode::Interrupt, i as int),
            decreases 16 - i,
        {
            match pins[i as usize] {
                PinMode::Input => {},
                PinMode::Output => {
                    dir = dir | (1u16 << (i as u16));
                },
                PinMode::Interrupt => {
                    ie = ie | (1u16 << (i as u16));
                },
            }
            i = i + 1;
        }

        let mut device = match Stmpe1600Device::new(i2c, address) {
            Ok(d) => d,
            Err(e) => {
                return Err(e);
            },
        };
        if dir != 0 {
            match device.write_reg(Register::GPDR, dir) {
                Ok(()) => {},
                Err(e) => {
                    return Err(e);
                },
            }
        }
        if ie != 0 {
            match device.write_reg(Register::IEGPIOR, ie) {
                Ok(()) => {},
                Err(e) => {
                    return Err(e);
                },
            }
        }
        proof {
            assert(device.log() =~= init_txns(address) + config_txns(address, dir, ie));
        }
        if let Some(polarity) = interrupt_polarity {
            let scb = match device.read_reg8(Register::SystemControl) {
                Ok(v) => v,
                Err(e) => {
                    return Err(e);
                },
            };
            let polbit: u8 = match polarity {
                Polarity::Low => 0x00,
                Polarity::High => 0x01,
            };
            match device.write_reg8(Register::SystemControl, scb | 0x04 | polbit) {
                Ok(()) => {},
                Err(e) => {
                    return Err(e);
                },
            }
            let monitor = match device.read_reg(Register::GPMR) {
                Ok(v) => v,
                Err(e) => {
                    return Err(e);
                },
            };
            proof {
                assert(device.log() =~= init_txns(address) + config_txns(address, dir, ie)
                    + int_enable_txns(address, scb, polarity, monitor));
            }
        }
        Ok(Stmpe1600::assemble(device, pins))
    }
}

} // verus!
