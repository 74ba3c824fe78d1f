//! Register-level access to the expander chip.
//!
//! [`Stmpe1600Device`] owns the bus handle and the device address, and turns
//! typed register reads and writes into raw bus transactions: a register is
//! addressed by sending its one-byte address, a 16-bit value travels as two
//! bytes with the low byte first on the wire.
//!
//! Every transaction the device issues is recorded in a ghost log of
//! [`Txn`] values, so that the contract of each operation can state exactly
//! which bytes went out and how the returned value relates to the bytes that
//! came back.

use vstd::prelude::*;

use crate::bits::{bit16, high_byte, low_byte, set_bit_spec};
use crate::bus::I2cBus;
use crate::Error;

verus! {

/// The identity constant the chip reports on its identification register.
pub const DEVICE_ID: u16 = 0x1600;

/// The addresses of the registers on the expander's bus.
#[derive(Clone, Copy, Debug)]
pub enum Register {
    /// ID unique to the chip (read-only, 16 bit).
    ChipID,
    /// Reset and interrupt control (8 bit).
    SystemControl,
    /// GPIO interrupt enable register.
    IEGPIOR,
    /// GPIO interrupt status register; reading it clears it on the chip.
    ISGPIOR,
    /// GPIO monitor pin state register.
    GPMR,
    /// GPIO set pin state register.
    GPSR,
    /// GPIO set pin direction register.
    GPDR,
    /// GPIO polarity inversion register.
    GPPIR,
}

impl Register {
    /// The one-byte address of this register on the chip.
    pub open spec fn spec_address(self) -> u8 {
        match self {
            Register::ChipID => 0x00,
            Register::SystemControl => 0x03,
            Register::IEGPIOR => 0x08,
            Register::ISGPIOR => 0x0A,
            Register::GPMR => 0x10,
            Register::GPSR => 0x12,
            Register::GPDR => 0x14,
            Register::GPPIR => 0x16,
        }
    }

    /// The one-byte address of this register on the chip.
    pub fn address(self) -> (a: u8)
        ensures
            a == self.spec_address(),
    {
        match self {
            Register::ChipID => 0x00,
            Register::SystemControl => 0x03,
            Register::IEGPIOR => 0x08,
            Register::ISGPIOR => 0x0A,
            Register::GPMR => 0x10,
            Register::GPSR => 0x12,
            Register::GPDR => 0x14,
            Register::GPPIR => 0x16,
        }
    }
}

/// One bus transaction, as the device issued it: the bytes sent to, or the
/// bytes received from, the device at `addr`.
pub enum Txn {
    /// Bytes written on the bus to the device at `addr`.
    Send { addr: u8, bytes: Seq<u8> },
    /// Bytes read on the bus from the device at `addr`.
    Recv { addr: u8, bytes: Seq<u8> },
}

/// The two transactions of a 16-bit register read: the register address goes
/// out, then the two value bytes come back, low byte first.
pub open spec fn query16_txns(addr: u8, reg: Register, lo: u8, hi: u8) -> Seq<Txn> {
    seq![
        Txn::Send { addr, bytes: seq![reg.spec_address()] },
        Txn::Recv { addr, bytes: seq![lo, hi] },
    ]
}

/// The single transaction of a 16-bit register write: the register address
/// followed by the value, low byte first.
pub open spec fn store16_txns(addr: u8, reg: Register, v: u16) -> Seq<Txn> {
    seq![Txn::Send { addr, bytes: seq![reg.spec_address(), low_byte(v), high_byte(v)] }]
}

/// The two transactions of an 8-bit register read.
pub open spec fn query8_txns(addr: u8, reg: Register, v: u8) -> Seq<Txn> {
    seq![
        Txn::Send { addr, bytes: seq![reg.spec_address()] },
        Txn::Recv { addr, bytes: seq![v] },
    ]
}

/// The single transaction of an 8-bit register write.
pub open spec fn store8_txns(addr: u8, reg: Register, v: u8) -> Seq<Txn> {
    seq![Txn::Send { addr, bytes: seq![reg.spec_address(), v] }]
}

/// The log grew by a full 16-bit read of `reg` that returned `v`: the
/// received bytes are exactly the low and high byte of `v`.
pub open spec fn read16_logged(pre: Seq<Txn>, post: Seq<Txn>, addr: u8, reg: Register, v: u16) -> bool {
    post == pre + query16_txns(addr, reg, low_byte(v), high_byte(v))
}

/// The log grew by a 16-bit write of `v` to `reg`.
pub open spec fn wrote16_logged(pre: Seq<Txn>, post: Seq<Txn>, addr: u8, reg: Register, v: u16) -> bool {
    post == pre + store16_txns(addr, reg, v)
}

/// The log grew by a full 8-bit read of `reg` that returned `v`.
pub open spec fn read8_logged(pre: Seq<Txn>, post: Seq<Txn>, addr: u8, reg: Register, v: u8) -> bool {
    post == pre + query8_txns(addr, reg, v)
}

/// The log grew by an 8-bit write of `v` to `reg`.
pub open spec fn wrote8_logged(pre: Seq<Txn>, post: Seq<Txn>, addr: u8, reg: Register, v: u8) -> bool {
    post == pre + store8_txns(addr, reg, v)
}

/// The log after a register operation that failed on the bus: either the
/// transaction never went out, or only the register address byte did.
pub open spec fn aborted_logged(pre: Seq<Txn>, post: Seq<Txn>, addr: u8, reg: Register) -> bool {
    post == pre || post == pre.push(Txn::Send { addr, bytes: seq![reg.spec_address()] })
}

/// The three transactions of a read-modify-write of one 16-bit register:
/// a full read that returned `r0`, then a write of `w`.
pub open spec fn rmw16_txns(addr: u8, reg: Register, r0: u16, w: u16) -> Seq<Txn> {
    query16_txns(addr, reg, low_byte(r0), high_byte(r0)) + store16_txns(addr, reg, w)
}

/// The log grew by a read-modify-write of `reg` that forced bit `pin` of
/// the value just read to `b` and wrote the result back; every other bit
/// of the written value is the bit that was read.
pub open spec fn bit_rmw_logged(pre: Seq<Txn>, post: Seq<Txn>, addr: u8, reg: Register, pin: u16, b: bool) -> bool {
    exists|r0: u16| post == pre + #[trigger] rmw16_txns(addr, reg, r0, set_bit_spec(r0, pin, b))
}

/// The log after a read-modify-write that failed on the bus: nothing went
/// out, or only the register address byte, or only the read completed and
/// the write-back never went out.
pub open spec fn rmw_aborted_logged(pre: Seq<Txn>, post: Seq<Txn>, addr: u8, reg: Register) -> bool {
    aborted_logged(pre, post, addr, reg) || exists|r0: u16|
        post == pre + #[trigger] query16_txns(addr, reg, low_byte(r0), high_byte(r0))
}

/// The transactions of a successful construction-time identity check and
/// soft reset: the identification register is read (and must answer with
/// [`DEVICE_ID`]), then the reset strobe is written to system control.
pub open spec fn init_txns(addr: u8) -> Seq<Txn> {
    query16_txns(addr, Register::ChipID, low_byte(DEVICE_ID), high_byte(DEVICE_ID))
        + store8_txns(addr, Register::SystemControl, 0x80)
}

/// The log of a device that has just passed its construction-time identity
/// check and soft reset.
pub open spec fn init_logged(post: Seq<Txn>, addr: u8) -> bool {
    post == init_txns(addr)
}

/// The register transport and session core: owns the bus handle and the
/// device address, and mediates every register-level access.
pub struct Stmpe1600Device<B> {
    i2c: B,
    address: u8,
    log: Ghost<Seq<Txn>>,
}

impl<B: I2cBus> Stmpe1600Device<B> {
    /// The full history of bus transactions this device has issued.
    pub closed spec fn log(&self) -> Seq<Txn> {
        self.log@
    }

    /// The bus address this device talks to.
    pub closed spec fn address_spec(&self) -> u8 {
        self.address
    }

    /// Open the device at `address`: read and check the chip identity, then
    /// issue a soft reset. A chip that answers with the wrong identity is
    /// rejected with [`Error::InvalidDeviceID`] and nothing further is
    /// issued — that guarantee is stated and proved on the contract of the
    /// identity-check sequence itself; it cannot be restated here, because
    /// no device value (and so no transaction log) escapes on failure.
    pub fn new(i2c: B, address: u8) -> (r: Result<Stmpe1600Device<B>, Error<B::BusError>>)
        ensures
            r matches Ok(d) ==> d.address_spec() == address && init_logged(d.log(), address),
            r matches Err(e) ==> e matches Error::I2CError(_) || e matches Error::InvalidDeviceID,
    {
        let mut device = Stmpe1600Device { i2c, address, log: Ghost(Seq::empty()) };
        match device.init() {
            Ok(()) => Ok(device),
            Err(e) => Err(e),
        }
    }

    /// Read a 16-bit register: send the register address, then receive the
    /// two value bytes, low byte first.
    pub fn read_reg(&mut self, register: Register) -> (r: Result<u16, Error<B::BusError>>)
        ensures
            final(self).address_spec() == old(self).address_spec(),
            r matches Ok(v) ==> read16_logged(
                old(self).log(),
                final(self).log(),
                old(self).address_spec(),
                register,
                v,
            ),
            r matches Err(e) ==> e matches Error::I2CError(_) && aborted_logged(
                old(self).log(),
                final(self).log(),
                old(self).address_spec(),
                register,
            ),
    {
        let cmd: [u8; 1] = [register.address()];
        match self.i2c.write_bytes(self.address, cmd.as_slice()) {
            Ok(()) => {},
            Err(e) => {
                return Err(Error::I2CError(e));
            },
        }
        proof {
            self.log@ = self.log@.push(Txn::Send { addr: self.address, bytes: cmd@ });
        }
        let buffer = match self.i2c.read_byte_pair(self.address) {
            Ok(b) => b,
            Err(e) => {
                proof {
                    assert(cmd@ =~= seq![register.spec_address()]);
                }
                return Err(Error::I2CError(e));
            },
        };
        proof {
            self.log@ = self.log@.push(Txn::Recv { addr: self.address, bytes: buffer@ });
        }
        let v = crate::bits::word_join(buffer[0], buffer[1]);
        proof {
            assert(cmd@ =~= seq![register.spec_address()]);
            assert(buffer@ =~= seq![buffer@[0], buffer@[1]]);
            crate::bits::lemma_word_bytes_round_trip(v, buffer@[0], buffer@[1]);
            assert(self.log@ =~= old(self).log@ + query16_txns(
                self.address,
                register,
                low_byte(v),
                high_byte(v),
            ));
        }
        Ok(v)
    }

    /// Read an 8-bit register: send the register address, then receive the
    /// single value byte.
    pub fn read_reg8(&mut self, register: Register) -> (r: Result<u8, Error<B::BusError>>)
        ensures
            final(self).address_spec() == old(self).address_spec(),
            r matches Ok(v) ==> read8_logged(
                old(self).log(),
                final(self).log(),
                old(self).address_spec(),
                register,
                v,
            ),
            r matches Err(e) ==> e matches Error::I2CError(_) && aborted_logged(
                old(self).log(),
                final(self).log(),
                old(self).address_spec(),
                register,
            ),
    {
        let cmd: [u8; 1] = [register.address()];
        match self.i2c.write_bytes(self.address, cmd.as_slice()) {
            Ok(()) => {},
            Err(e) => {
                return Err(Error::I2CError(e));
            },
        }
        proof {
            self.log@ = self.log@.push(Txn::Send { addr: self.address, bytes: cmd@ });
        }
        let value = match self.i2c.read_byte(self.address) {
            Ok(b) => b,
            Err(e) => {
                proof {
                    assert(cmd@ =~= seq![register.spec_address()]);
                }
                return Err(Error::I2CError(e));
            },
        };
        proof {
            self.log@ = self.log@.push(Txn::Recv { addr: self.address, bytes: seq![value] });
            assert(cmd@ =~= seq![register.spec_address()]);
            assert(self.log@ =~= old(self).log@ + query8_txns(self.address, register, value));
        }
        Ok(value)
    }

    /// Write a 16-bit register in one transaction: the register address,
    /// then the value, low byte first.
    pub fn write_reg(&mut self, register: Register, value: u16) -> (r: Result<
        (),
        Error<B::BusError>,
    >)
        ensures
            final(self).address_spec() == old(self).address_spec(),
            r matches Ok(()) ==> wrote16_logged(
                old(self).log(),
                final(self).log(),
                old(self).address_spec(),
                register,
                value,
            ),
            r matches Err(e) ==> e matches Error::I2CError(_) && final(self).log() == old(
                self,
            ).log(),
    {
        let (lo, hi) = crate::bits::word_split(value);
        let cmd: [u8; 3] = [register.address(), lo, hi];
        match self.i2c.write_bytes(self.address, cmd.as_slice()) {
            Ok(()) => {
                proof {
                    self.log@ = self.log@.push(Txn::Send { addr: self.address, bytes: cmd@ });
                    assert(cmd@ =~= seq![register.spec_address(), low_byte(value), high_byte(value)]);
                    assert(self.log@ =~= old(self).log@ + store16_txns(
                        self.address,
                        register,
                        value,
                    ));
                }
                Ok(())
            },
            Err(e) => Err(Error::I2CError(e)),
        }
    }

    /// Write an 8-bit register in one transaction: the register address,
    /// then the value byte.
    pub fn write_reg8(&mut self, register: Register, value: u8) -> (r: Result<
        (),
        Error<B::BusError>,
    >)
        ensures
            final(self).address_spec() == old(self).address_spec(),
            r matches Ok(()) ==> wrote8_logged(
                old(self).log(),
                final(self).log(),
                old(self).address_spec(),
                register,
                value,
            ),
            r matches Err(e) ==> e matches Error::I2CError(_) && final(self).log() == old(
                self,
            ).log(),
    {
        let cmd: [u8; 2] = [register.address(), value];
        match self.i2c.write_bytes(self.address, cmd.as_slice()) {
            Ok(()) => {
                proof {
                    self.log@ = self.log@.push(Txn::Send { addr: self.address, bytes: cmd@ });
                    assert(cmd@ =~= seq![register.spec_address(), value]);
                    assert(self.log@ =~= old(self).log@ + store8_txns(
                        self.address,
                        register,
                        value,
                    ));
                }
                Ok(())
            },
            Err(e) => Err(Error::I2CError(e)),
        }
    }

    /// Read the interrupt-status register and unpack it bit by bit: entry
    /// `i` of the result is true iff bit `i` of the register value was set.
    /// On the chip the read itself clears the register.
    pub fn get_interrupts(&mut self) -> (r: Result<[bool; 16], Error<B::BusError>>)
        ensures
            final(self).address_spec() == old(self).address_spec(),
            r matches Ok(arr) ==> exists|v: u16|
                #[trigger] read16_logged(
                    old(self).log(),
                    final(self).log(),
                    old(self).address_spec(),
                    Register::ISGPIOR,
                    v,
                ) && forall|i: u16| i < 16 ==> arr@[i as int] == bit16(v, i),
            r matches Err(e) ==> e matches Error::I2CError(_) && aborted_logged(
                old(self).log(),
                final(self).log(),
                old(self).address_spec(),
                Register::ISGPIOR,
            ),
    {
        let mask = match self.read_reg(Register::ISGPIOR) {
            Ok(v) => v,
            Err(e) => {
                return Err(e);
            },
        };
        let mut arr: [bool; 16] = [false; 16];
        let mut i: u16 = 0;
        while i < 16
            invariant
                i <= 16,
                arr@.len() == 16,
                forall|j: u16| j < i ==> arr@[j as int] == bit16(mask, j),
                forall|j: int| i <= j < 16 ==> arr@[j] == false,
            decreases 16 - i,
        {
            proof {
                assert((mask & (1u16 << i) == 1u16 << i) == (mask & (1u16 << i) != 0)) by (bit_vector)
                    requires
                        i < 16,
                ;
            }
            if mask & (1u16 << i) == (1u16 << i) {
                arr[i as usize] = true;
            }
            i = i + 1;
        }
        Ok(arr)
    }

    /// The construction-time sequence: check the chip identity, then strobe
    /// the reset bit of the system-control register.
    ///
    /// Succeeds exactly when the identification register answered
    /// [`DEVICE_ID`] and the reset write then went through. A wrong answer
    /// yields [`Error::InvalidDeviceID`] and nothing further is issued — in
    /// particular no reset write; a bus fault yields [`Error::I2CError`],
    /// either before the identity answer arrived or, with the right answer
    /// in hand, on the reset write itself.
    fn init(&mut self) -> (r: Result<(), Error<B::BusError>>)
        requires
            old(self).log() == Seq::<Txn>::empty(),
        ensures
            final(self).address_spec() == old(self).address_spec(),
            r matches Ok(()) ==> init_logged(final(self).log(), old(self).address_spec()),
            r matches Err(e) ==> {
                &&& (e matches Error::InvalidDeviceID ==> exists|v: u16|
                    v != DEVICE_ID && #[trigger] read16_logged(
                        old(self).log(),
                        final(self).log(),
                        old(self).address_spec(),
                        Register::ChipID,
                        v,
                    ))
                &&& (e matches Error::I2CError(_) ==> aborted_logged(
                    old(self).log(),
                    final(self).log(),
                    old(self).address_spec(),
                    Register::ChipID,
                ) || read16_logged(
                    old(self).log(),
                    final(self).log(),
                    old(self).address_spec(),
                    Register::ChipID,
                    DEVICE_ID,
                ))
            },
    {
        let id = match self.read_reg(Register::ChipID) {
            Ok(v) => v,
            Err(e) => {
                return Err(e);
            },
        };
        if id != DEVICE_ID {
            proof {
                assert(read16_logged(
                    old(self).log(),
                    self.log(),
                    old(self).address_spec(),
                    Register::ChipID,
                    id,
                ));
            }
            return Err(Error::InvalidDeviceID);
        }
        match self.write_reg8(Register::SystemControl, 0x80) {
            Ok(()) => {
                proof {
                    assert(self.log@ =~= query16_txns(
                        old(self).address_spec(),
                        Register::ChipID,
                        low_byte(DEVICE_ID),
                        high_byte(DEVICE_ID),
                    ) + store8_txns(old(self).address_spec(), Register::SystemControl, 0x80));
                }
                Ok(())
            },
            Err(e) => Err(e),
        }
    }
}

} // verus!
