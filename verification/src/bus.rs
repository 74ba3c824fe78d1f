//! The two-wire bus transaction primitive that the driver consumes.
//!
//! The driver never owns the bus logic itself: the platform supplies a
//! point-to-point transaction primitive (send some bytes to an address,
//! receive some bytes from an address), and everything above it is the
//! driver's own register protocol. An implementation of this trait is
//! expected to be a reliable, already-connected transport; the driver never
//! retries a failed transaction, it only reports the fault to the caller.
//!
//! Nothing is assumed about an implementation: the driver's contracts hold
//! for every answer a transport can give, including faults on any
//! transaction.

use vstd::prelude::*;

verus! {

/// A blocking two-wire bus master, able to address one device at a time.
pub trait I2cBus {
    /// The transport's own fault type, surfaced unchanged by the driver.
    type BusError;

    /// Send `bytes` to the device that answers to `address`.
    fn write_bytes(&mut self, address: u8, bytes: &[u8]) -> Result<(), Self::BusError>;

    /// Receive a single byte from the device that answers to `address`.
    fn read_byte(&mut self, address: u8) -> Result<u8, Self::BusError>;

    /// Receive two bytes from the device that answers to `address`, in the
    /// order they arrive on the wire.
    fn read_byte_pair(&mut self, address: u8) -> Result<[u8; 2], Self::BusError>;
}

} // verus!
