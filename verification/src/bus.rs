//! The byte-oriented transaction primitive every register type talks through.
//!
//! The device answers at a seven-bit bus address; each transaction is keyed
//! by an eight-bit register sub-address.  A write carries the sub-address
//! followed by the new register byte; a read writes the sub-address and then
//! reads back `n` bytes, the device auto-incrementing the sub-address after
//! each byte.  The transport itself (an I2C peripheral, a mock, ...) is
//! supplied by the caller as an implementation of [`I2cBus`].

use vstd::prelude::*;

verus! {

/// A blocking two-wire bus transaction primitive.
///
/// Implementations live outside this crate (a hardware abstraction layer, or
/// a test double); the driver only relies on a successful read handing back
/// exactly the requested number of bytes.
pub trait I2cBus {
    /// The transport's own error value, propagated verbatim to the caller.
    type Error;

    /// Write `sub` followed by `value` to the device at `address`.
    fn write(&mut self, address: u8, sub: u8, value: u8) -> Result<(), Self::Error>;

    /// Write `sub` to the device at `address`, then read `n` bytes back in
    /// the same transaction.
    fn write_read(&mut self, address: u8, sub: u8, n: usize) -> (r: Result<
        Vec<u8>,
        Self::Error,
    >)
        ensures
            r matches Ok(v) ==> v@.len() == n,
    ;
}

/// Read the single byte held by the register at `sub`.
pub(crate) fn read_register<B: I2cBus>(bus: &mut B, address: u8, sub: u8) -> Result<
    u8,
    B::Error,
> {
    match bus.write_read(address, sub, 1) {
        Ok(v) => Ok(v[0]),
        Err(e) => Err(e),
    }
}

} // verus!
