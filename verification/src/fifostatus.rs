//! The FIFO_STATUS1 and FIFO_STATUS2 registers.
//!
//! The status registers are read fresh from the device on every query, so
//! this type carries no cache — only the device address.

use vstd::prelude::*;

use crate::bits::{field_get, flag_get, lemma_field_get_bound, read_field, read_flag};
use crate::bus::{read_register, I2cBus};

verus! {

/// Sub-address of the first status register.
pub const ADDR: u8 = 0x3a;

/// Bit of the second status byte flagging a full FIFO.
pub const FIFO_FULL_IA: u8 = 5;

/// Bit of the second status byte flagging a FIFO overrun.
pub const FIFO_OVR_IA: u8 = 6;

/// Bit of the second status byte flagging that the watermark is reached.
pub const FIFO_WTM_IA: u8 = 7;

/// Bit of the second status byte latching a FIFO overrun.
pub const FIFO_OVR_LATCHED: u8 = 3;

/// Bit of the second status byte flagging that the batch counter threshold
/// is reached.
pub const COUNTER_BDR_IA: u8 = 4;

/// Width mask of the high bits of the unread-sample count inside the
/// second status byte.
pub const DIFF_FIFO_H_MASK: u8 = 0b11;

/// The FIFO status registers, addressed by the device they belong to.
#[derive(Debug)]
pub struct FifoStatus {
    pub address: u8,
}

/// The unread-sample count held by the two status bytes: the low byte and
/// the two lowest bits of the high byte, little-endian.
pub open spec fn spec_diff_fifo(lo: u8, hi: u8) -> int {
    field_get(hi, 0, DIFF_FIFO_H_MASK) * 256 + lo
}

/// Assemble the unread-sample count from the two status bytes.
pub fn diff_fifo_from_bytes(lo: u8, hi: u8) -> (r: u16)
    ensures
        r == spec_diff_fifo(lo, hi),
{
    proof {
        lemma_field_get_bound(hi, 0, DIFF_FIFO_H_MASK);
    }
    let t = read_field(hi, 0, DIFF_FIFO_H_MASK);
    (t as u16) * 256 + (lo as u16)
}

/// Whether the second status byte flags a full FIFO.
pub fn full_from_byte(v: u8) -> (r: bool)
    ensures
        r == flag_get(v, FIFO_FULL_IA),
{
    read_flag(v, FIFO_FULL_IA)
}

/// Whether the second status byte flags a FIFO overrun.
pub fn overrun_from_byte(v: u8) -> (r: bool)
    ensures
        r == flag_get(v, FIFO_OVR_IA),
{
    read_flag(v, FIFO_OVR_IA)
}

/// Whether the second status byte flags that the watermark is reached.
pub fn watermark_from_byte(v: u8) -> (r: bool)
    ensures
        r == flag_get(v, FIFO_WTM_IA),
{
    read_flag(v, FIFO_WTM_IA)
}

/// Whether the second status byte latches a FIFO overrun.
pub fn overrun_latched_from_byte(v: u8) -> (r: bool)
    ensures
        r == flag_get(v, FIFO_OVR_LATCHED),
{
    read_flag(v, FIFO_OVR_LATCHED)
}

/// Whether the second status byte flags that the batch counter threshold
/// is reached.
pub fn count_bdr_from_byte(v: u8) -> (r: bool)
    ensures
        r == flag_get(v, COUNTER_BDR_IA),
{
    read_flag(v, COUNTER_BDR_IA)
}

impl FifoStatus {
    pub fn new(address: u8) -> (r: Self)
        ensures
            r.address == address,
    {
        FifoStatus { address }
    }

    /// Read the second status byte: one single-byte transaction.
    fn status_byte<B: I2cBus>(&self, bus: &mut B) -> Result<u8, B::Error> {
        read_register(bus, self.address, ADDR + 1)
    }

    /// Whether the FIFO is full, read fresh from the device; the read byte
    /// is decoded by [`full_from_byte`].
    pub fn full<B: I2cBus>(&self, bus: &mut B) -> Result<bool, B::Error> {
        match self.status_byte(bus) {
            Ok(v) => Ok(full_from_byte(v)),
            Err(e) => Err(e),
        }
    }

    /// Whether the FIFO has overrun, read fresh from the device; the read
    /// byte is decoded by [`overrun_from_byte`].
    pub fn overrun<B: I2cBus>(&self, bus: &mut B) -> Result<bool, B::Error> {
        match self.status_byte(bus) {
            Ok(v) => Ok(overrun_from_byte(v)),
            Err(e) => Err(e),
        }
    }

    /// Whether the FIFO watermark is reached, read fresh from the device;
    /// the read byte is decoded by [`watermark_from_byte`].
    pub fn watermark_reached<B: I2cBus>(&self, bus: &mut B) -> Result<bool, B::Error> {
        match self.status_byte(bus) {
            Ok(v) => Ok(watermark_from_byte(v)),
            Err(e) => Err(e),
        }
    }

    /// The latched FIFO overrun status, read fresh from the device; the
    /// read byte is decoded by [`overrun_latched_from_byte`].
    pub fn overrun_latched<B: I2cBus>(&self, bus: &mut B) -> Result<bool, B::Error> {
        match self.status_byte(bus) {
            Ok(v) => Ok(overrun_latched_from_byte(v)),
            Err(e) => Err(e),
        }
    }

    /// Whether the batch counter threshold is reached, read fresh from the
    /// device; the read byte is decoded by [`count_bdr_from_byte`].
    pub fn count_bdr_reached<B: I2cBus>(&self, bus: &mut B) -> Result<bool, B::Error> {
        match self.status_byte(bus) {
            Ok(v) => Ok(count_bdr_from_byte(v)),
            Err(e) => Err(e),
        }
    }

    /// The number of unread sensor samples in the FIFO, read fresh from the
    /// device as one two-byte transaction.
    pub fn diff_fifo<B: I2cBus>(&self, bus: &mut B) -> Result<u16, B::Error> {
        match bus.write_read(self.address, ADDR, 2) {
            Ok(v) => Ok(diff_fifo_from_bytes(v[0], v[1])),
            Err(e) => Err(e),
        }
    }
}

/// Law: the unread-sample count ignores the six high bits of the second
/// status byte and never exceeds the ten-bit range.
pub proof fn lemma_diff_fifo_range(lo: u8, hi: u8)
    ensures
        0 <= spec_diff_fifo(lo, hi) < 1024,
        spec_diff_fifo(lo, hi) % 256 == lo,
{
    lemma_field_get_bound(hi, 0, DIFF_FIFO_H_MASK);
}

} // verus!
