//! The CTRL2_G register: gyroscope control register 2.
//!
//! Holds the gyroscope output-data-rate selection and the chain full-scale
//! selection.  The full-scale selection has a twist: beside the two-bit
//! primary field there are two independent override bits that, when set,
//! select ±4000 dps or ±125 dps regardless of the primary field.  Decoding
//! checks the ±4000 bit first, then the ±125 bit, then falls back to the
//! primary field; encoding an override range sets its bit, clears the other
//! override bit and leaves the primary field at its last value, while
//! encoding a primary range clears both override bits.

use vstd::prelude::*;

use crate::bits::{
    field_get, field_set, flag_get, flag_set, lemma_field_set_get, lemma_field_set_other,
    read_field, read_flag, write_field, write_flag,
};
use crate::bus::I2cBus;

verus! {

/// Sub-address of the register.
pub const ADDR: u8 = 0x11;

/// Selects the gyroscope chain full-scale ±4000 dps (0: full scale selected
/// through the primary field or `FS125`; 1: full scale set to ±4000 dps).
pub const FS4000: u8 = 0;

/// Selects the gyroscope chain full-scale ±125 dps (0: full scale selected
/// through the primary field; 1: full scale set to ±125 dps).
pub const FS125: u8 = 1;

/// Width mask of the primary full-scale field.
pub const FS_MASK: u8 = 0b11;

/// Bit offset of the primary full-scale field.
pub const FS_OFFSET: u8 = 2;

/// Width mask of the output-data-rate field.
pub const ODR_MASK: u8 = 0b1111;

/// Bit offset of the output-data-rate field.
pub const ODR_OFFSET: u8 = 4;

/// Gyroscope chain full-scale selection in degrees per second.
#[derive(Copy, Clone, Eq, PartialEq, Ord, PartialOrd, Hash, Debug)]
pub enum Fs {
    /// ±250 dps
    Dps250,
    /// ±500 dps
    Dps500,
    /// ±1000 dps
    Dps1000,
    /// ±2000 dps
    Dps2000,
    /// ±4000 dps (selected through the `FS4000` override bit)
    Dps4000,
    /// ±125 dps (selected through the `FS125` override bit)
    Dps125,
}

impl Fs {
    /// The two-bit code of a primary range; the override ranges carry no
    /// primary code and map to zero here.
    pub open spec fn spec_primary_code(self) -> u8 {
        match self {
            Fs::Dps250 => 0,
            Fs::Dps500 => 1,
            Fs::Dps1000 => 2,
            Fs::Dps2000 => 3,
            Fs::Dps4000 => 0,
            Fs::Dps125 => 0,
        }
    }

    /// The primary range named by a two-bit code.
    pub open spec fn spec_of_primary_code(c: u8) -> Fs
        recommends
            c < 4,
    {
        if c == 0 {
            Fs::Dps250
        } else if c == 1 {
            Fs::Dps500
        } else if c == 2 {
            Fs::Dps1000
        } else {
            Fs::Dps2000
        }
    }

    /// Sensitivity at this range, in micro-degrees-per-second per raw count
    /// (±125: 4375; ±250: 8750; ±500: 17500; ±1000: 35000; ±2000: 70000;
    /// ±4000: 140000).
    pub open spec fn spec_sensitivity_micro_dps(self) -> u32 {
        match self {
            Fs::Dps125 => 4375,
            Fs::Dps250 => 8750,
            Fs::Dps500 => 17500,
            Fs::Dps1000 => 35000,
            Fs::Dps2000 => 70000,
            Fs::Dps4000 => 140000,
        }
    }

    /// Sensitivity at this range, in micro-degrees-per-second per raw count.
    pub fn sensitivity_micro_dps(self) -> (r: u32)
        ensures
            r == self.spec_sensitivity_micro_dps(),
    {
        match self {
            Fs::Dps125 => 4375,
            Fs::Dps250 => 8750,
            Fs::Dps500 => 17500,
            Fs::Dps1000 => 35000,
            Fs::Dps2000 => 70000,
            Fs::Dps4000 => 140000,
        }
    }
}

/// Gyroscope output-data-rate selection.  Defaults to `Off`.
#[derive(Copy, Clone, Eq, PartialEq, Ord, PartialOrd, Hash, Debug)]
pub enum Odr {
    /// Power-down.
    Off,
    /// 12.5 Hz
    Hz125,
    /// 26 Hz
    Hz26,
    /// 52 Hz
    Hz52,
    /// 104 Hz
    Hz104,
    /// 208 Hz
    Hz208,
    /// 416 Hz
    Hz416,
    /// 833 Hz
    Hz833,
    /// 1.66 kHz
    KHz166,
    /// 3.33 kHz
    KHz333,
    /// 6.66 kHz
    KHz666,
}

impl Odr {
    /// The four-bit code of this data-rate selection.
    pub open spec fn spec_bits(self) -> u8 {
        match self {
            Odr::Off => 0,
            Odr::Hz125 => 1,
            Odr::Hz26 => 2,
            Odr::Hz52 => 3,
            Odr::Hz104 => 4,
            Odr::Hz208 => 5,
            Odr::Hz416 => 6,
            Odr::Hz833 => 7,
            Odr::KHz166 => 8,
            Odr::KHz333 => 9,
            Odr::KHz666 => 10,
        }
    }

    /// The data-rate selection named by a four-bit code; codes above 10 are
    /// not produced by the device's documented configurations.
    pub open spec fn spec_of_code(c: u8) -> Odr
        recommends
            c <= 10,
    {
        if c == 0 {
            Odr::Off
        } else if c == 1 {
            Odr::Hz125
        } else if c == 2 {
            Odr::Hz26
        } else if c == 3 {
            Odr::Hz52
        } else if c == 4 {
            Odr::Hz104
        } else if c == 5 {
            Odr::Hz208
        } else if c == 6 {
            Odr::Hz416
        } else if c == 7 {
            Odr::Hz833
        } else if c == 8 {
            Odr::KHz166
        } else if c == 9 {
            Odr::KHz333
        } else {
            Odr::KHz666
        }
    }

    pub fn bits(self) -> (r: u8)
        ensures
            r == self.spec_bits(),
    {
        match self {
            Odr::Off => 0,
            Odr::Hz125 => 1,
            Odr::Hz26 => 2,
            Odr::Hz52 => 3,
            Odr::Hz104 => 4,
            Odr::Hz208 => 5,
            Odr::Hz416 => 6,
            Odr::Hz833 => 7,
            Odr::KHz166 => 8,
            Odr::KHz333 => 9,
            Odr::KHz666 => 10,
        }
    }
}

/// The gyroscope control register, with its cached byte and the device
/// address it belongs to.
#[derive(Debug)]
pub struct Ctrl2G {
    pub address: u8,
    value: u8,
}

impl Ctrl2G {
    /// The cached register byte.
    pub closed spec fn bits(&self) -> u8 {
        self.value
    }

    /// The device address the register talks to.
    pub closed spec fn spec_address(&self) -> u8 {
        self.address
    }

    /// Whether the data-rate field of the byte `v` holds a documented code.
    pub open spec fn odr_valid(v: u8) -> bool {
        field_get(v, ODR_OFFSET, ODR_MASK) <= 10
    }

    /// The data-rate selection held by the byte `v`.
    pub open spec fn spec_gyroscope_data_rate(v: u8) -> Odr
        recommends
            Self::odr_valid(v),
    {
        Odr::spec_of_code(field_get(v, ODR_OFFSET, ODR_MASK))
    }

    /// The byte `v` with the data-rate field replaced by `value`.
    pub open spec fn spec_set_gyroscope_data_rate(v: u8, value: Odr) -> u8 {
        field_set(v, ODR_OFFSET, ODR_MASK, value.spec_bits())
    }

    /// The full-scale selection held by the byte `v`: the ±4000 override
    /// bit wins, then the ±125 override bit, then the primary field.
    pub open spec fn spec_chain_full_scale(v: u8) -> Fs {
        if flag_get(v, FS4000) {
            Fs::Dps4000
        } else if flag_get(v, FS125) {
            Fs::Dps125
        } else {
            Fs::spec_of_primary_code(field_get(v, FS_OFFSET, FS_MASK))
        }
    }

    /// The byte `v` re-encoded for the full-scale selection `value`: an
    /// override range sets its bit, clears the other override bit and leaves
    /// the primary field alone; a primary range clears both override bits
    /// and sets the primary field.
    pub open spec fn spec_set_chain_full_scale(v: u8, value: Fs) -> u8 {
        match value {
            Fs::Dps4000 => (v & !3u8) | 1,
            Fs::Dps125 => (v & !3u8) | 2,
            _ => field_set(v, FS_OFFSET, FS_MASK, value.spec_primary_code()) & !3u8,
        }
    }

    pub fn new(value: u8, address: u8) -> (r: Self)
        ensures
            r.bits() == value,
            r.spec_address() == address,
    {
        Ctrl2G { address, value }
    }


    /// Point the register at a new device address; the cache is untouched.
    pub fn set_device_address(&mut self, address: u8)
        ensures
            final(self).spec_address() == address,
            final(self).bits() == old(self).bits(),
    {
        self.address = address;
    }

    /// The cached register byte, for callers that want the raw value.
    pub fn value(&self) -> (r: u8)
        ensures
            r == self.bits(),
    {
        self.value
    }

    /// The currently selected gyroscope output data rate.
    ///
    /// A data-rate code above 10 can only arise from register content
    /// written by other software and is a defect, not a runtime error;
    /// such content is excluded by the precondition.
    pub fn gyroscope_data_rate(&self) -> (r: Odr)
        requires
            Self::odr_valid(self.bits()),
        ensures
            r == Self::spec_gyroscope_data_rate(self.bits()),
    {
        let c = read_field(self.value, ODR_OFFSET, ODR_MASK);
        if c == 0 {
            Odr::Off
        } else if c == 1 {
            Odr::Hz125
        } else if c == 2 {
            Odr::Hz26
        } else if c == 3 {
            Odr::Hz52
        } else if c == 4 {
            Odr::Hz104
        } else if c == 5 {
            Odr::Hz208
        } else if c == 6 {
            Odr::Hz416
        } else if c == 7 {
            Odr::Hz833
        } else if c == 8 {
            Odr::KHz166
        } else if c == 9 {
            Odr::KHz333
        } else {
            Odr::KHz666
        }
    }

    /// Select the gyroscope output data rate and commit the register byte;
    /// the cache changes only when the transaction succeeds.
    pub fn set_gyroscope_data_rate<B: I2cBus>(&mut self, bus: &mut B, value: Odr) -> (r: Result<
        (),
        B::Error,
    >)
        ensures
            final(self).spec_address() == old(self).spec_address(),
            r is Ok ==> final(self).bits() == Self::spec_set_gyroscope_data_rate(
                old(self).bits(),
                value,
            ),
            r is Err ==> final(self).bits() == old(self).bits(),
    {
        let bits = write_field(self.value, ODR_OFFSET, ODR_MASK, value.bits());
        match bus.write(self.address, ADDR, bits) {
            Ok(()) => {
                self.value = bits;
                Ok(())
            },
            Err(e) => Err(e),
        }
    }

    /// The currently selected gyroscope full-scale range, the override bits
    /// taking precedence over the primary field.
    pub fn chain_full_scale(&self) -> (r: Fs)
        ensures
            r == Self::spec_chain_full_scale(self.bits()),
    {
        if read_flag(self.value, FS4000) {
            Fs::Dps4000
        } else if read_flag(self.value, FS125) {
            Fs::Dps125
        } else {
            let c = read_field(self.value, FS_OFFSET, FS_MASK);
            if c == 0 {
                Fs::Dps250
            } else if c == 1 {
                Fs::Dps500
            } else if c == 2 {
                Fs::Dps1000
            } else {
                Fs::Dps2000
            }
        }
    }

    /// Select the gyroscope full-scale range and commit the register byte;
    /// the cache changes only when the transaction succeeds.
    pub fn set_chain_full_scale<B: I2cBus>(&mut self, bus: &mut B, value: Fs) -> (r: Result<
        (),
        B::Error,
    >)
        ensures
            final(self).spec_address() == old(self).spec_address(),
            r is Ok ==> final(self).bits() == Self::spec_set_chain_full_scale(
                old(self).bits(),
                value,
            ),
            r is Err ==> final(self).bits() == old(self).bits(),
    {
        let bits = match value {
            Fs::Dps4000 => (self.value & !3u8) | 1,
            Fs::Dps125 => (self.value & !3u8) | 2,
            Fs::Dps250 => write_field(self.value, FS_OFFSET, FS_MASK, 0) & !3u8,
            Fs::Dps500 => write_field(self.value, FS_OFFSET, FS_MASK, 1) & !3u8,
            Fs::Dps1000 => write_field(self.value, FS_OFFSET, FS_MASK, 2) & !3u8,
            Fs::Dps2000 => write_field(self.value, FS_OFFSET, FS_MASK, 3) & !3u8,
        };
        match bus.write(self.address, ADDR, bits) {
            Ok(()) => {
                self.value = bits;
                Ok(())
            },
            Err(e) => Err(e),
        }
    }
}

/// Law: encoding any full-scale selection into a byte and decoding it back
/// yields the selection just encoded, whatever the byte held before — in
/// particular a stale primary pattern cannot leak through an override
/// selection.  The override bits end up set if and only if the selection is
/// the corresponding override range, so re-encoding a primary range clears
/// a previously set override bit.
pub proof fn lemma_ctrl2g_full_scale_round_trip(v: u8, value: Fs)
    ensures
        Ctrl2G::spec_chain_full_scale(Ctrl2G::spec_set_chain_full_scale(v, value)) == value,
        flag_get(Ctrl2G::spec_set_chain_full_scale(v, value), FS4000) == (value == Fs::Dps4000),
        flag_get(Ctrl2G::spec_set_chain_full_scale(v, value), FS125) == (value == Fs::Dps125),
{
    let c = value.spec_primary_code();
    assert((((v & !3u8) | 1) >> 0) & 1 == 1) by (bit_vector);
    assert((((v & !3u8) | 1) >> 1) & 1 == 0) by (bit_vector);
    assert((((v & !3u8) | 2) >> 0) & 1 == 0) by (bit_vector);
    assert((((v & !3u8) | 2) >> 1) & 1 == 1) by (bit_vector);
    assert(c < 4 ==> (((((v & !(3u8 << 2)) | ((c & 3u8) << 2)) & !3u8) >> 0) & 1 == 0 && ((((v
        & !(3u8 << 2)) | ((c & 3u8) << 2)) & !3u8) >> 1) & 1 == 0 && ((((v & !(3u8 << 2)) | ((c
        & 3u8) << 2)) & !3u8) >> 2) & 3 == c)) by (bit_vector);
}

/// Law: selecting a data rate and decoding it back yields the rate just
/// selected.
pub proof fn lemma_ctrl2g_data_rate_round_trip(v: u8, odr: Odr)
    ensures
        Ctrl2G::spec_gyroscope_data_rate(Ctrl2G::spec_set_gyroscope_data_rate(v, odr)) == odr,
        Ctrl2G::odr_valid(Ctrl2G::spec_set_gyroscope_data_rate(v, odr)),
{
    let c = odr.spec_bits();
    assert(((0xFu8 << 4) >> 4) == 0xF) by (bit_vector);
    assert(c <= 10 ==> (c & 0xFu8) == c) by (bit_vector);
    lemma_field_set_get(v, ODR_OFFSET, ODR_MASK, c);
}

/// Law: selecting a data rate leaves the full-scale selection unchanged,
/// and selecting a full-scale range leaves the data-rate field unchanged.
pub proof fn lemma_ctrl2g_fields_independent(v: u8, odr: Odr, fs: Fs)
    ensures
        Ctrl2G::spec_chain_full_scale(Ctrl2G::spec_set_gyroscope_data_rate(v, odr))
            == Ctrl2G::spec_chain_full_scale(v),
        Ctrl2G::spec_gyroscope_data_rate(Ctrl2G::spec_set_chain_full_scale(v, fs))
            == Ctrl2G::spec_gyroscope_data_rate(v),
        Ctrl2G::odr_valid(Ctrl2G::spec_set_chain_full_scale(v, fs)) == Ctrl2G::odr_valid(v),
{
    let c = odr.spec_bits();
    let d = fs.spec_primary_code();
    assert(((0xFu8 << 4) & (1u8 << 0)) == 0 && ((0xFu8 << 4) & (1u8 << 1)) == 0 && ((0xFu8 << 4)
        & (3u8 << 2)) == 0) by (bit_vector);
    lemma_field_set_other(v, ODR_OFFSET, ODR_MASK, c, FS4000, 1);
    lemma_field_set_other(v, ODR_OFFSET, ODR_MASK, c, FS125, 1);
    lemma_field_set_other(v, ODR_OFFSET, ODR_MASK, c, FS_OFFSET, FS_MASK);
    assert(((((v & !3u8) | 1) >> 4) & 0xF) == ((v >> 4) & 0xF)) by (bit_vector);
    assert(((((v & !3u8) | 2) >> 4) & 0xF) == ((v >> 4) & 0xF)) by (bit_vector);
    assert((((((v & !(3u8 << 2)) | ((d & 3u8) << 2)) & !3u8) >> 4) & 0xF) == ((v >> 4) & 0xF))
        by (bit_vector);
}

} // verus!
