//! The CTRL1_XL register: accelerometer control register 1.
//!
//! Holds the accelerometer output-data-rate selection, the chain full-scale
//! selection and the second-stage-filter selection bit.

use vstd::prelude::*;

use crate::bits::{
    field_get, field_set, flag_get, flag_set, lemma_field_set_get, lemma_field_set_other,
    read_field, read_flag, write_field, write_flag,
};
use crate::bus::I2cBus;

verus! {

/// Sub-address of the register.
pub const ADDR: u8 = 0x10;

/// Accelerometer high-resolution selection (0: first-stage digital filter
/// output; 1: LPF2 second-stage filter output).
pub const LPF2_XL_EN: u8 = 1;

/// Width mask of the full-scale field.
pub const FS_MASK: u8 = 0b11;

/// Bit offset of the full-scale field.
pub const FS_OFFSET: u8 = 2;

/// Width mask of the output-data-rate field.
pub const ODR_XL_MASK: u8 = 0b1111;

/// Bit offset of the output-data-rate field.
pub const ODR_XL_OFFSET: u8 = 4;

/// Accelerometer full-scale selection
/// (00: ±2 g; 01: ±16 g; 10: ±4 g; 11: ±8 g).
#[allow(non_camel_case_types)]
#[derive(Copy, Clone, Eq, PartialEq, Ord, PartialOrd, Hash, Debug)]
pub enum Fs_Xl {
    /// ±2 g
    G2,
    /// ±16 g
    G16,
    /// ±4 g
    G4,
    /// ±8 g
    G8,
}

impl Fs_Xl {
    /// The two-bit code of this full-scale selection.
    pub open spec fn spec_bits(self) -> u8 {
        match self {
            Fs_Xl::G2 => 0,
            Fs_Xl::G16 => 1,
            Fs_Xl::G4 => 2,
            Fs_Xl::G8 => 3,
        }
    }

    /// The full-scale selection named by a two-bit code.
    pub open spec fn spec_of_code(c: u8) -> Fs_Xl
        recommends
            c < 4,
    {
        if c == 0 {
            Fs_Xl::G2
        } else if c == 1 {
            Fs_Xl::G16
        } else if c == 2 {
            Fs_Xl::G4
        } else {
            Fs_Xl::G8
        }
    }

    pub fn bits(self) -> (r: u8)
        ensures
            r == self.spec_bits(),
    {
        match self {
            Fs_Xl::G2 => 0,
            Fs_Xl::G16 => 1,
            Fs_Xl::G4 => 2,
            Fs_Xl::G8 => 3,
        }
    }

    /// Sensitivity at this range, in micro-g per raw count
    /// (±2 g: 61; ±4 g: 122; ±8 g: 244; ±16 g: 488).
    pub open spec fn spec_sensitivity_micro_g(self) -> u32 {
        match self {
            Fs_Xl::G2 => 61,
            Fs_Xl::G4 => 122,
            Fs_Xl::G8 => 244,
            Fs_Xl::G16 => 488,
        }
    }

    /// Sensitivity at this range, in micro-g per raw count.
    pub fn sensitivity_micro_g(self) -> (r: u32)
        ensures
            r == self.spec_sensitivity_micro_g(),
    {
        match self {
            Fs_Xl::G2 => 61,
            Fs_Xl::G4 => 122,
            Fs_Xl::G8 => 244,
            Fs_Xl::G16 => 488,
        }
    }
}

/// Accelerometer output-data-rate selection.  Defaults to `Off`.
#[allow(non_camel_case_types)]
#[derive(Copy, Clone, Eq, PartialEq, Ord, PartialOrd, Hash, Debug)]
pub enum Odr_Xl {
    /// Power-down.
    Off,
    /// 12.5 Hz
    Hz125,
    /// 26 Hz
    Hz26,
    /// 52 Hz
    Hz52,
    /// 104 Hz
    Hz104,
    /// 208 Hz
    Hz208,
    /// 416 Hz
    Hz416,
    /// 833 Hz
    Hz833,
    /// 1.66 kHz
    KHz166,
    /// 3.33 kHz
    KHz333,
    /// 6.66 kHz
    KHz666,
}

impl Odr_Xl {
    /// The four-bit code of this data-rate selection.
    pub open spec fn spec_bits(self) -> u8 {
        match self {
            Odr_Xl::Off => 0,
            Odr_Xl::Hz125 => 1,
            Odr_Xl::Hz26 => 2,
            Odr_Xl::Hz52 => 3,
            Odr_Xl::Hz104 => 4,
            Odr_Xl::Hz208 => 5,
            Odr_Xl::Hz416 => 6,
            Odr_Xl::Hz833 => 7,
            Odr_Xl::KHz166 => 8,
            Odr_Xl::KHz333 => 9,
            Odr_Xl::KHz666 => 10,
        }
    }

    /// The data-rate selection named by a four-bit code; codes above 10 are
    /// not produced by the device's documented configurations.
    pub open spec fn spec_of_code(c: u8) -> Odr_Xl
        recommends
            c <= 10,
    {
        if c == 0 {
            Odr_Xl::Off
        } else if c == 1 {
            Odr_Xl::Hz125
        } else if c == 2 {
            Odr_Xl::Hz26
        } else if c == 3 {
            Odr_Xl::Hz52
        } else if c == 4 {
            Odr_Xl::Hz104
        } else if c == 5 {
            Odr_Xl::Hz208
        } else if c == 6 {
            Odr_Xl::Hz416
        } else if c == 7 {
            Odr_Xl::Hz833
        } else if c == 8 {
            Odr_Xl::KHz166
        } else if c == 9 {
            Odr_Xl::KHz333
        } else {
            Odr_Xl::KHz666
        }
    }

    pub fn bits(self) -> (r: u8)
        ensures
            r == self.spec_bits(),
    {
        match self {
            Odr_Xl::Off => 0,
            Odr_Xl::Hz125 => 1,
            Odr_Xl::Hz26 => 2,
            Odr_Xl::Hz52 => 3,
            Odr_Xl::Hz104 => 4,
            Odr_Xl::Hz208 => 5,
            Odr_Xl::Hz416 => 6,
            Odr_Xl::Hz833 => 7,
            Odr_Xl::KHz166 => 8,
            Odr_Xl::KHz333 => 9,
            Odr_Xl::KHz666 => 10,
        }
    }
}

/// The accelerometer control register, with its cached byte and the device
/// address it belongs to.
#[derive(Debug)]
pub struct Ctrl1Xl {
    pub address: u8,
    value: u8,
}

impl Ctrl1Xl {
    /// The cached register byte.
    pub closed spec fn bits(&self) -> u8 {
        self.value
    }

    /// The device address the register talks to.
    pub closed spec fn spec_address(&self) -> u8 {
        self.address
    }

    /// Whether the data-rate field of the byte `v` holds a documented code.
    pub open spec fn odr_valid(v: u8) -> bool {
        field_get(v, ODR_XL_OFFSET, ODR_XL_MASK) <= 10
    }

    /// The data-rate selection held by the byte `v`.
    pub open spec fn spec_accelerometer_data_rate(v: u8) -> Odr_Xl
        recommends
            Self::odr_valid(v),
    {
        Odr_Xl::spec_of_code(field_get(v, ODR_XL_OFFSET, ODR_XL_MASK))
    }

    /// The byte `v` with the data-rate field replaced by `value`.
    pub open spec fn spec_set_accelerometer_data_rate(v: u8, value: Odr_Xl) -> u8 {
        field_set(v, ODR_XL_OFFSET, ODR_XL_MASK, value.spec_bits())
    }

    /// The full-scale selection held by the byte `v`.
    pub open spec fn spec_chain_full_scale(v: u8) -> Fs_Xl {
        Fs_Xl::spec_of_code(field_get(v, FS_OFFSET, FS_MASK))
    }

    /// The byte `v` with the full-scale field replaced by `value`.
    pub open spec fn spec_set_chain_full_scale(v: u8, value: Fs_Xl) -> u8 {
        field_set(v, FS_OFFSET, FS_MASK, value.spec_bits())
    }

    pub fn new(value: u8, address: u8) -> (r: Self)
        ensures
            r.bits() == value,
            r.spec_address() == address,
    {
        Ctrl1Xl { address, value }
    }


    /// Point the register at a new device address; the cache is untouched.
    pub fn set_device_address(&mut self, address: u8)
        ensures
            final(self).spec_address() == address,
            final(self).bits() == old(self).bits(),
    {
        self.address = address;
    }

    /// The cached register byte, for callers that want the raw value.
    pub fn value(&self) -> (r: u8)
        ensures
            r == self.bits(),
    {
        self.value
    }

    /// The currently selected accelerometer output data rate.
    ///
    /// A data-rate code above 10 can only arise from register content
    /// written by other software and is a defect, not a runtime error;
    /// such content is excluded by the precondition.
    pub fn accelerometer_data_rate(&self) -> (r: Odr_Xl)
        requires
            Self::odr_valid(self.bits()),
        ensures
            r == Self::spec_accelerometer_data_rate(self.bits()),
    {
        let c = read_field(self.value, ODR_XL_OFFSET, ODR_XL_MASK);
        if c == 0 {
            Odr_Xl::Off
        } else if c == 1 {
            Odr_Xl::Hz125
        } else if c == 2 {
            Odr_Xl::Hz26
        } else if c == 3 {
            Odr_Xl::Hz52
        } else if c == 4 {
            Odr_Xl::Hz104
        } else if c == 5 {
            Odr_Xl::Hz208
        } else if c == 6 {
            Odr_Xl::Hz416
        } else if c == 7 {
            Odr_Xl::Hz833
        } else if c == 8 {
            Odr_Xl::KHz166
        } else if c == 9 {
            Odr_Xl::KHz333
        } else {
            Odr_Xl::KHz666
        }
    }

    /// Select the accelerometer output data rate and commit the register
    /// byte; the cache changes only when the transaction succeeds.
    pub fn set_accelerometer_data_rate<B: I2cBus>(&mut self, bus: &mut B, value: Odr_Xl) -> (r:
        Result<(), B::Error>)
        ensures
            final(self).spec_address() == old(self).spec_address(),
            r is Ok ==> final(self).bits() == Self::spec_set_accelerometer_data_rate(
                old(self).bits(),
                value,
            ),
            r is Err ==> final(self).bits() == old(self).bits(),
    {
        let bits = write_field(self.value, ODR_XL_OFFSET, ODR_XL_MASK, value.bits());
        match bus.write(self.address, ADDR, bits) {
            Ok(()) => {
                self.value = bits;
                Ok(())
            },
            Err(e) => Err(e),
        }
    }

    /// The currently selected accelerometer full-scale range.
    pub fn chain_full_scale(&self) -> (r: Fs_Xl)
        ensures
            r == Self::spec_chain_full_scale(self.bits()),
    {
        let c = read_field(self.value, FS_OFFSET, FS_MASK);
        if c == 0 {
            Fs_Xl::G2
        } else if c == 1 {
            Fs_Xl::G16
        } else if c == 2 {
            Fs_Xl::G4
        } else {
            Fs_Xl::G8
        }
    }

    /// Select the accelerometer full-scale range and commit the register
    /// byte; the cache changes only when the transaction succeeds.
    pub fn set_chain_full_scale<B: I2cBus>(&mut self, bus: &mut B, value: Fs_Xl) -> (r: Result<
        (),
        B::Error,
    >)
        ensures
            final(self).spec_address() == old(self).spec_address(),
            r is Ok ==> final(self).bits() == Self::spec_set_chain_full_scale(
                old(self).bits(),
                value,
            ),
            r is Err ==> final(self).bits() == old(self).bits(),
    {
        let bits = write_field(self.value, FS_OFFSET, FS_MASK, value.bits());
        match bus.write(self.address, ADDR, bits) {
            Ok(()) => {
                self.value = bits;
                Ok(())
            },
            Err(e) => Err(e),
        }
    }

    /// Whether the LPF2 second-stage filter output is selected.
    pub fn lpf2_xl_en(&self) -> (r: bool)
        ensures
            r == flag_get(self.bits(), LPF2_XL_EN),
    {
        read_flag(self.value, LPF2_XL_EN)
    }

    /// Select the filter path and commit the register byte; the cache
    /// changes only when the transaction succeeds.
    pub fn set_lpf2_xl_en<B: I2cBus>(&mut self, bus: &mut B, value: bool) -> (r: Result<
        (),
        B::Error,
    >)
        ensures
            final(self).spec_address() == old(self).spec_address(),
            r is Ok ==> final(self).bits() == flag_set(old(self).bits(), LPF2_XL_EN, value),
            r is Err ==> final(self).bits() == old(self).bits(),
    {
        let bits = write_flag(self.value, LPF2_XL_EN, value);
        match bus.write(self.address, ADDR, bits) {
            Ok(()) => {
                self.value = bits;
                Ok(())
            },
            Err(e) => Err(e),
        }
    }
}

/// Law: setting the data-rate field, the full-scale field or the filter bit
/// and decoding it back yields the value just set.
pub proof fn lemma_ctrl1xl_round_trip(v: u8, odr: Odr_Xl, fs: Fs_Xl, lp: bool)
    ensures
        Ctrl1Xl::spec_accelerometer_data_rate(Ctrl1Xl::spec_set_accelerometer_data_rate(v, odr))
            == odr,
        Ctrl1Xl::odr_valid(Ctrl1Xl::spec_set_accelerometer_data_rate(v, odr)),
        Ctrl1Xl::spec_chain_full_scale(Ctrl1Xl::spec_set_chain_full_scale(v, fs)) == fs,
        flag_get(flag_set(v, LPF2_XL_EN, lp), LPF2_XL_EN) == lp,
{
    let c = odr.spec_bits();
    let d = fs.spec_bits();
    assert(((0xFu8 << 4) >> 4) == 0xF && ((3u8 << 2) >> 2) == 3) by (bit_vector);
    assert(c <= 10 ==> (c & 0xFu8) == c) by (bit_vector);
    assert(d <= 3 ==> (d & 3u8) == d) by (bit_vector);
    crate::bits::lemma_flag_set_get(v, LPF2_XL_EN, lp);
    lemma_field_set_get(v, ODR_XL_OFFSET, ODR_XL_MASK, c);
    lemma_field_set_get(v, FS_OFFSET, FS_MASK, d);
}

/// Law: setting any one field of the register leaves the other two fields'
/// bits, and so their decoded values, unchanged.
pub proof fn lemma_ctrl1xl_fields_independent(v: u8, odr: Odr_Xl, fs: Fs_Xl, lp: bool)
    ensures
        Ctrl1Xl::spec_chain_full_scale(Ctrl1Xl::spec_set_accelerometer_data_rate(v, odr))
            == Ctrl1Xl::spec_chain_full_scale(v),
        flag_get(Ctrl1Xl::spec_set_accelerometer_data_rate(v, odr), LPF2_XL_EN) == flag_get(
            v,
            LPF2_XL_EN,
        ),
        Ctrl1Xl::spec_accelerometer_data_rate(Ctrl1Xl::spec_set_chain_full_scale(v, fs))
            == Ctrl1Xl::spec_accelerometer_data_rate(v),
        Ctrl1Xl::odr_valid(Ctrl1Xl::spec_set_chain_full_scale(v, fs)) == Ctrl1Xl::odr_valid(v),
        flag_get(Ctrl1Xl::spec_set_chain_full_scale(v, fs), LPF2_XL_EN) == flag_get(
            v,
            LPF2_XL_EN,
        ),
        Ctrl1Xl::spec_accelerometer_data_rate(flag_set(v, LPF2_XL_EN, lp))
            == Ctrl1Xl::spec_accelerometer_data_rate(v),
        Ctrl1Xl::odr_valid(flag_set(v, LPF2_XL_EN, lp)) == Ctrl1Xl::odr_valid(v),
        Ctrl1Xl::spec_chain_full_scale(flag_set(v, LPF2_XL_EN, lp))
            == Ctrl1Xl::spec_chain_full_scale(v),
{
    let c = odr.spec_bits();
    let d = fs.spec_bits();
    let e: u8 = if lp {
        1
    } else {
        0
    };
    assert(((0xFu8 << 4) & (3u8 << 2)) == 0 && ((3u8 << 2) & (0xFu8 << 4)) == 0 && ((0xFu8 << 4)
        & (1u8 << 1)) == 0 && ((1u8 << 1) & (0xFu8 << 4)) == 0 && ((3u8 << 2) & (1u8 << 1)) == 0
        && ((1u8 << 1) & (3u8 << 2)) == 0) by (bit_vector);
    lemma_field_set_other(v, ODR_XL_OFFSET, ODR_XL_MASK, c, FS_OFFSET, FS_MASK);
    lemma_field_set_other(v, ODR_XL_OFFSET, ODR_XL_MASK, c, LPF2_XL_EN, 1);
    lemma_field_set_other(v, FS_OFFSET, FS_MASK, d, ODR_XL_OFFSET, ODR_XL_MASK);
    lemma_field_set_other(v, FS_OFFSET, FS_MASK, d, LPF2_XL_EN, 1);
    lemma_field_set_other(v, LPF2_XL_EN, 1, e, ODR_XL_OFFSET, ODR_XL_MASK);
    lemma_field_set_other(v, LPF2_XL_EN, 1, e, FS_OFFSET, FS_MASK);
}

} // verus!
