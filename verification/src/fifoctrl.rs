//! The FIFO_CTRL1 to FIFO_CTRL4 registers.
//!
//! The four physically contiguous registers are handled as one four-byte
//! cache because values and functionality are split across them.  Each
//! setter still commits a single byte to its own sub-address, since the
//! device does not support multi-register writes.

use vstd::prelude::*;

use crate::bits::{
    field_get, field_set, flag_get, flag_set, lemma_field_set_get, lemma_field_set_other,
    read_field, read_flag, write_field, write_flag,
};
use crate::bus::I2cBus;

verus! {

/// Sub-address of the first register of the group.
pub const ADDR: u8 = 0x07;

/// The maximum number of samples in an uncompressed FIFO.
pub const FIFO_SIZE: u16 = 512;

/// Bit offset of the compression enable inside the second byte.
pub const FIFO_COMPR_EN: u8 = 6;

/// Width mask of the FIFO mode field inside the fourth byte.
pub const MODE_MASK: u8 = 0b111;

/// Bit offset of the FIFO mode field inside the fourth byte.
pub const MODE_OFFSET: u8 = 0;

/// Width mask of each batch-data-rate field inside the third byte.
pub const BDR_MASK: u8 = 0b1111;

/// Bit offset of the accelerometer batch-data-rate field.
pub const BDR_XL_OFFSET: u8 = 0;

/// Bit offset of the gyroscope batch-data-rate field.
pub const BDR_GY_OFFSET: u8 = 4;

/// FIFO mode.  Default is `Bypass` (FIFO off).
#[derive(Copy, Clone, Eq, PartialEq, Ord, PartialOrd, Hash, Debug)]
pub enum FifoMode {
    /// FIFO disabled.
    Bypass,
    /// Stop collecting when the FIFO is full.
    FifoMode,
    /// Continuous until trigger, then FIFO.
    ContinuousToFifo,
    /// Bypass until trigger, then continuous.
    BypassToContinuous,
    /// Overwrite the oldest sample continuously.
    Continuous,
    /// Bypass until trigger, then FIFO.
    BypassToFifo,
}

impl FifoMode {
    /// The three-bit code of this mode.
    pub open spec fn spec_bits(self) -> u8 {
        match self {
            FifoMode::Bypass => 0b000,
            FifoMode::FifoMode => 0b001,
            FifoMode::ContinuousToFifo => 0b011,
            FifoMode::BypassToContinuous => 0b100,
            FifoMode::Continuous => 0b110,
            FifoMode::BypassToFifo => 0b111,
        }
    }

    /// Whether a three-bit code names a mode.
    pub open spec fn code_valid(c: u8) -> bool {
        c == 0 || c == 1 || c == 3 || c == 4 || c == 6 || c == 7
    }

    /// The mode named by a three-bit code.
    pub open spec fn spec_of_code(c: u8) -> FifoMode
        recommends
            Self::code_valid(c),
    {
        if c == 0 {
            FifoMode::Bypass
        } else if c == 1 {
            FifoMode::FifoMode
        } else if c == 3 {
            FifoMode::ContinuousToFifo
        } else if c == 4 {
            FifoMode::BypassToContinuous
        } else if c == 6 {
            FifoMode::Continuous
        } else {
            FifoMode::BypassToFifo
        }
    }

    pub fn bits(self) -> (r: u8)
        ensures
            r == self.spec_bits(),
    {
        match self {
            FifoMode::Bypass => 0b000,
            FifoMode::FifoMode => 0b001,
            FifoMode::ContinuousToFifo => 0b011,
            FifoMode::BypassToContinuous => 0b100,
            FifoMode::Continuous => 0b110,
            FifoMode::BypassToFifo => 0b111,
        }
    }
}

/// Batch data rate of the gyroscope stream feeding the FIFO.
#[allow(non_camel_case_types)]
#[derive(Copy, Clone, Eq, PartialEq, Ord, PartialOrd, Hash, Debug)]
pub enum BdrGy {
    /// Not batched.
    Off,
    /// 6.5 Hz
    Hz6_5,
    /// 12.5 Hz
    Hz12_5,
    /// 26 Hz
    Hz26,
    /// 52 Hz
    Hz52,
    /// 104 Hz
    Hz104,
    /// 208 Hz
    Hz208,
    /// 417 Hz
    Hz417,
    /// 833 Hz
    Hz833,
    /// 1667 Hz
    Hz1667,
    /// 3333 Hz
    Hz3333,
    /// 6667 Hz
    Hz6667,
}

impl BdrGy {
    /// The four-bit code of this batch data rate.
    pub open spec fn spec_bits(self) -> u8 {
        match self {
            BdrGy::Off => 0b0000,
            BdrGy::Hz6_5 => 0b1011,
            BdrGy::Hz12_5 => 0b0001,
            BdrGy::Hz26 => 0b0010,
            BdrGy::Hz52 => 0b0011,
            BdrGy::Hz104 => 0b0100,
            BdrGy::Hz208 => 0b0101,
            BdrGy::Hz417 => 0b0110,
            BdrGy::Hz833 => 0b0111,
            BdrGy::Hz1667 => 0b1000,
            BdrGy::Hz3333 => 0b1001,
            BdrGy::Hz6667 => 0b1010,
        }
    }

    /// The batch data rate named by a four-bit code; codes above 11 are not
    /// produced by the device's documented configurations.
    pub open spec fn spec_of_code(c: u8) -> BdrGy
        recommends
            c <= 11,
    {
        if c == 0 {
            BdrGy::Off
        } else if c == 1 {
            BdrGy::Hz12_5
        } else if c == 2 {
            BdrGy::Hz26
        } else if c == 3 {
            BdrGy::Hz52
        } else if c == 4 {
            BdrGy::Hz104
        } else if c == 5 {
            BdrGy::Hz208
        } else if c == 6 {
            BdrGy::Hz417
        } else if c == 7 {
            BdrGy::Hz833
        } else if c == 8 {
            BdrGy::Hz1667
        } else if c == 9 {
            BdrGy::Hz3333
        } else if c == 10 {
            BdrGy::Hz6667
        } else {
            BdrGy::Hz6_5
        }
    }

    pub fn bits(self) -> (r: u8)
        ensures
            r == self.spec_bits(),
    {
        match self {
            BdrGy::Off => 0b0000,
            BdrGy::Hz6_5 => 0b1011,
            BdrGy::Hz12_5 => 0b0001,
            BdrGy::Hz26 => 0b0010,
            BdrGy::Hz52 => 0b0011,
            BdrGy::Hz104 => 0b0100,
            BdrGy::Hz208 => 0b0101,
            BdrGy::Hz417 => 0b0110,
            BdrGy::Hz833 => 0b0111,
            BdrGy::Hz1667 => 0b1000,
            BdrGy::Hz3333 => 0b1001,
            BdrGy::Hz6667 => 0b1010,
        }
    }
}

/// Batch data rate of the accelerometer stream feeding the FIFO.
#[allow(non_camel_case_types)]
#[derive(Copy, Clone, Eq, PartialEq, Ord, PartialOrd, Hash, Debug)]
pub enum BdrXl {
    /// Not batched.
    Off,
    /// 6.5 Hz
    Hz6_5,
    /// 12.5 Hz
    Hz12_5,
    /// 26 Hz
    Hz26,
    /// 52 Hz
    Hz52,
    /// 104 Hz
    Hz104,
    /// 208 Hz
    Hz208,
    /// 417 Hz
    Hz417,
    /// 833 Hz
    Hz833,
    /// 1667 Hz
    Hz1667,
    /// 3333 Hz
    Hz3333,
    /// 6667 Hz
    Hz6667,
}

impl BdrXl {
    /// The four-bit code of this batch data rate.
    pub open spec fn spec_bits(self) -> u8 {
        match self {
            BdrXl::Off => 0b0000,
            BdrXl::Hz6_5 => 0b1011,
            BdrXl::Hz12_5 => 0b0001,
            BdrXl::Hz26 => 0b0010,
            BdrXl::Hz52 => 0b0011,
            BdrXl::Hz104 => 0b0100,
            BdrXl::Hz208 => 0b0101,
            BdrXl::Hz417 => 0b0110,
            BdrXl::Hz833 => 0b0111,
            BdrXl::Hz1667 => 0b1000,
            BdrXl::Hz3333 => 0b1001,
            BdrXl::Hz6667 => 0b1010,
        }
    }

    /// The batch data rate named by a four-bit code; codes above 11 are not
    /// produced by the device's documented configurations.
    pub open spec fn spec_of_code(c: u8) -> BdrXl
        recommends
            c <= 11,
    {
        if c == 0 {
            BdrXl::Off
        } else if c == 1 {
            BdrXl::Hz12_5
        } else if c == 2 {
            BdrXl::Hz26
        } else if c == 3 {
            BdrXl::Hz52
        } else if c == 4 {
            BdrXl::Hz104
        } else if c == 5 {
            BdrXl::Hz208
        } else if c == 6 {
            BdrXl::Hz417
        } else if c == 7 {
            BdrXl::Hz833
        } else if c == 8 {
            BdrXl::Hz1667
        } else if c == 9 {
            BdrXl::Hz3333
        } else if c == 10 {
            BdrXl::Hz6667
        } else {
            BdrXl::Hz6_5
        }
    }

    pub fn bits(self) -> (r: u8)
        ensures
            r == self.spec_bits(),
    {
        match self {
            BdrXl::Off => 0b0000,
            BdrXl::Hz6_5 => 0b1011,
            BdrXl::Hz12_5 => 0b0001,
            BdrXl::Hz26 => 0b0010,
            BdrXl::Hz52 => 0b0011,
            BdrXl::Hz104 => 0b0100,
            BdrXl::Hz208 => 0b0101,
            BdrXl::Hz417 => 0b0110,
            BdrXl::Hz833 => 0b0111,
            BdrXl::Hz1667 => 0b1000,
            BdrXl::Hz3333 => 0b1001,
            BdrXl::Hz6667 => 0b1010,
        }
    }
}

/// The FIFO control register group, with its four cached bytes and the
/// device address it belongs to.
#[derive(Debug)]
pub struct FifoCtrl {
    pub address: u8,
    value: [u8; 4],
}

impl FifoCtrl {
    /// The four cached register bytes.
    pub closed spec fn bits(&self) -> Seq<u8> {
        self.value@
    }

    /// The device address the register group talks to.
    pub closed spec fn spec_address(&self) -> u8 {
        self.address
    }

    pub fn new(value: [u8; 4], address: u8) -> (r: Self)
        ensures
            r.bits() == value@,
            r.spec_address() == address,
    {
        FifoCtrl { address, value }
    }


    /// Point the register at a new device address; the cache is untouched.
    pub fn set_device_address(&mut self, address: u8)
        ensures
            final(self).spec_address() == address,
            final(self).bits() == old(self).bits(),
    {
        self.address = address;
    }

    /// The four cached register bytes, for callers that want the raw values.
    pub fn value(&self) -> (r: [u8; 4])
        ensures
            r@ == self.bits(),
    {
        self.value
    }

    /// Whether FIFO compression is enabled in the cached bytes.
    pub fn compression_enabled(&self) -> (r: bool)
        ensures
            r == flag_get(self.bits()[1], FIFO_COMPR_EN),
    {
        read_flag(self.value[1], FIFO_COMPR_EN)
    }

    /// Enable or disable compression of FIFO values, raising the FIFO
    /// capacity from 3 kB to at most 9 kB; commits the second byte.  The
    /// cache changes only when the transaction succeeds.
    pub fn compression<B: I2cBus>(&mut self, bus: &mut B, value: bool) -> (r: Result<
        (),
        B::Error,
    >)
        ensures
            final(self).spec_address() == old(self).spec_address(),
            r is Ok ==> final(self).bits() == old(self).bits().update(
                1,
                flag_set(old(self).bits()[1], FIFO_COMPR_EN, value),
            ),
            r is Err ==> final(self).bits() == old(self).bits(),
    {
        let b = write_flag(self.value[1], FIFO_COMPR_EN, value);
        match bus.write(self.address, ADDR + 1, b) {
            Ok(()) => {
                self.value = [self.value[0], b, self.value[2], self.value[3]];
                proof {
                    assert(self.value@ =~= old(self).bits().update(
                        1,
                        flag_set(old(self).bits()[1], FIFO_COMPR_EN, value),
                    ));
                }
                Ok(())
            },
            Err(e) => Err(e),
        }
    }

    /// The FIFO mode held by the cached bytes.
    ///
    /// A mode code of 2 or 5 can only arise from register content written
    /// by other software and is a defect, not a runtime error; such content
    /// is excluded by the precondition.
    pub fn fifo_mode(&self) -> (r: FifoMode)
        requires
            FifoMode::code_valid(field_get(self.bits()[3], MODE_OFFSET, MODE_MASK)),
        ensures
            r == FifoMode::spec_of_code(field_get(self.bits()[3], MODE_OFFSET, MODE_MASK)),
    {
        let c = read_field(self.value[3], MODE_OFFSET, MODE_MASK);
        if c == 0 {
            FifoMode::Bypass
        } else if c == 1 {
            FifoMode::FifoMode
        } else if c == 3 {
            FifoMode::ContinuousToFifo
        } else if c == 4 {
            FifoMode::BypassToContinuous
        } else if c == 6 {
            FifoMode::Continuous
        } else {
            FifoMode::BypassToFifo
        }
    }

    /// Set the FIFO mode (or disable the FIFO); commits the fourth byte.
    /// The cache changes only when the transaction succeeds.
    pub fn mode<B: I2cBus>(&mut self, bus: &mut B, mode: FifoMode) -> (r: Result<(), B::Error>)
        ensures
            final(self).spec_address() == old(self).spec_address(),
            r is Ok ==> final(self).bits() == old(self).bits().update(
                3,
                field_set(old(self).bits()[3], MODE_OFFSET, MODE_MASK, mode.spec_bits()),
            ),
            r is Err ==> final(self).bits() == old(self).bits(),
    {
        let b = write_field(self.value[3], MODE_OFFSET, MODE_MASK, mode.bits());
        match bus.write(self.address, ADDR + 3, b) {
            Ok(()) => {
                self.value = [self.value[0], self.value[1], self.value[2], b];
                proof {
                    assert(self.value@ =~= old(self).bits().update(
                        3,
                        field_set(old(self).bits()[3], MODE_OFFSET, MODE_MASK, mode.spec_bits()),
                    ));
                }
                Ok(())
            },
            Err(e) => Err(e),
        }
    }

    /// The accelerometer batch data rate held by the cached bytes.
    ///
    /// A code above 11 can only arise from register content written by
    /// other software and is a defect, not a runtime error; such content is
    /// excluded by the precondition.
    pub fn accelerometer_batch_data_rate(&self) -> (r: BdrXl)
        requires
            field_get(self.bits()[2], BDR_XL_OFFSET, BDR_MASK) <= 11,
        ensures
            r == BdrXl::spec_of_code(field_get(self.bits()[2], BDR_XL_OFFSET, BDR_MASK)),
    {
        let c = read_field(self.value[2], BDR_XL_OFFSET, BDR_MASK);
        if c == 0 {
            BdrXl::Off
        } else if c == 1 {
            BdrXl::Hz12_5
        } else if c == 2 {
            BdrXl::Hz26
        } else if c == 3 {
            BdrXl::Hz52
        } else if c == 4 {
            BdrXl::Hz104
        } else if c == 5 {
            BdrXl::Hz208
        } else if c == 6 {
            BdrXl::Hz417
        } else if c == 7 {
            BdrXl::Hz833
        } else if c == 8 {
            BdrXl::Hz1667
        } else if c == 9 {
            BdrXl::Hz3333
        } else if c == 10 {
            BdrXl::Hz6667
        } else {
            BdrXl::Hz6_5
        }
    }

    /// The gyroscope batch data rate held by the cached bytes.
    ///
    /// A code above 11 can only arise from register content written by
    /// other software and is a defect, not a runtime error; such content is
    /// excluded by the precondition.
    pub fn gyroscope_batch_data_rate(&self) -> (r: BdrGy)
        requires
            field_get(self.bits()[2], BDR_GY_OFFSET, BDR_MASK) <= 11,
        ensures
            r == BdrGy::spec_of_code(field_get(self.bits()[2], BDR_GY_OFFSET, BDR_MASK)),
    {
        let c = read_field(self.value[2], BDR_GY_OFFSET, BDR_MASK);
        if c == 0 {
            BdrGy::Off
        } else if c == 1 {
            BdrGy::Hz12_5
        } else if c == 2 {
            BdrGy::Hz26
        } else if c == 3 {
            BdrGy::Hz52
        } else if c == 4 {
            BdrGy::Hz104
        } else if c == 5 {
            BdrGy::Hz208
        } else if c == 6 {
            BdrGy::Hz417
        } else if c == 7 {
            BdrGy::Hz833
        } else if c == 8 {
            BdrGy::Hz1667
        } else if c == 9 {
            BdrGy::Hz3333
        } else if c == 10 {
            BdrGy::Hz6667
        } else {
            BdrGy::Hz6_5
        }
    }

    /// Set the batch data rate for the accelerometer stream; commits the
    /// third byte.  The cache changes only when the transaction succeeds.
    pub fn set_accelerometer_batch_data_rate<B: I2cBus>(&mut self, bus: &mut B, rate: BdrXl) -> (r:
        Result<(), B::Error>)
        ensures
            final(self).spec_address() == old(self).spec_address(),
            r is Ok ==> final(self).bits() == old(self).bits().update(
                2,
                field_set(old(self).bits()[2], BDR_XL_OFFSET, BDR_MASK, rate.spec_bits()),
            ),
            r is Err ==> final(self).bits() == old(self).bits(),
    {
        let b = write_field(self.value[2], BDR_XL_OFFSET, BDR_MASK, rate.bits());
        match bus.write(self.address, ADDR + 2, b) {
            Ok(()) => {
                self.value = [self.value[0], self.value[1], b, self.value[3]];
                proof {
                    assert(self.value@ =~= old(self).bits().update(
                        2,
                        field_set(old(self).bits()[2], BDR_XL_OFFSET, BDR_MASK, rate.spec_bits()),
                    ));
                }
                Ok(())
            },
            Err(e) => Err(e),
        }
    }

    /// Set the batch data rate for the gyroscope stream; commits the third
    /// byte.  The cache changes only when the transaction succeeds.
    pub fn set_gyroscope_batch_data_rate<B: I2cBus>(&mut self, bus: &mut B, rate: BdrGy) -> (r:
        Result<(), B::Error>)
        ensures
            final(self).spec_address() == old(self).spec_address(),
            r is Ok ==> final(self).bits() == old(self).bits().update(
                2,
                field_set(old(self).bits()[2], BDR_GY_OFFSET, BDR_MASK, rate.spec_bits()),
            ),
            r is Err ==> final(self).bits() == old(self).bits(),
    {
        let b = write_field(self.value[2], BDR_GY_OFFSET, BDR_MASK, rate.bits());
        match bus.write(self.address, ADDR + 2, b) {
            Ok(()) => {
                self.value = [self.value[0], self.value[1], b, self.value[3]];
                proof {
                    assert(self.value@ =~= old(self).bits().update(
                        2,
                        field_set(old(self).bits()[2], BDR_GY_OFFSET, BDR_MASK, rate.spec_bits()),
                    ));
                }
                Ok(())
            },
            Err(e) => Err(e),
        }
    }
}

/// Law: setting the compression bit, the FIFO mode or either batch data
/// rate and decoding it back yields the value just set.
pub proof fn lemma_fifoctrl_round_trip(v: u8, mode: FifoMode, gy: BdrGy, xl: BdrXl, on: bool)
    ensures
        flag_get(flag_set(v, FIFO_COMPR_EN, on), FIFO_COMPR_EN) == on,
        FifoMode::spec_of_code(
            field_get(
                field_set(v, MODE_OFFSET, MODE_MASK, mode.spec_bits()),
                MODE_OFFSET,
                MODE_MASK,
            ),
        ) == mode,
        FifoMode::code_valid(
            field_get(
                field_set(v, MODE_OFFSET, MODE_MASK, mode.spec_bits()),
                MODE_OFFSET,
                MODE_MASK,
            ),
        ),
        BdrXl::spec_of_code(
            field_get(
                field_set(v, BDR_XL_OFFSET, BDR_MASK, xl.spec_bits()),
                BDR_XL_OFFSET,
                BDR_MASK,
            ),
        ) == xl,
        BdrGy::spec_of_code(
            field_get(
                field_set(v, BDR_GY_OFFSET, BDR_MASK, gy.spec_bits()),
                BDR_GY_OFFSET,
                BDR_MASK,
            ),
        ) == gy,
{
    let m = mode.spec_bits();
    let g = gy.spec_bits();
    let x = xl.spec_bits();
    crate::bits::lemma_flag_set_get(v, FIFO_COMPR_EN, on);
    assert(((0b111u8 << 0) >> 0) == 0b111 && ((0xFu8 << 0) >> 0) == 0xF && ((0xFu8 << 4) >> 4)
        == 0xF) by (bit_vector);
    assert(m < 8 ==> (m & 0b111u8) == m) by (bit_vector);
    assert(g < 16 ==> (g & 0xFu8) == g) by (bit_vector);
    assert(x < 16 ==> (x & 0xFu8) == x) by (bit_vector);
    lemma_field_set_get(v, MODE_OFFSET, MODE_MASK, m);
    lemma_field_set_get(v, BDR_XL_OFFSET, BDR_MASK, x);
    lemma_field_set_get(v, BDR_GY_OFFSET, BDR_MASK, g);
}

/// Law: the two batch-data-rate fields share one byte, yet setting either
/// leaves the other's code unchanged.
pub proof fn lemma_fifoctrl_bdr_independent(v: u8, gy: BdrGy, xl: BdrXl)
    ensures
        field_get(field_set(v, BDR_XL_OFFSET, BDR_MASK, xl.spec_bits()), BDR_GY_OFFSET, BDR_MASK)
            == field_get(v, BDR_GY_OFFSET, BDR_MASK),
        field_get(field_set(v, BDR_GY_OFFSET, BDR_MASK, gy.spec_bits()), BDR_XL_OFFSET, BDR_MASK)
            == field_get(v, BDR_XL_OFFSET, BDR_MASK),
{
    assert(((0xFu8 << 0) & (0xFu8 << 4)) == 0 && ((0xFu8 << 4) & (0xFu8 << 0)) == 0)
        by (bit_vector);
    lemma_field_set_other(v, BDR_XL_OFFSET, BDR_MASK, xl.spec_bits(), BDR_GY_OFFSET, BDR_MASK);
    lemma_field_set_other(v, BDR_GY_OFFSET, BDR_MASK, gy.spec_bits(), BDR_XL_OFFSET, BDR_MASK);
}

} // verus!
