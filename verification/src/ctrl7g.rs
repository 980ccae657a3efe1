//! The CTRL7_G register: gyroscope filtering and OIS control.
//!
//! Holds the gyroscope high-performance-mode disable, the digital high-pass
//! filter enable and its cutoff selection, the OIS chain controls and the
//! accelerometer user offset correction enable.

use vstd::prelude::*;

use crate::bits::{
    field_get, flag_get, flag_set, lemma_field_set_get, lemma_field_set_other, read_field,
    read_flag, write_field, write_flag,
};
use crate::bus::I2cBus;

verus! {

/// Sub-address of the register.
pub const ADDR: u8 = 0x16;

/// Disables the gyroscope high-performance operating mode (0: enabled;
/// 1: disabled).
pub const G_HM_MODE: u8 = 7;

/// Enables the gyroscope digital high-pass filter; effective only in
/// high-performance mode (0: disabled; 1: enabled).
pub const HP_EN_G: u8 = 6;

/// Width mask of the high-pass cutoff field.
pub const HPM_G_MASK: u8 = 0b11;

/// Bit offset of the high-pass cutoff field.
pub const HPM_G_OFFSET: u8 = 3;

/// Selects how the OIS chain is enabled after first configuration
/// (0: through the auxiliary SPI interface; 1: through the primary
/// interface).
pub const OIS_ON_EN: u8 = 2;

/// Enables the accelerometer user offset correction block on the low-pass
/// path (0: bypassed; 1: enabled).
pub const USR_OFF_ON_OUT: u8 = 1;

/// Enables the OIS chain from the primary interface when `OIS_ON_EN` is 1
/// (0: disabled; 1: enabled).
pub const OIS_ON: u8 = 0;

/// Gyroscope digital high-pass filter cutoff selection.
#[allow(non_camel_case_types)]
#[derive(Copy, Clone, Eq, PartialEq, Ord, PartialOrd, Hash, Debug)]
pub enum Hpm_g {
    /// 16 mHz cutoff.
    Hpmg16,
    /// 65 mHz cutoff.
    Hpmg65,
    /// 260 mHz cutoff.
    Hpmg260,
    /// 1.04 Hz cutoff.
    Hpmg104,
}

impl Hpm_g {
    /// The two-bit code of this cutoff selection.
    pub open spec fn spec_bits(self) -> u8 {
        match self {
            Hpm_g::Hpmg16 => 0,
            Hpm_g::Hpmg65 => 1,
            Hpm_g::Hpmg260 => 2,
            Hpm_g::Hpmg104 => 3,
        }
    }

    /// The cutoff selection named by a two-bit code.
    pub open spec fn spec_of_code(c: u8) -> Hpm_g
        recommends
            c < 4,
    {
        if c == 0 {
            Hpm_g::Hpmg16
        } else if c == 1 {
            Hpm_g::Hpmg65
        } else if c == 2 {
            Hpm_g::Hpmg260
        } else {
            Hpm_g::Hpmg104
        }
    }

    pub fn bits(self) -> (r: u8)
        ensures
            r == self.spec_bits(),
    {
        match self {
            Hpm_g::Hpmg16 => 0,
            Hpm_g::Hpmg65 => 1,
            Hpm_g::Hpmg260 => 2,
            Hpm_g::Hpmg104 => 3,
        }
    }
}

/// The gyroscope-filter control register, with its cached byte and the
/// device address it belongs to.
#[derive(Debug)]
pub struct Ctrl7G {
    pub address: u8,
    value: u8,
}

impl Ctrl7G {
    /// The cached register byte.
    pub closed spec fn bits(&self) -> u8 {
        self.value
    }

    /// The device address the register talks to.
    pub closed spec fn spec_address(&self) -> u8 {
        self.address
    }

    /// The high-pass cutoff selection held by the byte `v`.
    pub open spec fn spec_hpm_g(v: u8) -> Hpm_g {
        Hpm_g::spec_of_code(field_get(v, HPM_G_OFFSET, HPM_G_MASK))
    }

    /// The byte `v` with the high-pass cutoff selection replaced by `value`.
    pub open spec fn spec_set_hpm_g(v: u8, value: Hpm_g) -> u8 {
        crate::bits::field_set(v, HPM_G_OFFSET, HPM_G_MASK, value.spec_bits())
    }

    pub fn new(value: u8, address: u8) -> (r: Self)
        ensures
            r.bits() == value,
            r.spec_address() == address,
    {
        Ctrl7G { address, value }
    }


    /// Point the register at a new device address; the cache is untouched.
    pub fn set_device_address(&mut self, address: u8)
        ensures
            final(self).spec_address() == address,
            final(self).bits() == old(self).bits(),
    {
        self.address = address;
    }

    /// The cached register byte, for callers that want the raw value.
    pub fn value(&self) -> (r: u8)
        ensures
            r == self.bits(),
    {
        self.value
    }

    fn flag(&self, off: u8) -> (r: bool)
        requires
            off < 8,
        ensures
            r == flag_get(self.bits(), off),
    {
        read_flag(self.value, off)
    }

    /// Set the single-bit field at `off` and commit the whole byte to the
    /// device; the cache changes only when the transaction succeeds.
    fn set_flag<B: I2cBus>(&mut self, bus: &mut B, off: u8, on: bool) -> (r: Result<
        (),
        B::Error,
    >)
        requires
            off < 8,
        ensures
            final(self).spec_address() == old(self).spec_address(),
            r is Ok ==> final(self).bits() == flag_set(old(self).bits(), off, on),
            r is Err ==> final(self).bits() == old(self).bits(),
    {
        let bits = write_flag(self.value, off, on);
        match bus.write(self.address, ADDR, bits) {
            Ok(()) => {
                self.value = bits;
                Ok(())
            },
            Err(e) => Err(e),
        }
    }

    /// The currently selected high-pass filter cutoff.
    pub fn hpm_g(&self) -> (r: Hpm_g)
        ensures
            r == Self::spec_hpm_g(self.bits()),
    {
        let c = read_field(self.value, HPM_G_OFFSET, HPM_G_MASK);
        if c == 0 {
            Hpm_g::Hpmg16
        } else if c == 1 {
            Hpm_g::Hpmg65
        } else if c == 2 {
            Hpm_g::Hpmg260
        } else {
            Hpm_g::Hpmg104
        }
    }

    /// Select the high-pass filter cutoff and commit the register byte.
    pub fn set_hpm_g<B: I2cBus>(&mut self, bus: &mut B, value: Hpm_g) -> (r: Result<
        (),
        B::Error,
    >)
        ensures
            final(self).spec_address() == old(self).spec_address(),
            r is Ok ==> final(self).bits() == Self::spec_set_hpm_g(old(self).bits(), value),
            r is Err ==> final(self).bits() == old(self).bits(),
    {
        let bits = write_field(self.value, HPM_G_OFFSET, HPM_G_MASK, value.bits());
        match bus.write(self.address, ADDR, bits) {
            Ok(()) => {
                self.value = bits;
                Ok(())
            },
            Err(e) => Err(e),
        }
    }

    pub fn g_hm_mode(&self) -> (r: bool)
        ensures
            r == flag_get(self.bits(), G_HM_MODE),
    {
        self.flag(G_HM_MODE)
    }

    pub fn set_g_hm_mode<B: I2cBus>(&mut self, bus: &mut B, value: bool) -> (r: Result<
        (),
        B::Error,
    >)
        ensures
            final(self).spec_address() == old(self).spec_address(),
            r is Ok ==> final(self).bits() == flag_set(old(self).bits(), G_HM_MODE, value),
            r is Err ==> final(self).bits() == old(self).bits(),
    {
        self.set_flag(bus, G_HM_MODE, value)
    }

    pub fn ois_on_en(&self) -> (r: bool)
        ensures
            r == flag_get(self.bits(), OIS_ON_EN),
    {
        self.flag(OIS_ON_EN)
    }

    pub fn set_ois_on_en<B: I2cBus>(&mut self, bus: &mut B, value: bool) -> (r: Result<
        (),
        B::Error,
    >)
        ensures
            final(self).spec_address() == old(self).spec_address(),
            r is Ok ==> final(self).bits() == flag_set(old(self).bits(), OIS_ON_EN, value),
            r is Err ==> final(self).bits() == old(self).bits(),
    {
        self.set_flag(bus, OIS_ON_EN, value)
    }

    pub fn usr_off_on_out(&self) -> (r: bool)
        ensures
            r == flag_get(self.bits(), USR_OFF_ON_OUT),
    {
        self.flag(USR_OFF_ON_OUT)
    }

    pub fn set_usr_off_on_out<B: I2cBus>(&mut self, bus: &mut B, value: bool) -> (r: Result<
        (),
        B::Error,
    >)
        ensures
            final(self).spec_address() == old(self).spec_address(),
            r is Ok ==> final(self).bits() == flag_set(old(self).bits(), USR_OFF_ON_OUT, value),
            r is Err ==> final(self).bits() == old(self).bits(),
    {
        self.set_flag(bus, USR_OFF_ON_OUT, value)
    }

    pub fn ois_on(&self) -> (r: bool)
        ensures
            r == flag_get(self.bits(), OIS_ON),
    {
        self.flag(OIS_ON)
    }

    pub fn set_ois_on<B: I2cBus>(&mut self, bus: &mut B, value: bool) -> (r: Result<
        (),
        B::Error,
    >)
        ensures
            final(self).spec_address() == old(self).spec_address(),
            r is Ok ==> final(self).bits() == flag_set(old(self).bits(), OIS_ON, value),
            r is Err ==> final(self).bits() == old(self).bits(),
    {
        self.set_flag(bus, OIS_ON, value)
    }
}

/// Law: selecting a high-pass cutoff and reading it back yields the cutoff
/// just selected, and leaves every bit outside the cutoff field unchanged.
pub proof fn lemma_ctrl7g_hpm_g_round_trip(v: u8, value: Hpm_g)
    ensures
        Ctrl7G::spec_hpm_g(Ctrl7G::spec_set_hpm_g(v, value)) == value,
        Ctrl7G::spec_set_hpm_g(v, value) & !(HPM_G_MASK << HPM_G_OFFSET) == v & !(HPM_G_MASK
            << HPM_G_OFFSET),
{
    assert(((3u8 << 3) >> 3) == 3 && (0u8 & 3) == 0 && (1u8 & 3) == 1 && (2u8 & 3) == 2 && (3u8
        & 3) == 3) by (bit_vector);
    lemma_field_set_get(v, HPM_G_OFFSET, HPM_G_MASK, value.spec_bits());
}

/// Law: selecting a high-pass cutoff leaves every single-bit field of the
/// register unchanged, and setting any single-bit field leaves the cutoff
/// selection unchanged.
pub proof fn lemma_ctrl7g_hpm_g_independent(v: u8, value: Hpm_g, off: u8, on: bool)
    requires
        off == G_HM_MODE || off == HP_EN_G || off == OIS_ON_EN || off == USR_OFF_ON_OUT || off
            == OIS_ON,
    ensures
        flag_get(Ctrl7G::spec_set_hpm_g(v, value), off) == flag_get(v, off),
        Ctrl7G::spec_hpm_g(flag_set(v, off, on)) == Ctrl7G::spec_hpm_g(v),
{
    assert(((3u8 << 3) & (1u8 << 7)) == 0 && ((3u8 << 3) & (1u8 << 6)) == 0 && ((3u8 << 3) & (1u8
        << 2)) == 0 && ((3u8 << 3) & (1u8 << 1)) == 0 && ((3u8 << 3) & (1u8 << 0)) == 0 && ((1u8
        << 7) & (3u8 << 3)) == 0 && ((1u8 << 6) & (3u8 << 3)) == 0 && ((1u8 << 2) & (3u8 << 3))
        == 0 && ((1u8 << 1) & (3u8 << 3)) == 0 && ((1u8 << 0) & (3u8 << 3)) == 0) by (bit_vector);
    lemma_field_set_other(v, HPM_G_OFFSET, HPM_G_MASK, value.spec_bits(), off, 1);
    let c: u8 = if on {
        1
    } else {
        0
    };
    lemma_field_set_other(v, off, 1, c, HPM_G_OFFSET, HPM_G_MASK);
}

} // verus!
