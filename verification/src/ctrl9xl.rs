//! The CTRL9_XL (control 9) register: device configuration.
//!
//! Holds the per-axis DEN stamping enables, the DEN sensor selection and
//! active level, and the device-configuration bit the datasheet recommends
//! setting during setup.

use vstd::prelude::*;

use crate::bits::{flag_get, flag_set, lemma_flag_set_get, lemma_flag_set_other, read_flag,
    write_flag};
use crate::bus::I2cBus;

verus! {

/// Sub-address of the register.
pub const ADDR: u8 = 0x18;

/// DEN value stored in the LSB of the Z axis (0: not stored; 1: stored).
/// Defaults to 1.
pub const DEN_Z: u8 = 7;

/// DEN value stored in the LSB of the Y axis (0: not stored; 1: stored).
/// Defaults to 1.
pub const DEN_Y: u8 = 6;

/// DEN value stored in the LSB of the X axis (0: not stored; 1: stored).
/// Defaults to 1.
pub const DEN_X: u8 = 5;

/// DEN stamping sensor selection (0: gyroscope axes; 1: accelerometer axes).
pub const DEN_XL_G: u8 = 4;

/// Extends DEN functionality to the accelerometer (0: disabled; 1: enabled).
pub const DEN_XL_EN: u8 = 3;

/// DEN active level configuration (0: active low; 1: active high).
pub const DEN_LH: u8 = 2;

/// Enables the proper device configuration (0: default; 1: enabled).  The
/// datasheet recommends always setting this bit during configuration.
pub const DEVICE_CONF: u8 = 1;

/// The device-configuration control register, with its cached byte and the
/// device address it belongs to.
#[derive(Debug)]
pub struct Ctrl9Xl {
    pub address: u8,
    value: u8,
}

impl Ctrl9Xl {
    /// The cached register byte.
    pub closed spec fn bits(&self) -> u8 {
        self.value
    }

    /// The device address the register talks to.
    pub closed spec fn spec_address(&self) -> u8 {
        self.address
    }

    pub fn new(value: u8, address: u8) -> (r: Self)
        ensures
            r.bits() == value,
            r.spec_address() == address,
    {
        Ctrl9Xl { address, value }
    }


    /// Point the register at a new device address; the cache is untouched.
    pub fn set_device_address(&mut self, address: u8)
        ensures
            final(self).spec_address() == address,
            final(self).bits() == old(self).bits(),
    {
        self.address = address;
    }

    /// The cached register byte, for callers that want the raw value.
    pub fn value(&self) -> (r: u8)
        ensures
            r == self.bits(),
    {
        self.value
    }

    fn flag(&self, off: u8) -> (r: bool)
        requires
            off < 8,
        ensures
            r == flag_get(self.bits(), off),
    {
        read_flag(self.value, off)
    }

    /// Set the single-bit field at `off` and commit the whole byte to the
    /// device; the cache changes only when the transaction succeeds.
    fn set_flag<B: I2cBus>(&mut self, bus: &mut B, off: u8, on: bool) -> (r: Result<
        (),
        B::Error,
    >)
        requires
            off < 8,
        ensures
            final(self).spec_address() == old(self).spec_address(),
            r is Ok ==> final(self).bits() == flag_set(old(self).bits(), off, on),
            r is Err ==> final(self).bits() == old(self).bits(),
    {
        let bits = write_flag(self.value, off, on);
        match bus.write(self.address, ADDR, bits) {
            Ok(()) => {
                self.value = bits;
                Ok(())
            },
            Err(e) => Err(e),
        }
    }

    pub fn den_x(&self) -> (r: bool)
        ensures
            r == flag_get(self.bits(), DEN_X),
    {
        self.flag(DEN_X)
    }

    pub fn set_den_x<B: I2cBus>(&mut self, bus: &mut B, value: bool) -> (r: Result<(), B::Error>)
        ensures
            final(self).spec_address() == old(self).spec_address(),
            r is Ok ==> final(self).bits() == flag_set(old(self).bits(), DEN_X, value),
            r is Err ==> final(self).bits() == old(self).bits(),
    {
        self.set_flag(bus, DEN_X, value)
    }

    pub fn den_y(&self) -> (r: bool)
        ensures
            r == flag_get(self.bits(), DEN_Y),
    {
        self.flag(DEN_Y)
    }

    pub fn set_den_y<B: I2cBus>(&mut self, bus: &mut B, value: bool) -> (r: Result<(), B::Error>)
        ensures
            final(self).spec_address() == old(self).spec_address(),
            r is Ok ==> final(self).bits() == flag_set(old(self).bits(), DEN_Y, value),
            r is Err ==> final(self).bits() == old(self).bits(),
    {
        self.set_flag(bus, DEN_Y, value)
    }

    pub fn den_z(&self) -> (r: bool)
        ensures
            r == flag_get(self.bits(), DEN_Z),
    {
        self.flag(DEN_Z)
    }

    pub fn set_den_z<B: I2cBus>(&mut self, bus: &mut B, value: bool) -> (r: Result<(), B::Error>)
        ensures
            final(self).spec_address() == old(self).spec_address(),
            r is Ok ==> final(self).bits() == flag_set(old(self).bits(), DEN_Z, value),
            r is Err ==> final(self).bits() == old(self).bits(),
    {
        self.set_flag(bus, DEN_Z, value)
    }

    pub fn den_xl_g(&self) -> (r: bool)
        ensures
            r == flag_get(self.bits(), DEN_XL_G),
    {
        self.flag(DEN_XL_G)
    }

    pub fn set_den_xl_g<B: I2cBus>(&mut self, bus: &mut B, value: bool) -> (r: Result<
        (),
        B::Error,
    >)
        ensures
            final(self).spec_address() == old(self).spec_address(),
            r is Ok ==> final(self).bits() == flag_set(old(self).bits(), DEN_XL_G, value),
            r is Err ==> final(self).bits() == old(self).bits(),
    {
        self.set_flag(bus, DEN_XL_G, value)
    }

    pub fn den_xl_en(&self) -> (r: bool)
        ensures
            r == flag_get(self.bits(), DEN_XL_EN),
    {
        self.flag(DEN_XL_EN)
    }

    pub fn set_den_xl_en<B: I2cBus>(&mut self, bus: &mut B, value: bool) -> (r: Result<
        (),
        B::Error,
    >)
        ensures
            final(self).spec_address() == old(self).spec_address(),
            r is Ok ==> final(self).bits() == flag_set(old(self).bits(), DEN_XL_EN, value),
            r is Err ==> final(self).bits() == old(self).bits(),
    {
        self.set_flag(bus, DEN_XL_EN, value)
    }

    pub fn den_lh(&self) -> (r: bool)
        ensures
            r == flag_get(self.bits(), DEN_LH),
    {
        self.flag(DEN_LH)
    }

    pub fn set_den_lh<B: I2cBus>(&mut self, bus: &mut B, value: bool) -> (r: Result<(), B::Error>)
        ensures
            final(self).spec_address() == old(self).spec_address(),
            r is Ok ==> final(self).bits() == flag_set(old(self).bits(), DEN_LH, value),
            r is Err ==> final(self).bits() == old(self).bits(),
    {
        self.set_flag(bus, DEN_LH, value)
    }

    pub fn device_conf(&self) -> (r: bool)
        ensures
            r == flag_get(self.bits(), DEVICE_CONF),
    {
        self.flag(DEVICE_CONF)
    }

    pub fn set_device_conf<B: I2cBus>(&mut self, bus: &mut B, value: bool) -> (r: Result<
        (),
        B::Error,
    >)
        ensures
            final(self).spec_address() == old(self).spec_address(),
            r is Ok ==> final(self).bits() == flag_set(old(self).bits(), DEVICE_CONF, value),
            r is Err ==> final(self).bits() == old(self).bits(),
    {
        self.set_flag(bus, DEVICE_CONF, value)
    }
}

/// Law: setting any named bit of the register reads back as the value just
/// set, and leaves every other named bit of the register unchanged.
pub proof fn lemma_ctrl9xl_flags_round_trip(v: u8, off: u8, on: bool, off2: u8)
    requires
        off == DEN_X || off == DEN_Y || off == DEN_Z || off == DEN_XL_G || off == DEN_XL_EN
            || off == DEN_LH || off == DEVICE_CONF,
        off2 == DEN_X || off2 == DEN_Y || off2 == DEN_Z || off2 == DEN_XL_G || off2 == DEN_XL_EN
            || off2 == DEN_LH || off2 == DEVICE_CONF,
        off != off2,
    ensures
        flag_get(flag_set(v, off, on), off) == on,
        flag_get(flag_set(v, off, on), off2) == flag_get(v, off2),
{
    lemma_flag_set_get(v, off, on);
    lemma_flag_set_other(v, off, on, off2);
}

} // verus!
