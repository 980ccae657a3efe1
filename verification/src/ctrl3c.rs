//! The CTRL3_C register: general control.
//!
//! Holds memory reboot, block data update, interrupt activation level,
//! push-pull/open-drain selection on the interrupt pins, SPI serial interface
//! mode, automatic register-address increment, and software reset.

use vstd::prelude::*;

use crate::bits::{flag_get, flag_set, lemma_flag_set_get, lemma_flag_set_other, read_flag,
    write_flag};
use crate::bus::I2cBus;

verus! {

/// Sub-address of the register.
pub const ADDR: u8 = 0x12;

/// Reboots memory content (0: normal mode; 1: reboot).  Automatically
/// cleared by the device; the accelerometer must be on.
pub const BOOT: u8 = 7;

/// Block data update (0: continuous update; 1: output registers are not
/// updated until both the low and the high byte have been read).
pub const BDU: u8 = 6;

/// Interrupt activation level (0: active high; 1: active low).
pub const H_LACTIVE: u8 = 5;

/// Push-pull/open-drain selection on the interrupt pins (0: push-pull;
/// 1: open-drain).  Must be 0 when `H_LACTIVE` is 1.
pub const PP_OD: u8 = 4;

/// SPI serial interface mode selection (0: 4-wire; 1: 3-wire).
pub const SIM: u8 = 3;

/// Automatic register-address increment during a multi-byte access
/// (0: disabled; 1: enabled).  Defaults to 1.
pub const IF_INC: u8 = 2;

/// Software reset (0: normal mode; 1: reset device).  Automatically cleared.
pub const SW_RESET: u8 = 0;

/// The general control register, with its cached byte and the device address
/// it belongs to.
#[derive(Debug)]
pub struct Ctrl3C {
    pub address: u8,
    value: u8,
}

impl Ctrl3C {
    /// The cached register byte.
    pub closed spec fn bits(&self) -> u8 {
        self.value
    }

    /// The device address the register talks to.
    pub closed spec fn spec_address(&self) -> u8 {
        self.address
    }

    pub fn new(value: u8, address: u8) -> (r: Self)
        ensures
            r.bits() == value,
            r.spec_address() == address,
    {
        Ctrl3C { address, value }
    }


    /// Point the register at a new device address; the cache is untouched.
    pub fn set_device_address(&mut self, address: u8)
        ensures
            final(self).spec_address() == address,
            final(self).bits() == old(self).bits(),
    {
        self.address = address;
    }

    /// The cached register byte, for callers that want the raw value.
    pub fn value(&self) -> (r: u8)
        ensures
            r == self.bits(),
    {
        self.value
    }

    fn flag(&self, off: u8) -> (r: bool)
        requires
            off < 8,
        ensures
            r == flag_get(self.bits(), off),
    {
        read_flag(self.value, off)
    }

    /// Set the single-bit field at `off` and commit the whole byte to the
    /// device; the cache changes only when the transaction succeeds.
    fn set_flag<B: I2cBus>(&mut self, bus: &mut B, off: u8, on: bool) -> (r: Result<
        (),
        B::Error,
    >)
        requires
            off < 8,
        ensures
            final(self).spec_address() == old(self).spec_address(),
            r is Ok ==> final(self).bits() == flag_set(old(self).bits(), off, on),
            r is Err ==> final(self).bits() == old(self).bits(),
    {
        let bits = write_flag(self.value, off, on);
        match bus.write(self.address, ADDR, bits) {
            Ok(()) => {
                self.value = bits;
                Ok(())
            },
            Err(e) => Err(e),
        }
    }

    pub fn boot(&self) -> (r: bool)
        ensures
            r == flag_get(self.bits(), BOOT),
    {
        self.flag(BOOT)
    }

    pub fn set_boot<B: I2cBus>(&mut self, bus: &mut B, value: bool) -> (r: Result<(), B::Error>)
        ensures
            final(self).spec_address() == old(self).spec_address(),
            r is Ok ==> final(self).bits() == flag_set(old(self).bits(), BOOT, value),
            r is Err ==> final(self).bits() == old(self).bits(),
    {
        self.set_flag(bus, BOOT, value)
    }

    pub fn bdu(&self) -> (r: bool)
        ensures
            r == flag_get(self.bits(), BDU),
    {
        self.flag(BDU)
    }

    pub fn set_bdu<B: I2cBus>(&mut self, bus: &mut B, value: bool) -> (r: Result<(), B::Error>)
        ensures
            final(self).spec_address() == old(self).spec_address(),
            r is Ok ==> final(self).bits() == flag_set(old(self).bits(), BDU, value),
            r is Err ==> final(self).bits() == old(self).bits(),
    {
        self.set_flag(bus, BDU, value)
    }

    /// Request a software reset: sets the self-clearing `SW_RESET` bit.
    pub fn sw_reset<B: I2cBus>(&mut self, bus: &mut B) -> (r: Result<(), B::Error>)
        ensures
            final(self).spec_address() == old(self).spec_address(),
            r is Ok ==> final(self).bits() == flag_set(old(self).bits(), SW_RESET, true),
            r is Err ==> final(self).bits() == old(self).bits(),
    {
        self.set_flag(bus, SW_RESET, true)
    }

    pub fn if_inc(&self) -> (r: bool)
        ensures
            r == flag_get(self.bits(), IF_INC),
    {
        self.flag(IF_INC)
    }

    pub fn set_if_inc<B: I2cBus>(&mut self, bus: &mut B, value: bool) -> (r: Result<(), B::Error>)
        ensures
            final(self).spec_address() == old(self).spec_address(),
            r is Ok ==> final(self).bits() == flag_set(old(self).bits(), IF_INC, value),
            r is Err ==> final(self).bits() == old(self).bits(),
    {
        self.set_flag(bus, IF_INC, value)
    }
}

/// Law: setting any named bit of the register reads back as the value just
/// set, and leaves every other named bit of the register unchanged.
pub proof fn lemma_ctrl3c_flags_round_trip(v: u8, off: u8, on: bool, off2: u8)
    requires
        off == BOOT || off == BDU || off == H_LACTIVE || off == PP_OD || off == SIM || off
            == IF_INC || off == SW_RESET,
        off2 == BOOT || off2 == BDU || off2 == H_LACTIVE || off2 == PP_OD || off2 == SIM || off2
            == IF_INC || off2 == SW_RESET,
        off != off2,
    ensures
        flag_get(flag_set(v, off, on), off) == on,
        flag_get(flag_set(v, off, on), off2) == flag_get(v, off2),
{
    lemma_flag_set_get(v, off, on);
    lemma_flag_set_other(v, off, on, off2);
}

} // verus!
