//! Register-level driver for the ISM330DHCX six-axis inertial sensor
//! (three-axis gyroscope and three-axis accelerometer with an integrated
//! FIFO and temperature channel) on a two-wire serial bus.
//!
//! The driver models each control register as a typed bitfield over a
//! cached byte, translates between configuration values and raw bit
//! patterns, decodes raw sample bursts into range-stamped counts, and
//! drains the tagged FIFO.  All bus traffic goes through the caller's
//! implementation of the [`I2cBus`] transaction primitive; samples carry
//! their capture range so a later conversion to physical units cannot
//! silently use the wrong sensitivity.
//!
//! Counts convert to physical quantities through the exact integer
//! sensitivity tables ([`ctrl2g::Fs::sensitivity_micro_dps`] and
//! [`ctrl1xl::Fs_Xl::sensitivity_micro_g`]); scaling to floating-point
//! units is left to the embedding application.

use vstd::prelude::*;

pub mod bits;
mod bus;
pub mod ctrl1xl;
pub mod ctrl2g;
pub mod ctrl3c;
pub mod ctrl7g;
pub mod ctrl9xl;
pub mod fifo;
pub mod fifoctrl;
pub mod fifostatus;

pub use bus::I2cBus;

use ctrl1xl::Ctrl1Xl;
use ctrl2g::Ctrl2G;
use ctrl3c::Ctrl3C;
use ctrl7g::Ctrl7G;
use ctrl9xl::Ctrl9Xl;
use fifoctrl::FifoCtrl;
use fifostatus::FifoStatus;

verus! {

/// Default bus address of the device; the alternate strapping is `0x6a`.
pub const DEFAULT_I2C_ADDRESS: u8 = 0x6b;

/// The signed sixteen-bit sample value held by a little-endian byte pair.
pub open spec fn sample_val(lo: u8, hi: u8) -> int {
    if hi >= 0x80 {
        (hi as int) * 256 + (lo as int) - 0x10000
    } else {
        (hi as int) * 256 + (lo as int)
    }
}

/// Assemble a signed sixteen-bit sample from its little-endian byte pair.
fn le_i16(lo: u8, hi: u8) -> (r: i16)
    ensures
        r as int == sample_val(lo, hi),
{
    let wide: i32 = (hi as i32) * 256 + (lo as i32);
    let signed: i32 = if wide >= 0x8000 {
        wide - 0x10000
    } else {
        wide
    };
    signed as i16
}

/// The product of a sixteen-bit count and a thirty-two-bit sensitivity
/// stays far inside the sixty-four-bit range.
proof fn lemma_scale_bound(c: int, s: int)
    by (nonlinear_arith)
    requires
        -32768 <= c <= 32767,
        0 <= s <= 4294967295,
    ensures
        -140737488355328 <= c * s <= 140737488355328,
{
}

/// Scale a raw count by an integer sensitivity, exactly.
fn scale_count(c: i16, s: u32) -> (r: i64)
    ensures
        r as int == c as int * s as int,
{
    proof {
        lemma_scale_bound(c as int, s as int);
    }
    (c as i64) * (s as i64)
}

/// The temperature, in 1/256ths of a degree Celsius, held by a raw count
/// from the temperature output registers: the device yields 256 counts per
/// degree, and a raw count of zero means exactly 25 °C.
pub fn temperature_celsius_q8(raw: i16) -> (t: i32)
    ensures
        t == raw as int + 25 * 256,
{
    (raw as i32) + 6400
}

/// A three-axis gyroscope sample: raw signed counts stamped with the
/// full-scale range in effect when it was captured.
#[derive(Copy, Clone, Debug)]
pub struct GyroValue {
    range: ctrl2g::Fs,
    count: [i16; 3],
}

impl GyroValue {
    /// The range the sample was captured at.
    pub closed spec fn spec_range(&self) -> ctrl2g::Fs {
        self.range
    }

    /// The raw counts, x, y and z.
    pub closed spec fn spec_count(&self) -> [i16; 3] {
        self.count
    }

    pub fn new(range: ctrl2g::Fs, count: [i16; 3]) -> (r: GyroValue)
        ensures
            r.spec_range() == range,
            r.spec_count() == count,
    {
        GyroValue { range, count }
    }

    /// Decode a six-byte measurement burst — three little-endian signed
    /// sixteen-bit counts — captured at `range`.
    pub fn from_msr(range: ctrl2g::Fs, measurements: &[u8; 6]) -> (r: GyroValue)
        ensures
            r.spec_range() == range,
            r.spec_count()[0] as int == sample_val(measurements@[0], measurements@[1]),
            r.spec_count()[1] as int == sample_val(measurements@[2], measurements@[3]),
            r.spec_count()[2] as int == sample_val(measurements@[4], measurements@[5]),
    {
        let raw_gyro_x = le_i16(measurements[0], measurements[1]);
        let raw_gyro_y = le_i16(measurements[2], measurements[3]);
        let raw_gyro_z = le_i16(measurements[4], measurements[5]);
        GyroValue { range, count: [raw_gyro_x, raw_gyro_y, raw_gyro_z] }
    }

    /// The raw counts.
    pub fn count(&self) -> (r: [i16; 3])
        ensures
            r == self.spec_count(),
    {
        self.count
    }

    /// The range the sample was captured at.
    pub fn range(&self) -> (r: ctrl2g::Fs)
        ensures
            r == self.spec_range(),
    {
        self.range
    }

    /// The angular rate in micro-degrees per second, exactly: each count
    /// scaled by the sensitivity of the range the sample carries.
    pub fn as_micro_dps(&self) -> (r: [i64; 3])
        ensures
            r@[0] == self.spec_count()[0] as int
                * self.spec_range().spec_sensitivity_micro_dps(),
            r@[1] == self.spec_count()[1] as int
                * self.spec_range().spec_sensitivity_micro_dps(),
            r@[2] == self.spec_count()[2] as int
                * self.spec_range().spec_sensitivity_micro_dps(),
    {
        let s = self.range.sensitivity_micro_dps();
        [scale_count(self.count[0], s), scale_count(self.count[1], s), scale_count(
            self.count[2],
            s,
        )]
    }
}

/// A three-axis accelerometer sample: raw signed counts stamped with the
/// full-scale range in effect when it was captured.
#[derive(Copy, Clone, Debug)]
pub struct AccelValue {
    range: ctrl1xl::Fs_Xl,
    count: [i16; 3],
}

impl AccelValue {
    /// The range the sample was captured at.
    pub closed spec fn spec_range(&self) -> ctrl1xl::Fs_Xl {
        self.range
    }

    /// The raw counts, x, y and z.
    pub closed spec fn spec_count(&self) -> [i16; 3] {
        self.count
    }

    pub fn new(range: ctrl1xl::Fs_Xl, count: [i16; 3]) -> (r: AccelValue)
        ensures
            r.spec_range() == range,
            r.spec_count() == count,
    {
        AccelValue { range, count }
    }

    /// Decode a six-byte measurement burst — three little-endian signed
    /// sixteen-bit counts — captured at `range`.
    pub fn from_msr(range: ctrl1xl::Fs_Xl, measurements: &[u8; 6]) -> (r: AccelValue)
        ensures
            r.spec_range() == range,
            r.spec_count()[0] as int == sample_val(measurements@[0], measurements@[1]),
            r.spec_count()[1] as int == sample_val(measurements@[2], measurements@[3]),
            r.spec_count()[2] as int == sample_val(measurements@[4], measurements@[5]),
    {
        let raw_acc_x = le_i16(measurements[0], measurements[1]);
        let raw_acc_y = le_i16(measurements[2], measurements[3]);
        let raw_acc_z = le_i16(measurements[4], measurements[5]);
        AccelValue { range, count: [raw_acc_x, raw_acc_y, raw_acc_z] }
    }

    /// The raw counts.
    pub fn count(&self) -> (r: [i16; 3])
        ensures
            r == self.spec_count(),
    {
        self.count
    }

    /// The range the sample was captured at.
    pub fn range(&self) -> (r: ctrl1xl::Fs_Xl)
        ensures
            r == self.spec_range(),
    {
        self.range
    }

    /// The acceleration in micro-g, exactly: each count scaled by the
    /// sensitivity of the range the sample carries.
    pub fn as_micro_g(&self) -> (r: [i64; 3])
        ensures
            r@[0] == self.spec_count()[0] as int * self.spec_range().spec_sensitivity_micro_g(),
            r@[1] == self.spec_count()[1] as int * self.spec_range().spec_sensitivity_micro_g(),
            r@[2] == self.spec_count()[2] as int * self.spec_range().spec_sensitivity_micro_g(),
    {
        let s = self.range.sensitivity_micro_g();
        [scale_count(self.count[0], s), scale_count(self.count[1], s), scale_count(
            self.count[2],
            s,
        )]
    }
}

/// Law: an all-zero raw sample decodes to exactly zero — the byte-pair
/// decoder maps zero bytes to a zero count, and scaling a zero count by any
/// range's sensitivity yields zero micro-units, so the conversion path
/// injects no offset.
pub proof fn lemma_zero_raw_decodes_to_zero(gyro_scale: ctrl2g::Fs, accel_scale: ctrl1xl::Fs_Xl)
    ensures
        sample_val(0, 0) == 0,
        0 * gyro_scale.spec_sensitivity_micro_dps() == 0,
        0 * accel_scale.spec_sensitivity_micro_g() == 0,
{
}

/// The device facade: every control register of one device, sharing one
/// bus address, with the sample and FIFO accessors.
pub struct Ism330Dhcx {
    pub address: u8,
    pub ctrl1xl: Ctrl1Xl,
    pub ctrl2g: Ctrl2G,
    pub ctrl3c: Ctrl3C,
    pub ctrl7g: Ctrl7G,
    pub ctrl9xl: Ctrl9Xl,
    pub fifoctrl: FifoCtrl,
    pub fifostatus: FifoStatus,
}

impl Ism330Dhcx {
    /// Whether every part of the facade is scoped to the address `a`.
    pub open spec fn addressed_to(&self, a: u8) -> bool {
        &&& self.address == a
        &&& self.ctrl1xl.spec_address() == a
        &&& self.ctrl2g.spec_address() == a
        &&& self.ctrl3c.spec_address() == a
        &&& self.ctrl7g.spec_address() == a
        &&& self.ctrl9xl.spec_address() == a
        &&& self.fifoctrl.spec_address() == a
        &&& self.fifostatus.address == a
    }

    /// Distribute freshly read register content into a facade scoped to
    /// `address`: byte 0 of the control burst (read from the accelerometer
    /// control sub-address) seeds CTRL1_XL, byte 1 CTRL2_G, byte 2 CTRL3_C,
    /// byte 6 CTRL7_G and byte 8 CTRL9_XL; the four bytes of the
    /// FIFO-control read (from its own sub-address block) seed FIFO_CTRL1
    /// to FIFO_CTRL4.
    pub fn seed_from_bursts(control: &Vec<u8>, fifo_ctrl: &Vec<u8>, address: u8) -> (d: Self)
        requires
            control@.len() == 13,
            fifo_ctrl@.len() == 4,
        ensures
            d.addressed_to(address),
            d.ctrl1xl.bits() == control@[0],
            d.ctrl2g.bits() == control@[1],
            d.ctrl3c.bits() == control@[2],
            d.ctrl7g.bits() == control@[6],
            d.ctrl9xl.bits() == control@[8],
            d.fifoctrl.bits() == fifo_ctrl@,
    {
        let ctrl1xl = Ctrl1Xl::new(control[0], address);
        let ctrl2g = Ctrl2G::new(control[1], address);
        let ctrl3c = Ctrl3C::new(control[2], address);
        let ctrl7g = Ctrl7G::new(control[6], address);
        let ctrl9xl = Ctrl9Xl::new(control[8], address);
        let fifoctrl = FifoCtrl::new(
            [fifo_ctrl[0], fifo_ctrl[1], fifo_ctrl[2], fifo_ctrl[3]],
            address,
        );
        proof {
            assert(fifoctrl.bits() =~= fifo_ctrl@);
        }
        let fifostatus = FifoStatus::new(address);
        Ism330Dhcx { address, ctrl1xl, ctrl2g, ctrl3c, ctrl7g, ctrl9xl, fifoctrl, fifostatus }
    }

    /// Open a device at the default bus address; see
    /// [`Self::new_with_address`] for the transactions issued.
    pub fn new<B: I2cBus>(bus: &mut B) -> (r: Result<Self, B::Error>)
        ensures
            r matches Ok(d) ==> d.addressed_to(DEFAULT_I2C_ADDRESS),
    {
        Self::new_with_address(bus, DEFAULT_I2C_ADDRESS)
    }

    /// Open a device at a caller-supplied bus address: one thirteen-byte
    /// burst read starting at the accelerometer control sub-address covers
    /// the control registers, and one four-byte read of the FIFO-control
    /// block covers its quad; [`Self::seed_from_bursts`] states which byte
    /// seeds which cache.  A transport error is propagated verbatim and no
    /// device is built.
    pub fn new_with_address<B: I2cBus>(bus: &mut B, address: u8) -> (r: Result<Self, B::Error>)
        ensures
            r matches Ok(d) ==> d.addressed_to(address),
    {
        match bus.write_read(address, ctrl1xl::ADDR, 13) {
            Ok(registers) => match bus.write_read(address, fifoctrl::ADDR, 4) {
                Ok(fifo_bytes) => Ok(Self::seed_from_bursts(&registers, &fifo_bytes, address)),
                Err(e) => Err(e),
            },
            Err(e) => Err(e),
        }
    }

    /// Move the device handle to a new address: the facade and every owned
    /// register end up scoped to it.  No register cache changes, and no
    /// validation is applied.
    pub fn set_address(&mut self, address: u8)
        ensures
            final(self).address == address,
            final(self).ctrl1xl.spec_address() == address,
            final(self).ctrl2g.spec_address() == address,
            final(self).ctrl3c.spec_address() == address,
            final(self).ctrl7g.spec_address() == address,
            final(self).ctrl9xl.spec_address() == address,
            final(self).fifoctrl.spec_address() == address,
            final(self).fifostatus.address == address,
            final(self).ctrl1xl.bits() == old(self).ctrl1xl.bits(),
            final(self).ctrl2g.bits() == old(self).ctrl2g.bits(),
            final(self).ctrl3c.bits() == old(self).ctrl3c.bits(),
            final(self).ctrl7g.bits() == old(self).ctrl7g.bits(),
            final(self).ctrl9xl.bits() == old(self).ctrl9xl.bits(),
            final(self).fifoctrl.bits() == old(self).fifoctrl.bits(),
    {
        self.address = address;
        self.ctrl1xl.set_device_address(address);
        self.ctrl2g.set_device_address(address);
        self.ctrl3c.set_device_address(address);
        self.ctrl7g.set_device_address(address);
        self.ctrl9xl.set_device_address(address);
        self.fifoctrl.set_device_address(address);
        self.fifostatus.address = address;
    }

    /// Read the temperature output registers: one two-byte transaction,
    /// decoded as a little-endian signed count.  Convert to degrees with
    /// [`temperature_celsius_q8`]: 256 counts per degree, zero = 25 °C.
    pub fn get_temperature<B: I2cBus>(&self, bus: &mut B) -> Result<i16, B::Error> {
        match bus.write_read(self.address, 0x20, 2) {
            Ok(measurements) => Ok(le_i16(measurements[0], measurements[1])),
            Err(e) => Err(e),
        }
    }

    /// Read a gyroscope sample: one six-byte transaction, decoded and
    /// stamped with the full-scale range currently cached in `ctrl2g`.
    pub fn get_gyroscope<B: I2cBus>(&self, bus: &mut B) -> (r: Result<GyroValue, B::Error>)
        ensures
            r matches Ok(v) ==> v.spec_range() == Ctrl2G::spec_chain_full_scale(
                self.ctrl2g.bits(),
            ),
    {
        let scale = self.ctrl2g.chain_full_scale();
        match bus.write_read(self.address, 0x22, 6) {
            Ok(m) => {
                let measurements: [u8; 6] = [m[0], m[1], m[2], m[3], m[4], m[5]];
                Ok(GyroValue::from_msr(scale, &measurements))
            },
            Err(e) => Err(e),
        }
    }

    /// Read an accelerometer sample: one six-byte transaction, decoded and
    /// stamped with the full-scale range currently cached in `ctrl1xl`.
    pub fn get_accelerometer<B: I2cBus>(&self, bus: &mut B) -> (r: Result<AccelValue, B::Error>)
        ensures
            r matches Ok(v) ==> v.spec_range() == Ctrl1Xl::spec_chain_full_scale(
                self.ctrl1xl.bits(),
            ),
    {
        let scale = self.ctrl1xl.chain_full_scale();
        match bus.write_read(self.address, 0x28, 6) {
            Ok(m) => {
                let measurements: [u8; 6] = [m[0], m[1], m[2], m[3], m[4], m[5]];
                Ok(AccelValue::from_msr(scale, &measurements))
            },
            Err(e) => Err(e),
        }
    }

    /// Pop one FIFO entry, decoding its payload at the full-scale ranges
    /// currently cached in `ctrl2g` and `ctrl1xl`.
    pub fn fifo_pop<B: I2cBus>(&self, bus: &mut B) -> (r: Result<
        fifo::Value,
        fifo::Error<B::Error>,
    >)
        ensures
            r matches Ok(v) ==> (v matches fifo::Value::Gyro(g) ==> g.spec_range()
                == Ctrl2G::spec_chain_full_scale(self.ctrl2g.bits())),
            r matches Ok(v) ==> (v matches fifo::Value::Accel(a) ==> a.spec_range()
                == Ctrl1Xl::spec_chain_full_scale(self.ctrl1xl.bits())),
            r matches Err(e) ==> (e matches fifo::Error::UnknownTag(t) ==> t > 25),
    {
        let gyro_scale = self.ctrl2g.chain_full_scale();
        let accel_scale = self.ctrl1xl.chain_full_scale();
        fifo::FifoOut::new(self.address).pop(bus, gyro_scale, accel_scale)
    }
}

} // verus!
