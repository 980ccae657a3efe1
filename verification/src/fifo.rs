//! The FIFO data-output register: a tagged burst of interleaved samples.
//!
//! Each pop is one seven-byte transaction: a tag byte whose top five bits
//! identify the producing channel, followed by six data bytes.  Tags 0, 1
//! and 2 are the empty, gyroscope and accelerometer channels; tags up to 25
//! are reserved or sensor-hub channels handed through raw; anything higher
//! cannot come from the device and is reported as an unknown tag.

use vstd::prelude::*;

use crate::bus::I2cBus;
use crate::ctrl1xl::Fs_Xl;
use crate::ctrl2g::Fs;
use crate::{sample_val, AccelValue, GyroValue};

verus! {

/// Sub-address of the FIFO data-output tag register.
pub const ADDR: u8 = 0x78;

/// The channel named by a five-bit FIFO tag.
#[derive(Copy, Clone, Eq, PartialEq, Debug)]
pub enum SensorTag {
    /// Nothing batched.
    Empty,
    /// Gyroscope, uncompressed.
    GyroscopeNC,
    /// Accelerometer, uncompressed.
    AccelerometerNC,
    /// A reserved or sensor-hub channel this driver does not interpret.
    Other(u8),
}

impl SensorTag {
    /// The channel named by a tag value: 0 is empty, 1 the gyroscope, 2 the
    /// accelerometer, anything up to 25 a channel handed through raw, and
    /// anything higher no tag the device can produce.
    pub open spec fn spec_try_from(v: u8) -> Result<SensorTag, ()> {
        if v == 0x00 {
            Ok(SensorTag::Empty)
        } else if v == 0x01 {
            Ok(SensorTag::GyroscopeNC)
        } else if v == 0x02 {
            Ok(SensorTag::AccelerometerNC)
        } else if v <= 0x19 {
            Ok(SensorTag::Other(v))
        } else {
            Err(())
        }
    }

    /// Classify a tag value.
    pub fn try_from(v: u8) -> (r: Result<SensorTag, ()>)
        ensures
            r == Self::spec_try_from(v),
    {
        if v == 0x00 {
            Ok(SensorTag::Empty)
        } else if v == 0x01 {
            Ok(SensorTag::GyroscopeNC)
        } else if v == 0x02 {
            Ok(SensorTag::AccelerometerNC)
        } else if v <= 0x19 {
            Ok(SensorTag::Other(v))
        } else {
            Err(())
        }
    }
}

/// One decoded FIFO entry.
#[derive(Copy, Clone, Debug)]
pub enum Value {
    /// The FIFO had nothing batched.
    Empty,
    /// A gyroscope sample, stamped with the range it was captured at.
    Gyro(GyroValue),
    /// An accelerometer sample, stamped with the range it was captured at.
    Accel(AccelValue),
    /// An uninterpreted channel: the tag and its six raw data bytes.
    Other(u8, [u8; 6]),
}

/// What a FIFO pop can fail with: a transport error, or a tag byte no
/// documented device state can produce — a defect reported explicitly
/// rather than decoded to a made-up entry.
#[derive(Debug)]
pub enum Error<E> {
    /// The bus transaction failed; the transport's error, verbatim.
    Bus(E),
    /// The tag (top five bits of the tag byte) is above 25.
    UnknownTag(u8),
}

impl Value {
    /// Decode one seven-byte FIFO burst: the top five bits of the first
    /// byte select the channel, the remaining six bytes are the sample,
    /// decoded at the supplied ranges.  An unrecognized tag is returned in
    /// the error.
    pub fn from_frame(frame: &[u8; 7], gyro_scale: Fs, accel_scale: Fs_Xl) -> (r: Result<
        Value,
        u8,
    >)
        ensures
            frame@[0] >> 3 == 0 ==> r == Ok::<Value, u8>(Value::Empty),
            frame@[0] >> 3 == 1 ==> (r matches Ok(v) && (v matches Value::Gyro(g)
                && g.spec_range() == gyro_scale && g.spec_count()[0] as int == sample_val(
                frame@[1],
                frame@[2],
            ) && g.spec_count()[1] as int == sample_val(frame@[3], frame@[4])
                && g.spec_count()[2] as int == sample_val(frame@[5], frame@[6]))),
            frame@[0] >> 3 == 2 ==> (r matches Ok(v) && (v matches Value::Accel(a)
                && a.spec_range() == accel_scale && a.spec_count()[0] as int == sample_val(
                frame@[1],
                frame@[2],
            ) && a.spec_count()[1] as int == sample_val(frame@[3], frame@[4])
                && a.spec_count()[2] as int == sample_val(frame@[5], frame@[6]))),
            3 <= frame@[0] >> 3 <= 25 ==> (r matches Ok(v) && (v matches Value::Other(t, d) && t
                == frame@[0] >> 3 && d@ == frame@.subrange(1, 7))),
            frame@[0] >> 3 > 25 ==> (r matches Err(t) && t == frame@[0] >> 3),
    {
        let tag = frame[0] >> 3;
        let data: [u8; 6] = [frame[1], frame[2], frame[3], frame[4], frame[5], frame[6]];
        proof {
            assert(data@ =~= frame@.subrange(1, 7));
        }
        match SensorTag::try_from(tag) {
            Ok(SensorTag::Empty) => Ok(Value::Empty),
            Ok(SensorTag::GyroscopeNC) => Ok(Value::Gyro(GyroValue::from_msr(gyro_scale, &data))),
            Ok(SensorTag::AccelerometerNC) => Ok(
                Value::Accel(AccelValue::from_msr(accel_scale, &data)),
            ),
            Ok(SensorTag::Other(u)) => Ok(Value::Other(u, data)),
            Err(()) => Err(tag),
        }
    }
}

/// The FIFO data-output register, addressed by the device it belongs to.
#[derive(Debug)]
pub struct FifoOut {
    pub address: u8,
}

impl FifoOut {
    pub fn new(address: u8) -> (r: Self)
        ensures
            r.address == address,
    {
        FifoOut { address }
    }

    /// Pop one entry from the FIFO: a single seven-byte transaction whose
    /// payload is decoded at the supplied ranges.  A sample entry is always
    /// stamped with the matching supplied range; an unknown-tag error only
    /// reports tags above 25.
    pub fn pop<B: I2cBus>(&self, bus: &mut B, gyro_scale: Fs, accel_scale: Fs_Xl) -> (r: Result<
        Value,
        Error<B::Error>,
    >)
        ensures
            r matches Ok(v) ==> (v matches Value::Gyro(g) ==> g.spec_range() == gyro_scale),
            r matches Ok(v) ==> (v matches Value::Accel(a) ==> a.spec_range() == accel_scale),
            r matches Err(e) ==> (e matches Error::UnknownTag(t) ==> t > 25),
    {
        match bus.write_read(self.address, ADDR, 7) {
            Ok(out) => {
                let frame: [u8; 7] = [out[0], out[1], out[2], out[3], out[4], out[5], out[6]];
                match Value::from_frame(&frame, gyro_scale, accel_scale) {
                    Ok(v) => Ok(v),
                    Err(t) => Err(Error::UnknownTag(t)),
                }
            },
            Err(e) => Err(Error::Bus(e)),
        }
    }
}

} // verus!
