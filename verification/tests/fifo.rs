use std::collections::VecDeque;

use ism330dhcx::ctrl1xl::Fs_Xl;
use ism330dhcx::ctrl2g::Fs;
use ism330dhcx::fifo::{Error, FifoOut, SensorTag, Value};
use ism330dhcx::{I2cBus, DEFAULT_I2C_ADDRESS};

struct Mock {
    reads: VecDeque<(u8, u8, usize, Vec<u8>)>,
}

impl Mock {
    fn new(reads: Vec<(u8, u8, usize, Vec<u8>)>) -> Mock {
        Mock { reads: reads.into_iter().collect() }
    }
}

impl I2cBus for Mock {
    type Error = u8;

    fn write(&mut self, _address: u8, _sub: u8, _value: u8) -> Result<(), u8> {
        panic!("unexpected write transaction")
    }

    fn write_read(&mut self, address: u8, sub: u8, n: usize) -> Result<Vec<u8>, u8> {
        match self.reads.pop_front() {
            Some((a, s, m, response)) => {
                assert_eq!((address, sub, n), (a, s, m));
                Ok(response)
            }
            None => panic!("unexpected write-read transaction"),
        }
    }
}

#[test]
fn test_pop_gyro() {
    let mut i2c = Mock::new(vec![(0x6b, 0x78, 7, vec![0x01 << 3, 0, 1, 0, 2, 0, 4])]);

    let f = FifoOut::new(DEFAULT_I2C_ADDRESS);
    let v = f.pop(&mut i2c, Fs::Dps250, Fs_Xl::G2).unwrap();

    assert!(matches!(v, Value::Gyro(_)));
    println!("{:?}", v);
}

#[test]
fn pop_gyro_decodes_counts_and_range() {
    let mut i2c = Mock::new(vec![(0x6b, 0x78, 7, vec![0b001 << 3, 0, 1, 0, 2, 0, 4])]);

    let f = FifoOut::new(DEFAULT_I2C_ADDRESS);
    match f.pop(&mut i2c, Fs::Dps500, Fs_Xl::G2).unwrap() {
        Value::Gyro(g) => {
            assert_eq!(g.count(), [256, 512, 1024]);
            assert_eq!(g.range(), Fs::Dps500);
        }
        v => panic!("expected a gyroscope entry, got {:?}", v),
    }
}

#[test]
fn pop_accel_tag_gives_accelerometer_entry() {
    let mut i2c = Mock::new(vec![(0x6b, 0x78, 7, vec![0b010 << 3, 0x69, 0x16, 0, 0, 0, 0])]);

    let f = FifoOut::new(DEFAULT_I2C_ADDRESS);
    match f.pop(&mut i2c, Fs::Dps250, Fs_Xl::G4).unwrap() {
        Value::Accel(a) => {
            assert_eq!(a.count(), [0x1669, 0, 0]);
            assert_eq!(a.range(), Fs_Xl::G4);
        }
        v => panic!("expected an accelerometer entry, got {:?}", v),
    }
}

#[test]
fn pop_zero_tag_gives_empty_entry() {
    let mut i2c = Mock::new(vec![(0x6b, 0x78, 7, vec![0b000 << 3, 9, 9, 9, 9, 9, 9])]);

    let f = FifoOut::new(DEFAULT_I2C_ADDRESS);
    let v = f.pop(&mut i2c, Fs::Dps250, Fs_Xl::G2).unwrap();
    assert!(matches!(v, Value::Empty));
}

#[test]
fn pop_reserved_tag_passes_payload_through() {
    let mut i2c = Mock::new(vec![(0x6b, 0x78, 7, vec![0x05 << 3, 1, 2, 3, 4, 5, 6])]);

    let f = FifoOut::new(DEFAULT_I2C_ADDRESS);
    match f.pop(&mut i2c, Fs::Dps250, Fs_Xl::G2).unwrap() {
        Value::Other(tag, raw) => {
            assert_eq!(tag, 5);
            assert_eq!(raw, [1, 2, 3, 4, 5, 6]);
        }
        v => panic!("expected an uninterpreted entry, got {:?}", v),
    }
}

#[test]
fn pop_tag_above_25_is_an_unknown_tag_error() {
    let mut i2c = Mock::new(vec![(0x6b, 0x78, 7, vec![26 << 3, 0, 0, 0, 0, 0, 0])]);

    let f = FifoOut::new(DEFAULT_I2C_ADDRESS);
    match f.pop(&mut i2c, Fs::Dps250, Fs_Xl::G2) {
        Err(Error::UnknownTag(t)) => assert_eq!(t, 26),
        r => panic!("expected an unknown-tag error, got {:?}", r),
    }
}

#[test]
fn pop_bus_error_is_propagated() {
    struct FailBus;

    impl I2cBus for FailBus {
        type Error = u8;

        fn write(&mut self, _address: u8, _sub: u8, _value: u8) -> Result<(), u8> {
            Err(3)
        }

        fn write_read(&mut self, _address: u8, _sub: u8, _n: usize) -> Result<Vec<u8>, u8> {
            Err(3)
        }
    }

    let f = FifoOut::new(DEFAULT_I2C_ADDRESS);
    match f.pop(&mut FailBus, Fs::Dps250, Fs_Xl::G2) {
        Err(Error::Bus(e)) => assert_eq!(e, 3),
        r => panic!("expected a bus error, got {:?}", r),
    }
}

#[test]
fn from_frame_dispatches_on_the_tag_nibble() {
    let empty = Value::from_frame(&[0b000 << 3, 0, 0, 0, 0, 0, 0], Fs::Dps250, Fs_Xl::G2);
    assert!(matches!(empty, Ok(Value::Empty)));

    let gyro = Value::from_frame(&[0b001 << 3, 0, 0, 0, 0, 0, 0], Fs::Dps250, Fs_Xl::G2);
    assert!(matches!(gyro, Ok(Value::Gyro(_))));

    let accel = Value::from_frame(&[0b010 << 3, 0, 0, 0, 0, 0, 0], Fs::Dps250, Fs_Xl::G2);
    assert!(matches!(accel, Ok(Value::Accel(_))));

    let other = Value::from_frame(&[0x05 << 3, 7, 6, 5, 4, 3, 2], Fs::Dps250, Fs_Xl::G2);
    match other {
        Ok(Value::Other(tag, raw)) => {
            assert_eq!(tag, 0x05);
            assert_eq!(raw, [7, 6, 5, 4, 3, 2]);
        }
        r => panic!("expected an uninterpreted entry, got {:?}", r),
    }

    let bad = Value::from_frame(&[31 << 3, 0, 0, 0, 0, 0, 0], Fs::Dps250, Fs_Xl::G2);
    assert_eq!(bad.err(), Some(31));
}

#[test]
fn sensor_tag_classification() {
    assert!(matches!(SensorTag::try_from(0x00), Ok(SensorTag::Empty)));
    assert!(matches!(SensorTag::try_from(0x01), Ok(SensorTag::GyroscopeNC)));
    assert!(matches!(SensorTag::try_from(0x02), Ok(SensorTag::AccelerometerNC)));
    assert!(matches!(SensorTag::try_from(0x19), Ok(SensorTag::Other(0x19))));
    assert!(matches!(SensorTag::try_from(0x1a), Err(())));
}
