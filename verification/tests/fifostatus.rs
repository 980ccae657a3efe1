use std::collections::VecDeque;

use ism330dhcx::fifostatus::{
    count_bdr_from_byte, diff_fifo_from_bytes, full_from_byte, overrun_from_byte,
    overrun_latched_from_byte, watermark_from_byte, FifoStatus,
};
use ism330dhcx::{I2cBus, DEFAULT_I2C_ADDRESS};

struct Mock {
    reads: VecDeque<(u8, u8, usize, Vec<u8>)>,
}

impl Mock {
    fn new(reads: Vec<(u8, u8, usize, Vec<u8>)>) -> Mock {
        Mock { reads: reads.into_iter().collect() }
    }
}

impl I2cBus for Mock {
    type Error = u8;

    fn write(&mut self, _address: u8, _sub: u8, _value: u8) -> Result<(), u8> {
        panic!("unexpected write transaction")
    }

    fn write_read(&mut self, address: u8, sub: u8, n: usize) -> Result<Vec<u8>, u8> {
        match self.reads.pop_front() {
            Some((a, s, m, response)) => {
                assert_eq!((address, sub, n), (a, s, m));
                Ok(response)
            }
            None => panic!("unexpected write-read transaction"),
        }
    }
}

#[test]
fn test_full() {
    let mut i2c = Mock::new(vec![(0x6b, 0x3b, 1, vec![0b100000])]);

    let f = FifoStatus::new(DEFAULT_I2C_ADDRESS);
    assert!(f.full(&mut i2c).unwrap());
}

#[test]
fn test_diff_1b() {
    let mut i2c = Mock::new(vec![(0x6b, 0x3a, 2, vec![0b00100000_u8, 0b00000000_u8])]);

    let f = FifoStatus::new(DEFAULT_I2C_ADDRESS);
    let diff = f.diff_fifo(&mut i2c).unwrap();

    assert_eq!(diff, 0b000100000);
}

#[test]
fn test_diff_2b() {
    let mut i2c = Mock::new(vec![(0x6b, 0x3a, 2, vec![0b00100000_u8, 0b00000001_u8])]);

    let f = FifoStatus::new(DEFAULT_I2C_ADDRESS);
    let diff = f.diff_fifo(&mut i2c).unwrap();

    assert_eq!(diff, 0b100100000);
}

#[test]
fn status_bits_each_have_their_own_position() {
    // One status byte with exactly one bit set, for each queried flag.
    let f = FifoStatus::new(DEFAULT_I2C_ADDRESS);

    let mut i2c = Mock::new(vec![(0x6b, 0x3b, 1, vec![1 << 6])]);
    assert!(f.overrun(&mut i2c).unwrap());

    let mut i2c = Mock::new(vec![(0x6b, 0x3b, 1, vec![1 << 7])]);
    assert!(f.watermark_reached(&mut i2c).unwrap());

    let mut i2c = Mock::new(vec![(0x6b, 0x3b, 1, vec![1 << 3])]);
    assert!(f.overrun_latched(&mut i2c).unwrap());

    let mut i2c = Mock::new(vec![(0x6b, 0x3b, 1, vec![1 << 4])]);
    assert!(f.count_bdr_reached(&mut i2c).unwrap());

    let mut i2c = Mock::new(vec![(0x6b, 0x3b, 1, vec![!(1u8 << 5)])]);
    assert!(!f.full(&mut i2c).unwrap());
}

#[test]
fn diff_fifo_ignores_high_status_bits() {
    // Only the two lowest bits of the high byte count.
    assert_eq!(diff_fifo_from_bytes(0xff, 0b11), 1023);
    assert_eq!(diff_fifo_from_bytes(0xff, 0b1111_1111), 1023);
    assert_eq!(diff_fifo_from_bytes(0, 0b1111_1100), 0);
    assert_eq!(diff_fifo_from_bytes(5, 2), 512 + 5);
}

#[test]
fn status_byte_decoders_pick_their_own_bit() {
    assert!(full_from_byte(1 << 5));
    assert!(!full_from_byte(!(1u8 << 5)));
    assert!(overrun_from_byte(1 << 6));
    assert!(!overrun_from_byte(!(1u8 << 6)));
    assert!(watermark_from_byte(1 << 7));
    assert!(!watermark_from_byte(!(1u8 << 7)));
    assert!(overrun_latched_from_byte(1 << 3));
    assert!(!overrun_latched_from_byte(!(1u8 << 3)));
    assert!(count_bdr_from_byte(1 << 4));
    assert!(!count_bdr_from_byte(!(1u8 << 4)));
}
