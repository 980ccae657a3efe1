use std::collections::VecDeque;

use ism330dhcx::ctrl1xl::{Ctrl1Xl, Fs_Xl, Odr_Xl};
use ism330dhcx::ctrl2g::{Ctrl2G, Fs, Odr};
use ism330dhcx::ctrl3c::Ctrl3C;
use ism330dhcx::ctrl7g::{Ctrl7G, Hpm_g};
use ism330dhcx::ctrl9xl::Ctrl9Xl;
use ism330dhcx::fifo::Value;
use ism330dhcx::{I2cBus, Ism330Dhcx, DEFAULT_I2C_ADDRESS};

enum Call {
    Write { address: u8, sub: u8, value: u8 },
    WriteRead { address: u8, sub: u8, n: usize, response: Vec<u8> },
}

struct Mock {
    calls: VecDeque<Call>,
}

impl Mock {
    fn new(calls: Vec<Call>) -> Mock {
        Mock { calls: calls.into_iter().collect() }
    }

    fn accepting_writes() -> Mock {
        Mock { calls: VecDeque::new() }
    }
}

impl I2cBus for Mock {
    type Error = u8;

    fn write(&mut self, address: u8, sub: u8, value: u8) -> Result<(), u8> {
        match self.calls.pop_front() {
            Some(Call::Write { address: a, sub: s, value: v }) => {
                assert_eq!((address, sub, value), (a, s, v));
                Ok(())
            }
            Some(Call::WriteRead { .. }) => panic!("expected a write-read transaction"),
            None => Ok(()),
        }
    }

    fn write_read(&mut self, address: u8, sub: u8, n: usize) -> Result<Vec<u8>, u8> {
        match self.calls.pop_front() {
            Some(Call::WriteRead { address: a, sub: s, n: m, response }) => {
                assert_eq!((address, sub, n), (a, s, m));
                Ok(response)
            }
            _ => panic!("unexpected write-read transaction"),
        }
    }
}

struct FailBus;

impl I2cBus for FailBus {
    type Error = u8;

    fn write(&mut self, _address: u8, _sub: u8, _value: u8) -> Result<(), u8> {
        Err(9)
    }

    fn write_read(&mut self, _address: u8, _sub: u8, _n: usize) -> Result<Vec<u8>, u8> {
        Err(9)
    }
}

#[test]
fn facade_distributes_the_burst_read() {
    let burst: Vec<u8> = vec![
        0x11, 0x22, 0x33, 0x44, 0x55, 0x66, 0x77, 0x88, 0x99, 0xaa, 0xbb, 0xcc, 0xdd,
    ];
    let mut i2c = Mock::new(vec![
        Call::WriteRead { address: 0x6b, sub: 0x10, n: 13, response: burst },
        Call::WriteRead { address: 0x6b, sub: 0x07, n: 4, response: vec![0xf1, 0xf2, 0xf3, 0xf4] },
    ]);

    let d = Ism330Dhcx::new(&mut i2c).unwrap();
    assert_eq!(d.address, DEFAULT_I2C_ADDRESS);
    assert_eq!(d.ctrl1xl.value(), 0x11);
    assert_eq!(d.ctrl2g.value(), 0x22);
    assert_eq!(d.ctrl3c.value(), 0x33);
    assert_eq!(d.ctrl7g.value(), 0x77);
    assert_eq!(d.ctrl9xl.value(), 0x99);
    assert_eq!(d.fifoctrl.value(), [0xf1, 0xf2, 0xf3, 0xf4]);
}

#[test]
fn facade_seeding_names_each_register_byte() {
    let control: Vec<u8> = vec![
        0x11, 0x22, 0x33, 0x44, 0x55, 0x66, 0x77, 0x88, 0x99, 0xaa, 0xbb, 0xcc, 0xdd,
    ];
    let fifo: Vec<u8> = vec![0xf1, 0xf2, 0xf3, 0xf4];

    let d = Ism330Dhcx::seed_from_bursts(&control, &fifo, 0x6a);
    assert_eq!(d.address, 0x6a);
    assert_eq!(d.ctrl1xl.value(), 0x11);
    assert_eq!(d.ctrl2g.value(), 0x22);
    assert_eq!(d.ctrl3c.value(), 0x33);
    assert_eq!(d.ctrl7g.value(), 0x77);
    assert_eq!(d.ctrl9xl.value(), 0x99);
    assert_eq!(d.fifoctrl.value(), [0xf1, 0xf2, 0xf3, 0xf4]);
    assert_eq!(d.fifostatus.address, 0x6a);
}

#[test]
fn facade_set_address_propagates_into_every_register() {
    let mut i2c = Mock::new(vec![
        Call::WriteRead { address: 0x6a, sub: 0x10, n: 13, response: vec![0; 13] },
        Call::WriteRead { address: 0x6a, sub: 0x07, n: 4, response: vec![0; 4] },
    ]);

    let mut d = Ism330Dhcx::new_with_address(&mut i2c, 0x6a).unwrap();
    assert_eq!(d.ctrl3c.address, 0x6a);

    d.set_address(0x6b);
    assert_eq!(d.address, 0x6b);
    assert_eq!(d.ctrl1xl.address, 0x6b);
    assert_eq!(d.ctrl2g.address, 0x6b);
    assert_eq!(d.ctrl3c.address, 0x6b);
    assert_eq!(d.ctrl7g.address, 0x6b);
    assert_eq!(d.ctrl9xl.address, 0x6b);
    assert_eq!(d.fifoctrl.address, 0x6b);
    assert_eq!(d.fifostatus.address, 0x6b);
}

#[test]
fn facade_get_temperature_raw_counts() {
    let mut i2c = Mock::new(vec![
        Call::WriteRead { address: 0x6b, sub: 0x10, n: 13, response: vec![0; 13] },
        Call::WriteRead { address: 0x6b, sub: 0x07, n: 4, response: vec![0; 4] },
        Call::WriteRead { address: 0x6b, sub: 0x20, n: 2, response: vec![0x00, 0x00] },
        Call::WriteRead { address: 0x6b, sub: 0x20, n: 2, response: vec![0x00, 0x01] },
    ]);

    let d = Ism330Dhcx::new(&mut i2c).unwrap();
    assert_eq!(d.get_temperature(&mut i2c).unwrap(), 0);
    assert_eq!(d.get_temperature(&mut i2c).unwrap(), 256);
}

#[test]
fn facade_samples_carry_the_cached_range() {
    // CTRL1_XL holds ±4 g (code 2), CTRL2_G holds the ±125 dps override.
    let mut i2c = Mock::new(vec![
        Call::WriteRead {
            address: 0x6b,
            sub: 0x10,
            n: 13,
            response: vec![0b0000_1000, 0b0000_0010, 0, 0, 0, 0, 0, 0, 0, 0, 0, 0, 0],
        },
        Call::WriteRead { address: 0x6b, sub: 0x07, n: 4, response: vec![0; 4] },
        Call::WriteRead { address: 0x6b, sub: 0x22, n: 6, response: vec![1, 0, 2, 0, 3, 0] },
        Call::WriteRead { address: 0x6b, sub: 0x28, n: 6, response: vec![4, 0, 5, 0, 6, 0] },
    ]);

    let d = Ism330Dhcx::new(&mut i2c).unwrap();

    let g = d.get_gyroscope(&mut i2c).unwrap();
    assert_eq!(g.range(), Fs::Dps125);
    assert_eq!(g.count(), [1, 2, 3]);

    let a = d.get_accelerometer(&mut i2c).unwrap();
    assert_eq!(a.range(), Fs_Xl::G4);
    assert_eq!(a.count(), [4, 5, 6]);
}

#[test]
fn ctrl1xl_set_then_get_round_trip() {
    let mut i2c = Mock::accepting_writes();
    let mut r = Ctrl1Xl::new(0, 0x6b);

    r.set_accelerometer_data_rate(&mut i2c, Odr_Xl::Hz52).unwrap();
    assert_eq!(r.accelerometer_data_rate(), Odr_Xl::Hz52);
    assert_eq!(r.value(), 0b0011_0000);

    r.set_chain_full_scale(&mut i2c, Fs_Xl::G8).unwrap();
    assert_eq!(r.chain_full_scale(), Fs_Xl::G8);

    r.set_lpf2_xl_en(&mut i2c, true).unwrap();
    assert!(r.lpf2_xl_en());

    // Each earlier field still reads back unchanged.
    assert_eq!(r.accelerometer_data_rate(), Odr_Xl::Hz52);
    assert_eq!(r.chain_full_scale(), Fs_Xl::G8);
}

#[test]
fn ctrl1xl_set_one_field_leaves_the_rest_of_the_byte() {
    let mut i2c = Mock::accepting_writes();
    let mut r = Ctrl1Xl::new(0b1010_0110, 0x6b);
    let before = r.value();

    r.set_chain_full_scale(&mut i2c, Fs_Xl::G16).unwrap();
    assert_eq!(r.value() & !0b0000_1100, before & !0b0000_1100);
    assert_eq!(r.chain_full_scale(), Fs_Xl::G16);
}

#[test]
fn ctrl2g_data_rate_round_trip() {
    let mut i2c = Mock::accepting_writes();
    let mut r = Ctrl2G::new(0, 0x6b);

    r.set_gyroscope_data_rate(&mut i2c, Odr::KHz666).unwrap();
    assert_eq!(r.gyroscope_data_rate(), Odr::KHz666);
    assert_eq!(r.value(), 0b1010_0000);
}

#[test]
fn ctrl2g_full_scale_override_precedence() {
    let mut i2c = Mock::accepting_writes();
    // A stale ±500 dps pattern sits in the primary field.
    let mut r = Ctrl2G::new(0b0000_0100, 0x6b);
    assert_eq!(r.chain_full_scale(), Fs::Dps500);

    // Selecting ±4000 dps sets the override bit; the stale primary pattern
    // stays in place but cannot leak through the decode.
    r.set_chain_full_scale(&mut i2c, Fs::Dps4000).unwrap();
    assert_eq!(r.chain_full_scale(), Fs::Dps4000);
    assert_eq!(r.value() & 0b0000_1100, 0b0000_0100);

    // Selecting ±500 dps afterwards clears the ±4000 override bit.
    r.set_chain_full_scale(&mut i2c, Fs::Dps500).unwrap();
    assert_eq!(r.chain_full_scale(), Fs::Dps500);
    assert_eq!(r.value() & 0b0000_0011, 0);

    // The ±125 dps override behaves the same way.
    r.set_chain_full_scale(&mut i2c, Fs::Dps125).unwrap();
    assert_eq!(r.chain_full_scale(), Fs::Dps125);
    r.set_chain_full_scale(&mut i2c, Fs::Dps2000).unwrap();
    assert_eq!(r.chain_full_scale(), Fs::Dps2000);
}

#[test]
fn ctrl2g_full_scale_round_trip_all_ranges() {
    let mut i2c = Mock::accepting_writes();
    let mut r = Ctrl2G::new(0b1111_1111, 0x6b);
    for fs in [Fs::Dps250, Fs::Dps500, Fs::Dps1000, Fs::Dps2000, Fs::Dps4000, Fs::Dps125] {
        r.set_chain_full_scale(&mut i2c, fs).unwrap();
        assert_eq!(r.chain_full_scale(), fs);
    }
}

#[test]
fn ctrl3c_flags_round_trip_and_stay_independent() {
    let mut i2c = Mock::accepting_writes();
    let mut r = Ctrl3C::new(0, 0x6b);

    r.set_boot(&mut i2c, true).unwrap();
    assert!(r.boot());
    r.set_bdu(&mut i2c, true).unwrap();
    assert!(r.bdu());
    r.set_if_inc(&mut i2c, true).unwrap();
    assert!(r.if_inc());

    // Earlier bits kept their values.
    assert!(r.boot());
    assert!(r.bdu());
    assert_eq!(r.value(), 0b1100_0100);

    r.set_boot(&mut i2c, false).unwrap();
    assert!(!r.boot());
    assert_eq!(r.value(), 0b0100_0100);

    r.sw_reset(&mut i2c).unwrap();
    assert_eq!(r.value(), 0b0100_0101);
}

#[test]
fn ctrl7g_fields_round_trip() {
    let mut i2c = Mock::accepting_writes();
    let mut r = Ctrl7G::new(0, 0x6b);

    for cutoff in [Hpm_g::Hpmg16, Hpm_g::Hpmg65, Hpm_g::Hpmg260, Hpm_g::Hpmg104] {
        r.set_hpm_g(&mut i2c, cutoff).unwrap();
        assert_eq!(r.hpm_g(), cutoff);
    }

    r.set_g_hm_mode(&mut i2c, true).unwrap();
    assert!(r.g_hm_mode());
    r.set_ois_on_en(&mut i2c, true).unwrap();
    assert!(r.ois_on_en());
    r.set_usr_off_on_out(&mut i2c, true).unwrap();
    assert!(r.usr_off_on_out());
    r.set_ois_on(&mut i2c, true).unwrap();
    assert!(r.ois_on());

    // The cutoff selection survived all the single-bit writes.
    assert_eq!(r.hpm_g(), Hpm_g::Hpmg104);
    assert_eq!(r.value(), 0b1001_1111);
}

#[test]
fn ctrl9xl_flags_round_trip() {
    let mut i2c = Mock::accepting_writes();
    let mut r = Ctrl9Xl::new(0, 0x6b);

    r.set_den_x(&mut i2c, true).unwrap();
    r.set_den_y(&mut i2c, true).unwrap();
    r.set_den_z(&mut i2c, true).unwrap();
    r.set_den_xl_g(&mut i2c, true).unwrap();
    r.set_den_xl_en(&mut i2c, true).unwrap();
    r.set_den_lh(&mut i2c, true).unwrap();
    r.set_device_conf(&mut i2c, true).unwrap();

    assert!(r.den_x());
    assert!(r.den_y());
    assert!(r.den_z());
    assert!(r.den_xl_g());
    assert!(r.den_xl_en());
    assert!(r.den_lh());
    assert!(r.device_conf());
    assert_eq!(r.value(), 0b1111_1110);

    r.set_den_y(&mut i2c, false).unwrap();
    assert!(!r.den_y());
    assert_eq!(r.value(), 0b1011_1110);
}

#[test]
fn ctrl_registers_commit_the_whole_byte_to_their_sub_address() {
    let mut i2c = Mock::new(vec![
        Call::Write { address: 0x6b, sub: 0x10, value: 0b0011_0000 },
        Call::Write { address: 0x6b, sub: 0x11, value: 0b0010_0000 },
        Call::Write { address: 0x6b, sub: 0x12, value: 0b0100_0000 },
        Call::Write { address: 0x6b, sub: 0x16, value: 0b0001_1000 },
        Call::Write { address: 0x6b, sub: 0x18, value: 0b0000_0010 },
    ]);

    let mut c1 = Ctrl1Xl::new(0, 0x6b);
    c1.set_accelerometer_data_rate(&mut i2c, Odr_Xl::Hz52).unwrap();

    let mut c2 = Ctrl2G::new(0, 0x6b);
    c2.set_gyroscope_data_rate(&mut i2c, Odr::Hz26).unwrap();

    let mut c3 = Ctrl3C::new(0, 0x6b);
    c3.set_bdu(&mut i2c, true).unwrap();

    let mut c7 = Ctrl7G::new(0, 0x6b);
    c7.set_hpm_g(&mut i2c, Hpm_g::Hpmg104).unwrap();

    let mut c9 = Ctrl9Xl::new(0, 0x6b);
    c9.set_device_conf(&mut i2c, true).unwrap();
}

#[test]
fn failed_write_leaves_the_cache_untouched() {
    let mut bus = FailBus;

    let mut c1 = Ctrl1Xl::new(0x5a, 0x6b);
    assert_eq!(c1.set_accelerometer_data_rate(&mut bus, Odr_Xl::Hz833), Err(9));
    assert_eq!(c1.value(), 0x5a);

    let mut c2 = Ctrl2G::new(0x5a, 0x6b);
    assert_eq!(c2.set_chain_full_scale(&mut bus, Fs::Dps4000), Err(9));
    assert_eq!(c2.value(), 0x5a);

    let mut c3 = Ctrl3C::new(0x5a, 0x6b);
    assert_eq!(c3.set_boot(&mut bus, true), Err(9));
    assert_eq!(c3.value(), 0x5a);
}

#[test]
fn facade_fifo_pop_uses_the_cached_scales() {
    // CTRL1_XL holds ±16 g (code 1), CTRL2_G holds ±2000 dps (code 3).
    let mut i2c = Mock::new(vec![
        Call::WriteRead {
            address: 0x6b,
            sub: 0x10,
            n: 13,
            response: vec![0b0000_0100, 0b0000_1100, 0, 0, 0, 0, 0, 0, 0, 0, 0, 0, 0],
        },
        Call::WriteRead { address: 0x6b, sub: 0x07, n: 4, response: vec![0; 4] },
        Call::WriteRead {
            address: 0x6b,
            sub: 0x78,
            n: 7,
            response: vec![0b001 << 3, 0, 1, 0, 1, 0, 1],
        },
        Call::WriteRead {
            address: 0x6b,
            sub: 0x78,
            n: 7,
            response: vec![0b010 << 3, 0, 1, 0, 1, 0, 1],
        },
    ]);

    let d = Ism330Dhcx::new(&mut i2c).unwrap();

    match d.fifo_pop(&mut i2c).unwrap() {
        Value::Gyro(g) => assert_eq!(g.range(), Fs::Dps2000),
        v => panic!("expected a gyroscope entry, got {:?}", v),
    }
    match d.fifo_pop(&mut i2c).unwrap() {
        Value::Accel(a) => assert_eq!(a.range(), Fs_Xl::G16),
        v => panic!("expected an accelerometer entry, got {:?}", v),
    }
}
