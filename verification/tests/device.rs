use mpu6050::device::{Mpu6050, Mpu6050Builder};
use mpu6050::registers::{AccelRange, GyroRange, ACCEL_HPF, CLKSEL};
use mpu6050::sim::{FailBus, SimBus, SimDelay};
use mpu6050::Mpu6050Error;

fn device_on(bus: SimBus) -> Mpu6050<SimBus> {
    Mpu6050Builder::new().i2c(bus).build().unwrap()
}

fn device_with_identity() -> Mpu6050<SimBus> {
    let mut bus = SimBus::new();
    bus.set_register(0x75, 0x68);
    device_on(bus)
}

#[test]
fn init_succeeds_on_the_expected_identity() {
    let mut device = device_with_identity();
    let mut delay = SimDelay::new();
    device.init(&mut delay).unwrap();
    // wake wrote 0x01: sleep cleared, PLL-with-gyro-X clock selected
    assert_eq!(device.bus().register(0x6b), 0x01);
    // default ranges and filter were applied as zero fields
    assert_eq!(device.bus().register(0x1c), 0x00);
    assert_eq!(device.bus().register(0x1b), 0x00);
    assert_eq!(device.cached_accel_range(), AccelRange::G2);
    assert_eq!(device.cached_gyro_range(), GyroRange::D250);
}

#[test]
fn init_on_a_wrong_identity_fails_with_that_byte() {
    let mut bus = SimBus::new();
    bus.set_register(0x75, 0x42);
    let mut device = device_on(bus);
    let mut delay = SimDelay::new();
    let result = device.init(&mut delay);
    assert!(matches!(result, Err(Mpu6050Error::InvalidChipId(0x42))));
}

#[test]
fn setup_motion_detection_writes_the_exact_sequence() {
    let mut device = device_with_identity();
    device.setup_motion_detection().unwrap();
    let expected = [
        (0x6bu8, 0x00u8),
        (0x37, 0x20),
        (0x1c, 0x01),
        (0x1f, 10),
        (0x20, 40),
        (0x69, 0x15),
        (0x38, 0x40),
    ];
    let bus = device.bus();
    assert_eq!(bus.log_len(), expected.len());
    for (i, frame) in expected.iter().enumerate() {
        assert_eq!(bus.log_at(i), *frame);
    }
}

#[test]
fn motion_detected_reads_the_status_flag() {
    let mut bus = SimBus::new();
    bus.set_register(0x3a, 0x40);
    let mut device = device_on(bus);
    assert!(device.get_motion_detected().unwrap());

    let mut idle = device_with_identity();
    assert!(!idle.get_motion_detected().unwrap());
}

#[test]
fn sleep_bit_round_trip() {
    let mut device = device_with_identity();
    device.set_sleep_enabled(true).unwrap();
    assert_eq!(device.bus().register(0x6b), 0x40);
    assert!(device.get_sleep_enabled().unwrap());

    device.set_sleep_enabled(false).unwrap();
    assert_eq!(device.bus().register(0x6b), 0x00);
    assert!(!device.get_sleep_enabled().unwrap());
}

#[test]
fn temp_enable_has_inverted_polarity() {
    let mut device = device_with_identity();
    device.set_temp_enabled(false).unwrap();
    // the register bit stores "disabled", so disabling sets bit 3
    assert_eq!(device.bus().register(0x6b), 0x08);
    assert!(!device.get_temp_enabled().unwrap());

    device.set_temp_enabled(true).unwrap();
    assert_eq!(device.bus().register(0x6b), 0x00);
    assert!(device.get_temp_enabled().unwrap());
}

#[test]
fn accel_self_test_bits_round_trip() {
    let mut device = device_with_identity();
    device.set_accel_x_self_test(true).unwrap();
    device.set_accel_y_self_test(true).unwrap();
    device.set_accel_z_self_test(true).unwrap();
    // XA/YA/ZA self-test bits are 7, 6 and 5 of the accel config register
    assert_eq!(device.bus().register(0x1c), 0xe0);
    assert!(device.get_accel_x_self_test().unwrap());
    assert!(device.get_accel_y_self_test().unwrap());
    assert!(device.get_accel_z_self_test().unwrap());

    device.set_accel_y_self_test(false).unwrap();
    assert_eq!(device.bus().register(0x1c), 0xa0);
    assert!(!device.get_accel_y_self_test().unwrap());
}

#[test]
fn clock_source_round_trip() {
    let mut device = device_with_identity();
    device.set_clock_source(CLKSEL::GZAXIS).unwrap();
    assert_eq!(device.bus().register(0x6b), 0x03);
    assert_eq!(device.get_clock_source().unwrap(), CLKSEL::GZAXIS);

    device.set_clock_source(CLKSEL::STOP).unwrap();
    assert_eq!(device.bus().register(0x6b), 0x07);
    assert_eq!(device.get_clock_source().unwrap(), CLKSEL::STOP);
}

#[test]
fn accel_hpf_round_trip() {
    let mut device = device_with_identity();
    device.set_accel_hpf(ACCEL_HPF::_2P5).unwrap();
    assert_eq!(device.bus().register(0x1c), 0x02);
    assert_eq!(device.get_accel_hpf().unwrap(), ACCEL_HPF::_2P5);

    device.set_accel_hpf(ACCEL_HPF::_HOLD).unwrap();
    assert_eq!(device.bus().register(0x1c), 0x07);
    assert_eq!(device.get_accel_hpf().unwrap(), ACCEL_HPF::_HOLD);
}

#[test]
fn accel_range_setter_updates_register_and_cache() {
    let mut device = device_with_identity();
    device.set_accel_range(AccelRange::G16).unwrap();
    // range field is the 2-bit run ending at bit 4
    assert_eq!(device.bus().register(0x1c), 0x18);
    assert_eq!(device.cached_accel_range(), AccelRange::G16);
    assert_eq!(device.get_accel_range().unwrap(), AccelRange::G16);
}

#[test]
fn gyro_range_setter_updates_register_and_cache() {
    let mut device = device_with_identity();
    device.set_gyro_range(GyroRange::D1000).unwrap();
    assert_eq!(device.bus().register(0x1b), 0x10);
    assert_eq!(device.cached_gyro_range(), GyroRange::D1000);
    assert_eq!(device.get_gyro_range().unwrap(), GyroRange::D1000);
}

#[test]
fn range_setter_preserves_neighbouring_bits() {
    let mut device = device_with_identity();
    device.set_accel_x_self_test(true).unwrap();
    device.set_accel_hpf(ACCEL_HPF::_5).unwrap();
    device.set_accel_range(AccelRange::G8).unwrap();
    // bit 7 (self test), bits 4..=3 (range 2 -> 10), bits 2..=0 (filter 1)
    assert_eq!(device.bus().register(0x1c), 0x91);
    assert_eq!(device.get_accel_hpf().unwrap(), ACCEL_HPF::_5);
    assert!(device.get_accel_x_self_test().unwrap());
}

#[test]
fn one_g_on_x_reads_as_the_accel_sensitivity() {
    let mut bus = SimBus::new();
    bus.set_register(0x75, 0x68);
    bus.set_register(0x3b, 0x40);  // X = 16384, one g at the +/- 2g sensitivity
    let mut device = device_on(bus);
    let raw = device.get_acc_raw().unwrap();
    assert_eq!(raw, (16384, 0, 0));
    assert_eq!(
        device.cached_accel_range().sensitivity_lsb_per_g(),
        16384
    );
}

#[test]
fn one_degree_per_second_on_x_reads_as_the_gyro_sensitivity() {
    let mut bus = SimBus::new();
    bus.set_register(0x75, 0x68);
    bus.set_register(0x44, 0x83);  // X = 131, one deg/s at the +/- 250 deg/s sensitivity
    let mut device = device_on(bus);
    let raw = device.get_gyro_raw().unwrap();
    assert_eq!(raw, (131, 0, 0));
    assert_eq!(
        device.cached_gyro_range().sensitivity_decilsb_per_dps(),
        1310
    );
}

#[test]
fn raw_readings_decode_negative_axes() {
    let mut bus = SimBus::new();
    bus.set_register(0x3b, 0xff);
    bus.set_register(0x3c, 0xff);  // X = -1
    bus.set_register(0x3d, 0x80);  // Y = -32768
    bus.set_register(0x3f, 0x7f);
    bus.set_register(0x40, 0xff);  // Z = 32767
    let mut device = device_on(bus);
    assert_eq!(device.get_acc_raw().unwrap(), (-1, -32768, 32767));
}

#[test]
fn temp_raw_decodes_the_register_pair() {
    let mut bus = SimBus::new();
    bus.set_register(0x41, 0x0c);
    bus.set_register(0x42, 0xe4);
    let mut device = device_on(bus);
    assert_eq!(device.get_temp_raw().unwrap(), 3300);

    let mut cold = SimBus::new();
    cold.set_register(0x41, 0xff);
    cold.set_register(0x42, 0xff);
    let mut cold_device = device_on(cold);
    assert_eq!(cold_device.get_temp_raw().unwrap(), -1);
}

#[test]
fn bus_failures_surface_as_i2c_errors() {
    let mut device = Mpu6050Builder::new().i2c(FailBus).build().unwrap();
    let mut delay = SimDelay::new();
    assert!(matches!(device.init(&mut delay), Err(Mpu6050Error::I2c(_))));
    assert!(matches!(device.get_acc_raw(), Err(Mpu6050Error::I2c(_))));
    assert!(matches!(device.read_byte(0x75), Err(Mpu6050Error::I2c(_))));
}

#[test]
fn failed_range_write_leaves_the_cache_unchanged() {
    let mut device = Mpu6050Builder::new().i2c(FailBus).build().unwrap();
    assert!(device.set_accel_range(AccelRange::G16).is_err());
    assert!(device.set_gyro_range(GyroRange::D2000).is_err());
    assert_eq!(device.cached_accel_range(), AccelRange::G2);
    assert_eq!(device.cached_gyro_range(), GyroRange::D250);
}

#[test]
fn write_byte_and_read_byte_round_trip() {
    let mut device = device_with_identity();
    device.write_byte(0x10, 0xab).unwrap();
    assert_eq!(device.bus().register(0x10), 0xab);
    assert_eq!(device.read_byte(0x10).unwrap(), 0xab);
}

#[test]
fn read_bytes_returns_consecutive_registers() {
    let mut device = device_with_identity();
    device.write_byte(0x20, 0x11).unwrap();
    device.write_byte(0x21, 0x22).unwrap();
    device.write_byte(0x22, 0x33).unwrap();
    let buf = device.read_bytes(0x20, 3).unwrap();
    assert_eq!(buf, vec![0x11, 0x22, 0x33]);
}

#[test]
fn write_bits_and_read_bits_round_trip() {
    let mut device = device_with_identity();
    device.write_bits(0x10, 6, 3, 0b101).unwrap();
    assert_eq!(device.bus().register(0x10), 0b0101_0000);
    assert_eq!(device.read_bits(0x10, 6, 3).unwrap(), 0b101);
}

#[test]
fn write_bits_full_byte_run() {
    let mut device = device_with_identity();
    device.write_byte(0x10, 0x69).unwrap();
    device.write_bits(0x10, 7, 8, 0xab).unwrap();
    assert_eq!(device.bus().register(0x10), 0xab);
    assert_eq!(device.read_bits(0x10, 7, 8).unwrap(), 0xab);
}

#[test]
fn write_bit_and_read_bit_round_trip() {
    let mut device = device_with_identity();
    device.write_bit(0x10, 7, true).unwrap();
    assert_eq!(device.bus().register(0x10), 0x80);
    assert_eq!(device.read_bit(0x10, 7).unwrap(), 1);
    device.write_bit(0x10, 7, false).unwrap();
    assert_eq!(device.read_bit(0x10, 7).unwrap(), 0);
}
