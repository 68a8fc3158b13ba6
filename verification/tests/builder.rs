use mpu6050::device::Mpu6050Builder;
use mpu6050::registers::{AccelRange, GyroRange};
use mpu6050::sim::SimBus;
use mpu6050::Mpu6050BuilderError;

#[test]
fn build_without_i2c_fails_with_missing_bus() {
    let result = Mpu6050Builder::<SimBus>::new().build();
    assert!(matches!(
        result,
        Err(Mpu6050BuilderError::NoI2cDeviceProvided)
    ));
}

#[test]
fn build_without_i2c_ignores_other_fields() {
    let result = Mpu6050Builder::<SimBus>::new()
        .slave_addr(0x69)
        .acc_sensitivity(AccelRange::G8)
        .gyro_sensitivity(GyroRange::D1000)
        .build();
    assert!(matches!(
        result,
        Err(Mpu6050BuilderError::NoI2cDeviceProvided)
    ));
}

#[test]
fn build_with_only_i2c_uses_defaults() {
    let device = Mpu6050Builder::new().i2c(SimBus::new()).build().unwrap();
    assert_eq!(device.slave_address(), 0x68);
    assert_eq!(device.cached_accel_range(), AccelRange::G2);
    assert_eq!(device.cached_gyro_range(), GyroRange::D250);
}

#[test]
fn build_keeps_supplied_fields() {
    let device = Mpu6050Builder::new()
        .i2c(SimBus::new())
        .slave_addr(0x69)
        .acc_sensitivity(AccelRange::G16)
        .gyro_sensitivity(GyroRange::D500)
        .build()
        .unwrap();
    assert_eq!(device.slave_address(), 0x69);
    assert_eq!(device.cached_accel_range(), AccelRange::G16);
    assert_eq!(device.cached_gyro_range(), GyroRange::D500);
}

#[test]
fn default_ranges_are_the_most_sensitive() {
    assert_eq!(AccelRange::G2.sensitivity_lsb_per_g(), 16384);
    assert_eq!(GyroRange::D250.sensitivity_decilsb_per_dps(), 1310);
}
