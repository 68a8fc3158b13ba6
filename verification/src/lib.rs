//! Register-level driver for the MPU6050 6-axis inertial sensor.
//!
//! The driver talks to the sensor over a 2-wire addressed bus supplied by the
//! caller through the [`bus::I2cBus`] trait.  It offers configuration of the
//! accelerometer and gyroscope ranges, power state and motion-interrupt
//! thresholds, and raw readings decoded from the sensor's big-endian
//! two's-complement register pairs.  Scaling of raw readings to physical
//! units is floating-point work and is left to the embedding application.

use vstd::prelude::*;

pub mod bits;
pub mod bus;
pub mod conversion;
pub mod device;
pub mod registers;
pub mod sim;

verus! {

/// Any error of a device operation: either the bus transport failed, or the
/// identity check read an unexpected byte.
#[derive(Debug)]
pub enum Mpu6050Error<E> {
    /// The bus transport reported an error, carried verbatim.
    I2c(E),
    /// The identity register held this byte instead of the expected value.
    InvalidChipId(u8),
}

/// Any error of building a device.
#[derive(Debug, PartialEq, Eq, Structural)]
pub enum Mpu6050BuilderError {
    /// No bus handle was supplied before `build` was called.
    NoI2cDeviceProvided,
}

} // verus!
