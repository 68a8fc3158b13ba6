//! The device core: the [`Mpu6050`] handle owning the bus and the cached
//! configuration state, its register-access layer, the configuration and
//! initialization protocol, and the [`Mpu6050Builder`] that produces a
//! validated device.
//!
//! Contracts are stated over the bus model of [`crate::bus::I2cBus`]: each
//! method says which frames it appends to the bus's frame log, which reads
//! it appends to the read log, and how its result decodes the bytes the
//! bus returned.

use vstd::prelude::*;

use crate::bits;
use crate::bus::{DelayMs, I2cBus};
use crate::conversion;
use crate::registers::{
    AccelRange, GyroRange, ACCEL_CONFIG_ADDR, ACCEL_FS_SEL_BIT, ACCEL_FS_SEL_LENGTH, ACCEL_HPF,
    ACCEL_HPF_BIT, ACCEL_HPF_LENGTH, ACC_REGX_H, CLKSEL, CLKSEL_BIT, CLKSEL_LENGTH,
    DEFAULT_SLAVE_ADDR, DEVICE_RESET_BIT, GYRO_CONFIG_ADDR, GYRO_FS_SEL_BIT, GYRO_FS_SEL_LENGTH,
    GYRO_REGX_H, INT_ENABLE_ADDR, INT_PIN_CFG_ADDR, INT_STATUS_ADDR, MOT_DETECT_CTRL_ADDR,
    MOT_DUR, MOT_INT_BIT, MOT_THR, PWR_MGMT_1_ADDR, SLEEP_BIT, TEMP_DIS_BIT, TEMP_OUT_H, WHOAMI,
    XA_ST_BIT, YA_ST_BIT, ZA_ST_BIT,
};
use crate::{Mpu6050BuilderError, Mpu6050Error};

verus! {

/// The fixed, datasheet-mandated frame sequence of
/// [`Mpu6050::setup_motion_detection`], in order.
pub open spec fn spec_motion_detection_frames() -> Seq<(u8, u8)> {
    seq![
        (PWR_MGMT_1_ADDR, 0x00u8),
        (INT_PIN_CFG_ADDR, 0x20u8),
        (ACCEL_CONFIG_ADDR, 0x01u8),
        (MOT_THR, 10u8),
        (MOT_DUR, 40u8),
        (MOT_DETECT_CTRL_ADDR, 0x15u8),
        (INT_ENABLE_ADDR, 0x40u8),
    ]
}

/// Handles all operations on the sensor.  It owns the bus handle
/// exclusively and caches the configured ranges; the cache is kept in step
/// with the sensor by this driver's own setters.
///
/// The device is meant for single-owner, single-threaded use: bit-field
/// setters issue a read-then-write pair of bus transactions without a lock,
/// so concurrent access to one sensor must be serialized externally.
pub struct Mpu6050<I> {
    pub(crate) i2c: I,
    pub(crate) slave_addr: u8,
    pub(crate) acc_range: AccelRange,
    pub(crate) gyro_range: GyroRange,
}

impl<I> Mpu6050<I> {
    /// The bus handle the device owns.
    pub closed spec fn spec_bus(self) -> I {
        self.i2c
    }

    /// Bus address the driver addresses the sensor at.
    pub closed spec fn spec_slave_addr(self) -> u8 {
        self.slave_addr
    }

    /// Cached accelerometer range.
    pub closed spec fn spec_accel_range(self) -> AccelRange {
        self.acc_range
    }

    /// Cached gyroscope range.
    pub closed spec fn spec_gyro_range(self) -> GyroRange {
        self.gyro_range
    }

    /// True when both carry the same address and cached ranges.
    pub open spec fn spec_same_config(self, other: Self) -> bool {
        &&& self.spec_slave_addr() == other.spec_slave_addr()
        &&& self.spec_accel_range() == other.spec_accel_range()
        &&& self.spec_gyro_range() == other.spec_gyro_range()
    }

    /// Borrows the owned bus handle, e.g. to inspect a simulated bus.
    pub fn bus(&self) -> (r: &I)
        ensures
            *r == self.spec_bus(),
    {
        &self.i2c
    }

    /// Bus address the driver addresses the sensor at.
    pub fn slave_address(&self) -> (r: u8)
        ensures
            r == self.spec_slave_addr(),
    {
        self.slave_addr
    }

    /// Cached accelerometer range.
    pub fn cached_accel_range(&self) -> (r: AccelRange)
        ensures
            r == self.spec_accel_range(),
    {
        self.acc_range
    }

    /// Cached gyroscope range.
    pub fn cached_gyro_range(&self) -> (r: GyroRange)
        ensures
            r == self.spec_gyro_range(),
    {
        self.gyro_range
    }
}

impl<I: I2cBus> Mpu6050<I> {
    /// The bus's frame log: the `(register, value)` pairs written so far.
    pub open spec fn spec_frames(self) -> Seq<(u8, u8)> {
        self.spec_bus().spec_frames()
    }

    /// The bus's read log: each combined write-then-read transaction, as
    /// the register address and the bytes returned.
    pub open spec fn spec_reads(self) -> Seq<(u8, Seq<u8>)> {
        self.spec_bus().spec_reads()
    }

    /// The byte the bus returned in the latest read transaction.
    pub open spec fn spec_last_read_byte(self) -> u8 {
        self.spec_reads().last().1[0]
    }

    /// Between `pre` and `post` exactly one byte read of `reg` happened and
    /// no frame was written: the read log grew by that one record.
    pub open spec fn spec_read_byte_of(pre: Self, post: Self, reg: u8) -> bool {
        &&& post.spec_frames() == pre.spec_frames()
        &&& post.spec_reads() == pre.spec_reads().push(
            (reg, seq![post.spec_last_read_byte()]),
        )
    }

    /// Between `pre` and `post` one successful read-modify-write of `reg`
    /// happened: one byte read, then one frame writing that byte back with
    /// the run of `length` bits ending at `start` replaced by the low bits
    /// of `data`, and all other bits of the byte kept.
    pub open spec fn spec_rmw_bits(
        pre: Self,
        post: Self,
        reg: u8,
        start: u8,
        length: u8,
        data: u8,
    ) -> bool {
        &&& post.spec_reads() == pre.spec_reads().push(
            (reg, seq![post.spec_last_read_byte()]),
        )
        &&& post.spec_frames() == pre.spec_frames().push(
            (reg, bits::spec_set_bits(post.spec_last_read_byte(), start, length, data)),
        )
    }

    /// Like [`Self::spec_rmw_bits`], for a single bit forced to `value`.
    pub open spec fn spec_rmw_bit(pre: Self, post: Self, reg: u8, n: u8, value: bool) -> bool {
        &&& post.spec_reads() == pre.spec_reads().push(
            (reg, seq![post.spec_last_read_byte()]),
        )
        &&& post.spec_frames() == pre.spec_frames().push(
            (reg, bits::spec_set_bit(post.spec_last_read_byte(), n, value)),
        )
    }

    /// A failed read-modify-write of `reg`: no frame was written, and the
    /// read log grew by at most the one read that preceded the failure.
    pub open spec fn spec_failed_rmw(pre: Self, post: Self, reg: u8) -> bool {
        &&& post.spec_frames() == pre.spec_frames()
        &&& (post.spec_reads() == pre.spec_reads() || post.spec_reads() == pre.spec_reads().push(
            (reg, seq![post.spec_last_read_byte()]),
        ))
    }

    /// Writes `byte` to register `reg`: one bus write of the frame
    /// `[reg, byte]`, appended to the frame log on success.
    pub fn write_byte(&mut self, reg: u8, byte: u8) -> (r: Result<(), Mpu6050Error<I::BusError>>)
        ensures
            final(self).spec_same_config(*old(self)),
            final(self).spec_reads() == old(self).spec_reads(),
            r is Ok ==> final(self).spec_frames() == old(self).spec_frames().push((reg, byte)),
            r is Err ==> final(self).spec_frames() == old(self).spec_frames(),
            r matches Err(e) ==> e is I2c,
    {
        let mut frame: Vec<u8> = Vec::new();
        frame.push(reg);
        frame.push(byte);
        match self.i2c.write(self.slave_addr, &frame) {
            Ok(_) => Ok(()),
            Err(e) => Err(Mpu6050Error::I2c(e)),
        }
    }

    /// Reads `len` consecutive registers starting at `reg`, in one combined
    /// write-then-read bus transaction, appended to the read log on
    /// success.
    pub fn read_bytes(&mut self, reg: u8, len: usize) -> (r: Result<
        Vec<u8>,
        Mpu6050Error<I::BusError>,
    >)
        ensures
            final(self).spec_same_config(*old(self)),
            final(self).spec_frames() == old(self).spec_frames(),
            r matches Ok(buf) ==> buf@.len() == len && final(self).spec_reads() == old(
                self,
            ).spec_reads().push((reg, buf@)),
            r is Err ==> final(self).spec_reads() == old(self).spec_reads(),
            r matches Err(e) ==> e is I2c,
    {
        match self.i2c.write_read(self.slave_addr, reg, len) {
            Ok(buf) => Ok(buf),
            Err(e) => Err(Mpu6050Error::I2c(e)),
        }
    }

    /// Reads one register; the result is the byte the bus returned.
    pub fn read_byte(&mut self, reg: u8) -> (r: Result<u8, Mpu6050Error<I::BusError>>)
        ensures
            final(self).spec_same_config(*old(self)),
            final(self).spec_frames() == old(self).spec_frames(),
            r matches Ok(b) ==> Self::spec_read_byte_of(*old(self), *final(self), reg) && b
                == final(self).spec_last_read_byte(),
            r is Err ==> final(self).spec_reads() == old(self).spec_reads(),
            r matches Err(e) ==> e is I2c,
    {
        let buf = match self.read_bytes(reg, 1) {
            Ok(buf) => buf,
            Err(e) => return Err(e),
        };
        let b = buf[0];
        proof {
            assert(buf@ =~= seq![b]);
            assert(self.spec_reads().last() == (reg, buf@));
        }
        Ok(b)
    }

    /// Reads bit `bit_n` of register `reg`, as 0 or 1: the named bit of the
    /// byte the bus returned.
    pub fn read_bit(&mut self, reg: u8, bit_n: u8) -> (r: Result<u8, Mpu6050Error<I::BusError>>)
        requires
            bit_n < 8,
        ensures
            final(self).spec_same_config(*old(self)),
            final(self).spec_frames() == old(self).spec_frames(),
            r matches Ok(v) ==> v <= 1 && Self::spec_read_byte_of(*old(self), *final(self), reg)
                && v == bits::spec_get_bit(final(self).spec_last_read_byte(), bit_n),
            r is Err ==> final(self).spec_reads() == old(self).spec_reads(),
            r matches Err(e) ==> e is I2c,
    {
        let byte = match self.read_byte(reg) {
            Ok(b) => b,
            Err(e) => return Err(e),
        };
        Ok(bits::get_bit(byte, bit_n))
    }

    /// Reads the run of `length` bits ending at bit `start_bit` of register
    /// `reg`, right-aligned: the named run of the byte the bus returned.
    pub fn read_bits(&mut self, reg: u8, start_bit: u8, length: u8) -> (r: Result<
        u8,
        Mpu6050Error<I::BusError>,
    >)
        requires
            start_bit < 8,
            1 <= length,
            length <= start_bit + 1,
        ensures
            final(self).spec_same_config(*old(self)),
            final(self).spec_frames() == old(self).spec_frames(),
            r matches Ok(v) ==> Self::spec_read_byte_of(*old(self), *final(self), reg) && v
                == bits::spec_get_bits(final(self).spec_last_read_byte(), start_bit, length),
            r is Err ==> final(self).spec_reads() == old(self).spec_reads(),
            r matches Err(e) ==> e is I2c,
    {
        let byte = match self.read_byte(reg) {
            Ok(b) => b,
            Err(e) => return Err(e),
        };
        Ok(bits::get_bits(byte, start_bit, length))
    }

    /// Forces bit `bit_n` of register `reg` to `enable` by a register read,
    /// a bit update and a register write: on success the frame written
    /// holds the byte read with only that bit replaced.  The
    /// read-modify-write pair is not atomic across the two bus
    /// transactions.
    pub fn write_bit(&mut self, reg: u8, bit_n: u8, enable: bool) -> (r: Result<
        (),
        Mpu6050Error<I::BusError>,
    >)
        requires
            bit_n < 8,
        ensures
            final(self).spec_same_config(*old(self)),
            r is Ok ==> Self::spec_rmw_bit(*old(self), *final(self), reg, bit_n, enable),
            r is Err ==> Self::spec_failed_rmw(*old(self), *final(self), reg),
            r matches Err(e) ==> e is I2c,
    {
        let mut byte = match self.read_byte(reg) {
            Ok(b) => b,
            Err(e) => return Err(e),
        };
        bits::set_bit(&mut byte, bit_n, enable);
        self.write_byte(reg, byte)
    }

    /// Replaces the run of `length` bits ending at bit `start_bit` of
    /// register `reg` by the low `length` bits of `data`, by a register
    /// read, a bit-run update and a register write: on success the frame
    /// written holds the byte read with only that run replaced.  Not atomic
    /// across the two bus transactions.
    pub fn write_bits(&mut self, reg: u8, start_bit: u8, length: u8, data: u8) -> (r: Result<
        (),
        Mpu6050Error<I::BusError>,
    >)
        requires
            start_bit < 8,
            1 <= length,
            length <= start_bit + 1,
        ensures
            final(self).spec_same_config(*old(self)),
            r is Ok ==> Self::spec_rmw_bits(
                *old(self),
                *final(self),
                reg,
                start_bit,
                length,
                data,
            ),
            r is Err ==> Self::spec_failed_rmw(*old(self), *final(self), reg),
            r matches Err(e) ==> e is I2c,
    {
        let mut byte = match self.read_byte(reg) {
            Ok(b) => b,
            Err(e) => return Err(e),
        };
        bits::set_bits(&mut byte, start_bit, length, data);
        self.write_byte(reg, byte)
    }

    /// Wakes the sensor: one write of the frame `(PWR_MGMT_1, 0x01)`, which
    /// clears the sleep bit and selects the PLL-with-gyro-X clock source,
    /// followed by the fixed 100 ms settling delay.
    fn wake<D: DelayMs>(&mut self, delay: &mut D) -> (r: Result<(), Mpu6050Error<I::BusError>>)
        ensures
            final(self).spec_same_config(*old(self)),
            final(self).spec_reads() == old(self).spec_reads(),
            r is Ok ==> final(self).spec_frames() == old(self).spec_frames().push(
                (PWR_MGMT_1_ADDR, 0x01),
            ) && final(delay).spec_delays() == old(delay).spec_delays().push(100),
            r is Err ==> final(self).spec_frames() == old(self).spec_frames() && final(delay).spec_delays() == old(delay).spec_delays(),
            r matches Err(e) ==> e is I2c,
    {
        match self.write_byte(PWR_MGMT_1_ADDR, 0x01) {
            Ok(_) => {}
            Err(e) => return Err(e),
        }
        delay.delay_ms(100);
        Ok(())
    }

    /// Reads the identity register and checks that the sensor reports the
    /// expected identity value, which equals the default slave address and
    /// is compared regardless of the configured one.  Read-only: no frame
    /// is written.
    fn verify(&mut self) -> (r: Result<(), Mpu6050Error<I::BusError>>)
        ensures
            final(self).spec_same_config(*old(self)),
            final(self).spec_frames() == old(self).spec_frames(),
            r is Ok ==> final(self).spec_reads() == old(self).spec_reads().push(
                (WHOAMI, seq![DEFAULT_SLAVE_ADDR]),
            ),
            r matches Err(Mpu6050Error::InvalidChipId(b)) ==> b != DEFAULT_SLAVE_ADDR && final(self).spec_reads() == old(self).spec_reads().push((WHOAMI, seq![b])),
            r matches Err(Mpu6050Error::I2c(_)) ==> final(self).spec_reads() == old(
                self,
            ).spec_reads(),
    {
        let address = match self.read_byte(WHOAMI) {
            Ok(a) => a,
            Err(e) => return Err(e),
        };
        if address != DEFAULT_SLAVE_ADDR {
            return Err(Mpu6050Error::InvalidChipId(address));
        }
        Ok(())
    }

    /// Initializes the sensor: wake (one frame `(PWR_MGMT_1, 0x01)` and the
    /// 100 ms delay), identity check, then the default configuration in
    /// order: accelerometer range +/- 2g, gyroscope range +/- 250 deg/s,
    /// high-pass filter reset — each one read-modify-write writing the
    /// field to zero.  On an identity mismatch the error carries the byte
    /// actually read, no configuration write is issued, and the device is
    /// left addressable; nothing already written is rolled back.
    pub fn init<D: DelayMs>(&mut self, delay: &mut D) -> (r: Result<(), Mpu6050Error<I::BusError>>)
        ensures
            final(self).spec_slave_addr() == old(self).spec_slave_addr(),
            r is Ok ==> final(self).spec_accel_range() == AccelRange::G2
                && final(self).spec_gyro_range() == GyroRange::D250
                && final(delay).spec_delays() == old(delay).spec_delays().push(100),
            r is Ok ==> ({
                let reads0 = old(self).spec_reads();
                let reads = final(self).spec_reads();
                let n = reads0.len() as int;
                let a = reads[n + 1].1[0];
                let g = reads[n + 2].1[0];
                let h = reads[n + 3].1[0];
                &&& reads == reads0.push((WHOAMI, seq![DEFAULT_SLAVE_ADDR])).push(
                    (ACCEL_CONFIG_ADDR, seq![a]),
                ).push((GYRO_CONFIG_ADDR, seq![g])).push((ACCEL_CONFIG_ADDR, seq![h]))
                &&& final(self).spec_frames() == old(self).spec_frames().push(
                    (PWR_MGMT_1_ADDR, 0x01),
                ).push(
                    (ACCEL_CONFIG_ADDR, bits::spec_set_bits(a, ACCEL_FS_SEL_BIT, ACCEL_FS_SEL_LENGTH, 0)),
                ).push(
                    (GYRO_CONFIG_ADDR, bits::spec_set_bits(g, GYRO_FS_SEL_BIT, GYRO_FS_SEL_LENGTH, 0)),
                ).push(
                    (ACCEL_CONFIG_ADDR, bits::spec_set_bits(h, ACCEL_HPF_BIT, ACCEL_HPF_LENGTH, 0)),
                )
            }),
            r matches Err(Mpu6050Error::InvalidChipId(b)) ==> b != DEFAULT_SLAVE_ADDR
                && final(self).spec_frames() == old(self).spec_frames().push(
                (PWR_MGMT_1_ADDR, 0x01),
            ) && final(self).spec_reads() == old(self).spec_reads().push((WHOAMI, seq![b]))
                && final(self).spec_accel_range() == old(self).spec_accel_range()
                && final(self).spec_gyro_range() == old(self).spec_gyro_range(),
    {
        let ghost s0 = *self;
        match self.wake(delay) {
            Ok(_) => {}
            Err(e) => return Err(e),
        }
        let ghost s1 = *self;
        match self.verify() {
            Ok(_) => {}
            Err(e) => return Err(e),
        }
        let ghost s2 = *self;
        match self.set_accel_range(AccelRange::G2) {
            Ok(_) => {}
            Err(e) => return Err(e),
        }
        let ghost s3 = *self;
        match self.set_gyro_range(GyroRange::D250) {
            Ok(_) => {}
            Err(e) => return Err(e),
        }
        let ghost s4 = *self;
        match self.set_accel_hpf(ACCEL_HPF::_RESET) {
            Ok(_) => {}
            Err(e) => return Err(e),
        }
        proof {
            let reads0 = s0.spec_reads();
            let n = reads0.len() as int;
            let r1 = (WHOAMI, seq![DEFAULT_SLAVE_ADDR]);
            let r2 = (ACCEL_CONFIG_ADDR, seq![s3.spec_last_read_byte()]);
            let r3 = (GYRO_CONFIG_ADDR, seq![s4.spec_last_read_byte()]);
            let r4 = (ACCEL_CONFIG_ADDR, seq![self.spec_last_read_byte()]);
            assert(self.spec_reads() == reads0.push(r1).push(r2).push(r3).push(r4));
            assert(self.spec_reads()[n + 1] == r2);
            assert(self.spec_reads()[n + 2] == r3);
            assert(self.spec_reads()[n + 3] == r4);
        }
        Ok(())
    }

    /// Selects the sensor's clock source: one read-modify-write of the
    /// 3-bit clock-select field of the power management register.
    pub fn set_clock_source(&mut self, source: CLKSEL) -> (r: Result<
        (),
        Mpu6050Error<I::BusError>,
    >)
        ensures
            final(self).spec_same_config(*old(self)),
            r is Ok ==> Self::spec_rmw_bits(
                *old(self),
                *final(self),
                PWR_MGMT_1_ADDR,
                CLKSEL_BIT,
                CLKSEL_LENGTH,
                source.spec_as_u8(),
            ),
            r is Err ==> Self::spec_failed_rmw(*old(self), *final(self), PWR_MGMT_1_ADDR),
            r matches Err(e) ==> e is I2c,
    {
        self.write_bits(PWR_MGMT_1_ADDR, CLKSEL_BIT, CLKSEL_LENGTH, source.as_u8())
    }

    /// Reads the currently selected clock source: the decoded clock-select
    /// field of the byte the bus returned.  Read-only.
    pub fn get_clock_source(&mut self) -> (r: Result<CLKSEL, Mpu6050Error<I::BusError>>)
        ensures
            final(self).spec_same_config(*old(self)),
            final(self).spec_frames() == old(self).spec_frames(),
            r matches Ok(v) ==> Self::spec_read_byte_of(*old(self), *final(self), PWR_MGMT_1_ADDR)
                && v == CLKSEL::spec_from_u8(
                bits::spec_get_bits(final(self).spec_last_read_byte(), CLKSEL_BIT, CLKSEL_LENGTH),
            ),
            r is Err ==> final(self).spec_reads() == old(self).spec_reads(),
            r matches Err(e) ==> e is I2c,
    {
        let source = match self.read_bits(PWR_MGMT_1_ADDR, CLKSEL_BIT, CLKSEL_LENGTH) {
            Ok(v) => v,
            Err(e) => return Err(e),
        };
        Ok(CLKSEL::from_u8(source))
    }

    /// Applies the fixed, datasheet-mandated sequence of whole-byte writes
    /// that arms the motion-detection interrupt: clear power management,
    /// configure the interrupt pin, set the accelerometer high-pass filter
    /// to 5 Hz, write the motion threshold and duration, write the
    /// decrement/start-up-delay configuration, and enable the motion
    /// interrupt.  On success exactly the frames of
    /// [`spec_motion_detection_frames`] are written, in that order; on a
    /// failure the frames before the failing one were written, in order,
    /// and none after it.
    pub fn setup_motion_detection(&mut self) -> (r: Result<(), Mpu6050Error<I::BusError>>)
        ensures
            final(self).spec_same_config(*old(self)),
            final(self).spec_reads() == old(self).spec_reads(),
            r is Ok ==> final(self).spec_frames() == old(self).spec_frames()
                + spec_motion_detection_frames(),
            r is Err ==> exists|k: int|
                0 <= k < 7 && final(self).spec_frames() == old(self).spec_frames()
                    + #[trigger] spec_motion_detection_frames().take(k),
            r matches Err(e) ==> e is I2c,
    {
        let ghost frames0 = self.spec_frames();
        match self.write_byte(PWR_MGMT_1_ADDR, 0x00) {
            Ok(_) => {}
            Err(e) => {
                proof {
                    assert(self.spec_frames() =~= frames0 + spec_motion_detection_frames().take(
                        0,
                    ));
                }
                return Err(e);
            }
        }
        match self.write_byte(INT_PIN_CFG_ADDR, 0x20) {
            Ok(_) => {}
            Err(e) => {
                proof {
                    assert(self.spec_frames() =~= frames0 + spec_motion_detection_frames().take(
                        1,
                    ));
                }
                return Err(e);
            }
        }
        match self.write_byte(ACCEL_CONFIG_ADDR, 0x01) {
            Ok(_) => {}
            Err(e) => {
                proof {
                    assert(self.spec_frames() =~= frames0 + spec_motion_detection_frames().take(
                        2,
                    ));
                }
                return Err(e);
            }
        }
        match self.write_byte(MOT_THR, 10) {
            Ok(_) => {}
            Err(e) => {
                proof {
                    assert(self.spec_frames() =~= frames0 + spec_motion_detection_frames().take(
                        3,
                    ));
                }
                return Err(e);
            }
        }
        match self.write_byte(MOT_DUR, 40) {
            Ok(_) => {}
            Err(e) => {
                proof {
                    assert(self.spec_frames() =~= frames0 + spec_motion_detection_frames().take(
                        4,
                    ));
                }
                return Err(e);
            }
        }
        match self.write_byte(MOT_DETECT_CTRL_ADDR, 0x15) {
            Ok(_) => {}
            Err(e) => {
                proof {
                    assert(self.spec_frames() =~= frames0 + spec_motion_detection_frames().take(
                        5,
                    ));
                }
                return Err(e);
            }
        }
        match self.write_byte(INT_ENABLE_ADDR, 0x40) {
            Ok(_) => {}
            Err(e) => {
                proof {
                    assert(self.spec_frames() =~= frames0 + spec_motion_detection_frames().take(
                        6,
                    ));
                }
                return Err(e);
            }
        }
        proof {
            assert(self.spec_frames() =~= frames0 + spec_motion_detection_frames());
        }
        Ok(())
    }

    /// True when the motion-interrupt flag is set in the byte read from the
    /// interrupt status register.  Read-only.
    pub fn get_motion_detected(&mut self) -> (r: Result<bool, Mpu6050Error<I::BusError>>)
        ensures
            final(self).spec_same_config(*old(self)),
            final(self).spec_frames() == old(self).spec_frames(),
            r matches Ok(v) ==> Self::spec_read_byte_of(*old(self), *final(self), INT_STATUS_ADDR)
                && v == (bits::spec_get_bit(final(self).spec_last_read_byte(), MOT_INT_BIT) == 1),
            r is Err ==> final(self).spec_reads() == old(self).spec_reads(),
            r matches Err(e) ==> e is I2c,
    {
        let bit = match self.read_bit(INT_STATUS_ADDR, MOT_INT_BIT) {
            Ok(v) => v,
            Err(e) => return Err(e),
        };
        Ok(bit != 0)
    }

    /// Selects the accelerometer high-pass filter mode: one
    /// read-modify-write of the 3-bit filter field of the accelerometer
    /// configuration register.
    pub fn set_accel_hpf(&mut self, mode: ACCEL_HPF) -> (r: Result<(), Mpu6050Error<I::BusError>>)
        ensures
            final(self).spec_same_config(*old(self)),
            r is Ok ==> Self::spec_rmw_bits(
                *old(self),
                *final(self),
                ACCEL_CONFIG_ADDR,
                ACCEL_HPF_BIT,
                ACCEL_HPF_LENGTH,
                mode.spec_as_u8(),
            ),
            r is Err ==> Self::spec_failed_rmw(*old(self), *final(self), ACCEL_CONFIG_ADDR),
            r matches Err(e) ==> e is I2c,
    {
        self.write_bits(ACCEL_CONFIG_ADDR, ACCEL_HPF_BIT, ACCEL_HPF_LENGTH, mode.as_u8())
    }

    /// Reads the accelerometer high-pass filter mode: the decoded filter
    /// field of the byte the bus returned.  Read-only.
    pub fn get_accel_hpf(&mut self) -> (r: Result<ACCEL_HPF, Mpu6050Error<I::BusError>>)
        ensures
            final(self).spec_same_config(*old(self)),
            final(self).spec_frames() == old(self).spec_frames(),
            r matches Ok(v) ==> Self::spec_read_byte_of(*old(self), *final(self), ACCEL_CONFIG_ADDR)
                && v == ACCEL_HPF::spec_from_u8(
                bits::spec_get_bits(
                    final(self).spec_last_read_byte(),
                    ACCEL_HPF_BIT,
                    ACCEL_HPF_LENGTH,
                ),
            ),
            r is Err ==> final(self).spec_reads() == old(self).spec_reads(),
            r matches Err(e) ==> e is I2c,
    {
        let mode = match self.read_bits(ACCEL_CONFIG_ADDR, ACCEL_HPF_BIT, ACCEL_HPF_LENGTH) {
            Ok(v) => v,
            Err(e) => return Err(e),
        };
        Ok(ACCEL_HPF::from_u8(mode))
    }

    /// Selects the gyroscope range — one read-modify-write of the 2-bit
    /// range field, keeping the register's other bits — and updates the
    /// cached range with it, in the same call.  On a bus error nothing is
    /// written and the cache keeps its old value.
    pub fn set_gyro_range(&mut self, range: GyroRange) -> (r: Result<
        (),
        Mpu6050Error<I::BusError>,
    >)
        ensures
            final(self).spec_slave_addr() == old(self).spec_slave_addr(),
            final(self).spec_accel_range() == old(self).spec_accel_range(),
            r is Ok ==> final(self).spec_gyro_range() == range && Self::spec_rmw_bits(
                *old(self),
                *final(self),
                GYRO_CONFIG_ADDR,
                GYRO_FS_SEL_BIT,
                GYRO_FS_SEL_LENGTH,
                range.spec_as_u8(),
            ),
            r is Err ==> final(self).spec_gyro_range() == old(self).spec_gyro_range()
                && Self::spec_failed_rmw(*old(self), *final(self), GYRO_CONFIG_ADDR),
            r matches Err(e) ==> e is I2c,
    {
        match self.write_bits(GYRO_CONFIG_ADDR, GYRO_FS_SEL_BIT, GYRO_FS_SEL_LENGTH, range.as_u8())
        {
            Ok(_) => {}
            Err(e) => return Err(e),
        }
        self.gyro_range = range;
        Ok(())
    }

    /// Reads the gyroscope range from the sensor: the decoded range field
    /// of the byte the bus returned.  Read-only.
    pub fn get_gyro_range(&mut self) -> (r: Result<GyroRange, Mpu6050Error<I::BusError>>)
        ensures
            final(self).spec_same_config(*old(self)),
            final(self).spec_frames() == old(self).spec_frames(),
            r matches Ok(v) ==> Self::spec_read_byte_of(*old(self), *final(self), GYRO_CONFIG_ADDR)
                && v == GyroRange::spec_from_u8(
                bits::spec_get_bits(
                    final(self).spec_last_read_byte(),
                    GYRO_FS_SEL_BIT,
                    GYRO_FS_SEL_LENGTH,
                ),
            ),
            r is Err ==> final(self).spec_reads() == old(self).spec_reads(),
            r matches Err(e) ==> e is I2c,
    {
        let byte = match self.read_bits(GYRO_CONFIG_ADDR, GYRO_FS_SEL_BIT, GYRO_FS_SEL_LENGTH) {
            Ok(v) => v,
            Err(e) => return Err(e),
        };
        Ok(GyroRange::from_u8(byte))
    }

    /// Selects the accelerometer range — one read-modify-write of the 2-bit
    /// range field, keeping the register's other bits (self-test bits,
    /// filter field) — and updates the cached range with it, in the same
    /// call.  On a bus error nothing is written and the cache keeps its
    /// old value.
    pub fn set_accel_range(&mut self, range: AccelRange) -> (r: Result<
        (),
        Mpu6050Error<I::BusError>,
    >)
        ensures
            final(self).spec_slave_addr() == old(self).spec_slave_addr(),
            final(self).spec_gyro_range() == old(self).spec_gyro_range(),
            r is Ok ==> final(self).spec_accel_range() == range && Self::spec_rmw_bits(
                *old(self),
                *final(self),
                ACCEL_CONFIG_ADDR,
                ACCEL_FS_SEL_BIT,
                ACCEL_FS_SEL_LENGTH,
                range.spec_as_u8(),
            ),
            r is Err ==> final(self).spec_accel_range() == old(self).spec_accel_range()
                && Self::spec_failed_rmw(*old(self), *final(self), ACCEL_CONFIG_ADDR),
            r matches Err(e) ==> e is I2c,
    {
        match self.write_bits(
            ACCEL_CONFIG_ADDR,
            ACCEL_FS_SEL_BIT,
            ACCEL_FS_SEL_LENGTH,
            range.as_u8(),
        ) {
            Ok(_) => {}
            Err(e) => return Err(e),
        }
        self.acc_range = range;
        Ok(())
    }

    /// Reads the accelerometer range from the sensor: the decoded range
    /// field of the byte the bus returned.  Read-only.
    pub fn get_accel_range(&mut self) -> (r: Result<AccelRange, Mpu6050Error<I::BusError>>)
        ensures
            final(self).spec_same_config(*old(self)),
            final(self).spec_frames() == old(self).spec_frames(),
            r matches Ok(v) ==> Self::spec_read_byte_of(*old(self), *final(self), ACCEL_CONFIG_ADDR)
                && v == AccelRange::spec_from_u8(
                bits::spec_get_bits(
                    final(self).spec_last_read_byte(),
                    ACCEL_FS_SEL_BIT,
                    ACCEL_FS_SEL_LENGTH,
                ),
            ),
            r is Err ==> final(self).spec_reads() == old(self).spec_reads(),
            r matches Err(e) ==> e is I2c,
    {
        let byte = match self.read_bits(ACCEL_CONFIG_ADDR, ACCEL_FS_SEL_BIT, ACCEL_FS_SEL_LENGTH) {
            Ok(v) => v,
            Err(e) => return Err(e),
        };
        Ok(AccelRange::from_u8(byte))
    }

    /// Sets the device-reset bit — one read-modify-write of the power
    /// management register — and waits the fixed 100 ms settling delay.  As
    /// a hardware side effect the reset re-arms the sleep bit, so the
    /// caller may need to wake and verify again; no re-initialization is
    /// performed here.
    pub fn reset_device<D: DelayMs>(&mut self, delay: &mut D) -> (r: Result<
        (),
        Mpu6050Error<I::BusError>,
    >)
        ensures
            final(self).spec_same_config(*old(self)),
            r is Ok ==> Self::spec_rmw_bit(
                *old(self),
                *final(self),
                PWR_MGMT_1_ADDR,
                DEVICE_RESET_BIT,
                true,
            ) && final(delay).spec_delays() == old(delay).spec_delays().push(100),
            r is Err ==> Self::spec_failed_rmw(*old(self), *final(self), PWR_MGMT_1_ADDR) && final(delay).spec_delays() == old(delay).spec_delays(),
            r matches Err(e) ==> e is I2c,
    {
        match self.write_bit(PWR_MGMT_1_ADDR, DEVICE_RESET_BIT, true) {
            Ok(_) => {}
            Err(e) => return Err(e),
        }
        delay.delay_ms(100);
        Ok(())
    }

    /// Enables or disables the sensor's sleep mode: one read-modify-write
    /// of the sleep bit.
    pub fn set_sleep_enabled(&mut self, enable: bool) -> (r: Result<
        (),
        Mpu6050Error<I::BusError>,
    >)
        ensures
            final(self).spec_same_config(*old(self)),
            r is Ok ==> Self::spec_rmw_bit(
                *old(self),
                *final(self),
                PWR_MGMT_1_ADDR,
                SLEEP_BIT,
                enable,
            ),
            r is Err ==> Self::spec_failed_rmw(*old(self), *final(self), PWR_MGMT_1_ADDR),
            r matches Err(e) ==> e is I2c,
    {
        self.write_bit(PWR_MGMT_1_ADDR, SLEEP_BIT, enable)
    }

    /// True when the sleep bit is set in the byte read from the power
    /// management register.  Read-only.
    pub fn get_sleep_enabled(&mut self) -> (r: Result<bool, Mpu6050Error<I::BusError>>)
        ensures
            final(self).spec_same_config(*old(self)),
            final(self).spec_frames() == old(self).spec_frames(),
            r matches Ok(v) ==> Self::spec_read_byte_of(*old(self), *final(self), PWR_MGMT_1_ADDR)
                && v == (bits::spec_get_bit(final(self).spec_last_read_byte(), SLEEP_BIT) == 1),
            r is Err ==> final(self).spec_reads() == old(self).spec_reads(),
            r matches Err(e) ==> e is I2c,
    {
        let bit = match self.read_bit(PWR_MGMT_1_ADDR, SLEEP_BIT) {
            Ok(v) => v,
            Err(e) => return Err(e),
        };
        Ok(bit != 0)
    }

    /// Enables or disables the temperature sensor.  The register bit stores
    /// the *disabled* state, so the bit written is the logical negation of
    /// `enable`.
    pub fn set_temp_enabled(&mut self, enable: bool) -> (r: Result<(), Mpu6050Error<I::BusError>>)
        ensures
            final(self).spec_same_config(*old(self)),
            r is Ok ==> Self::spec_rmw_bit(
                *old(self),
                *final(self),
                PWR_MGMT_1_ADDR,
                TEMP_DIS_BIT,
                !enable,
            ),
            r is Err ==> Self::spec_failed_rmw(*old(self), *final(self), PWR_MGMT_1_ADDR),
            r matches Err(e) ==> e is I2c,
    {
        self.write_bit(PWR_MGMT_1_ADDR, TEMP_DIS_BIT, !enable)
    }

    /// True when the temperature sensor is enabled, i.e. when the
    /// inverted-polarity disable bit reads zero.  Read-only.
    pub fn get_temp_enabled(&mut self) -> (r: Result<bool, Mpu6050Error<I::BusError>>)
        ensures
            final(self).spec_same_config(*old(self)),
            final(self).spec_frames() == old(self).spec_frames(),
            r matches Ok(v) ==> Self::spec_read_byte_of(*old(self), *final(self), PWR_MGMT_1_ADDR)
                && v == (bits::spec_get_bit(final(self).spec_last_read_byte(), TEMP_DIS_BIT) == 0),
            r is Err ==> final(self).spec_reads() == old(self).spec_reads(),
            r matches Err(e) ==> e is I2c,
    {
        let bit = match self.read_bit(PWR_MGMT_1_ADDR, TEMP_DIS_BIT) {
            Ok(v) => v,
            Err(e) => return Err(e),
        };
        Ok(bit == 0)
    }

    /// Enables or disables the accelerometer X-axis self test: one
    /// read-modify-write of its bit.
    pub fn set_accel_x_self_test(&mut self, enable: bool) -> (r: Result<
        (),
        Mpu6050Error<I::BusError>,
    >)
        ensures
            final(self).spec_same_config(*old(self)),
            r is Ok ==> Self::spec_rmw_bit(
                *old(self),
                *final(self),
                ACCEL_CONFIG_ADDR,
                XA_ST_BIT,
                enable,
            ),
            r is Err ==> Self::spec_failed_rmw(*old(self), *final(self), ACCEL_CONFIG_ADDR),
            r matches Err(e) ==> e is I2c,
    {
        self.write_bit(ACCEL_CONFIG_ADDR, XA_ST_BIT, enable)
    }

    /// True when the accelerometer X-axis self test bit is set in the byte
    /// read.  Read-only.
    pub fn get_accel_x_self_test(&mut self) -> (r: Result<bool, Mpu6050Error<I::BusError>>)
        ensures
            final(self).spec_same_config(*old(self)),
            final(self).spec_frames() == old(self).spec_frames(),
            r matches Ok(v) ==> Self::spec_read_byte_of(*old(self), *final(self), ACCEL_CONFIG_ADDR)
                && v == (bits::spec_get_bit(final(self).spec_last_read_byte(), XA_ST_BIT) == 1),
            r is Err ==> final(self).spec_reads() == old(self).spec_reads(),
            r matches Err(e) ==> e is I2c,
    {
        let bit = match self.read_bit(ACCEL_CONFIG_ADDR, XA_ST_BIT) {
            Ok(v) => v,
            Err(e) => return Err(e),
        };
        Ok(bit != 0)
    }

    /// Enables or disables the accelerometer Y-axis self test: one
    /// read-modify-write of its bit.
    pub fn set_accel_y_self_test(&mut self, enable: bool) -> (r: Result<
        (),
        Mpu6050Error<I::BusError>,
    >)
        ensures
            final(self).spec_same_config(*old(self)),
            r is Ok ==> Self::spec_rmw_bit(
                *old(self),
                *final(self),
                ACCEL_CONFIG_ADDR,
                YA_ST_BIT,
                enable,
            ),
            r is Err ==> Self::spec_failed_rmw(*old(self), *final(self), ACCEL_CONFIG_ADDR),
            r matches Err(e) ==> e is I2c,
    {
        self.write_bit(ACCEL_CONFIG_ADDR, YA_ST_BIT, enable)
    }

    /// True when the accelerometer Y-axis self test bit is set in the byte
    /// read.  Read-only.
    pub fn get_accel_y_self_test(&mut self) -> (r: Result<bool, Mpu6050Error<I::BusError>>)
        ensures
            final(self).spec_same_config(*old(self)),
            final(self).spec_frames() == old(self).spec_frames(),
            r matches Ok(v) ==> Self::spec_read_byte_of(*old(self), *final(self), ACCEL_CONFIG_ADDR)
                && v == (bits::spec_get_bit(final(self).spec_last_read_byte(), YA_ST_BIT) == 1),
            r is Err ==> final(self).spec_reads() == old(self).spec_reads(),
            r matches Err(e) ==> e is I2c,
    {
        let bit = match self.read_bit(ACCEL_CONFIG_ADDR, YA_ST_BIT) {
            Ok(v) => v,
            Err(e) => return Err(e),
        };
        Ok(bit != 0)
    }

    /// Enables or disables the accelerometer Z-axis self test: one
    /// read-modify-write of its bit.
    pub fn set_accel_z_self_test(&mut self, enable: bool) -> (r: Result<
        (),
        Mpu6050Error<I::BusError>,
    >)
        ensures
            final(self).spec_same_config(*old(self)),
            r is Ok ==> Self::spec_rmw_bit(
                *old(self),
                *final(self),
                ACCEL_CONFIG_ADDR,
                ZA_ST_BIT,
                enable,
            ),
            r is Err ==> Self::spec_failed_rmw(*old(self), *final(self), ACCEL_CONFIG_ADDR),
            r matches Err(e) ==> e is I2c,
    {
        self.write_bit(ACCEL_CONFIG_ADDR, ZA_ST_BIT, enable)
    }

    /// True when the accelerometer Z-axis self test bit is set in the byte
    /// read.  Read-only.
    pub fn get_accel_z_self_test(&mut self) -> (r: Result<bool, Mpu6050Error<I::BusError>>)
        ensures
            final(self).spec_same_config(*old(self)),
            final(self).spec_frames() == old(self).spec_frames(),
            r matches Ok(v) ==> Self::spec_read_byte_of(*old(self), *final(self), ACCEL_CONFIG_ADDR)
                && v == (bits::spec_get_bit(final(self).spec_last_read_byte(), ZA_ST_BIT) == 1),
            r is Err ==> final(self).spec_reads() == old(self).spec_reads(),
            r matches Err(e) ==> e is I2c,
    {
        let bit = match self.read_bit(ACCEL_CONFIG_ADDR, ZA_ST_BIT) {
            Ok(v) => v,
            Err(e) => return Err(e),
        };
        Ok(bit != 0)
    }

    /// Reads a 6-byte axis block starting at register `reg` and decodes its
    /// three big-endian two's-complement words from the bytes the bus
    /// returned.  Read-only.
    pub fn read_rot(&mut self, reg: u8) -> (r: Result<(i32, i32, i32), Mpu6050Error<I::BusError>>)
        ensures
            final(self).spec_same_config(*old(self)),
            final(self).spec_frames() == old(self).spec_frames(),
            r matches Ok(v) ==> ({
                let rec = final(self).spec_reads().last();
                &&& final(self).spec_reads() == old(self).spec_reads().push(rec)
                &&& rec.0 == reg
                &&& rec.1.len() == 6
                &&& v.0 == conversion::spec_word_2c(rec.1[0], rec.1[1])
                &&& v.1 == conversion::spec_word_2c(rec.1[2], rec.1[3])
                &&& v.2 == conversion::spec_word_2c(rec.1[4], rec.1[5])
            }),
            r matches Ok(v) ==> -0x8000 <= v.0 <= 0x7fff && -0x8000 <= v.1 <= 0x7fff && -0x8000
                <= v.2 <= 0x7fff,
            r is Err ==> final(self).spec_reads() == old(self).spec_reads(),
            r matches Err(e) ==> e is I2c,
    {
        let buf = match self.read_bytes(reg, 6) {
            Ok(b) => b,
            Err(e) => return Err(e),
        };
        proof {
            assert(self.spec_reads().last() == (reg, buf@));
        }
        Ok(conversion::decode_axes(&buf))
    }

    /// Raw accelerometer reading: the three signed axis words decoded from
    /// the accelerometer data block, unscaled.
    pub fn get_acc_raw(&mut self) -> (r: Result<(i32, i32, i32), Mpu6050Error<I::BusError>>)
        ensures
            final(self).spec_same_config(*old(self)),
            final(self).spec_frames() == old(self).spec_frames(),
            r matches Ok(v) ==> ({
                let rec = final(self).spec_reads().last();
                &&& final(self).spec_reads() == old(self).spec_reads().push(rec)
                &&& rec.0 == ACC_REGX_H
                &&& rec.1.len() == 6
                &&& v.0 == conversion::spec_word_2c(rec.1[0], rec.1[1])
                &&& v.1 == conversion::spec_word_2c(rec.1[2], rec.1[3])
                &&& v.2 == conversion::spec_word_2c(rec.1[4], rec.1[5])
            }),
            r matches Ok(v) ==> -0x8000 <= v.0 <= 0x7fff && -0x8000 <= v.1 <= 0x7fff && -0x8000
                <= v.2 <= 0x7fff,
            r is Err ==> final(self).spec_reads() == old(self).spec_reads(),
            r matches Err(e) ==> e is I2c,
    {
        self.read_rot(ACC_REGX_H)
    }

    /// Raw gyroscope reading: the three signed axis words decoded from the
    /// gyroscope data block, unscaled.
    pub fn get_gyro_raw(&mut self) -> (r: Result<(i32, i32, i32), Mpu6050Error<I::BusError>>)
        ensures
            final(self).spec_same_config(*old(self)),
            final(self).spec_frames() == old(self).spec_frames(),
            r matches Ok(v) ==> ({
                let rec = final(self).spec_reads().last();
                &&& final(self).spec_reads() == old(self).spec_reads().push(rec)
                &&& rec.0 == GYRO_REGX_H
                &&& rec.1.len() == 6
                &&& v.0 == conversion::spec_word_2c(rec.1[0], rec.1[1])
                &&& v.1 == conversion::spec_word_2c(rec.1[2], rec.1[3])
                &&& v.2 == conversion::spec_word_2c(rec.1[4], rec.1[5])
            }),
            r matches Ok(v) ==> -0x8000 <= v.0 <= 0x7fff && -0x8000 <= v.1 <= 0x7fff && -0x8000
                <= v.2 <= 0x7fff,
            r is Err ==> final(self).spec_reads() == old(self).spec_reads(),
            r matches Err(e) ==> e is I2c,
    {
        self.read_rot(GYRO_REGX_H)
    }

    /// Raw temperature reading: the signed word decoded from the
    /// temperature register pair, unscaled.
    pub fn get_temp_raw(&mut self) -> (r: Result<i32, Mpu6050Error<I::BusError>>)
        ensures
            final(self).spec_same_config(*old(self)),
            final(self).spec_frames() == old(self).spec_frames(),
            r matches Ok(v) ==> ({
                let rec = final(self).spec_reads().last();
                &&& final(self).spec_reads() == old(self).spec_reads().push(rec)
                &&& rec.0 == TEMP_OUT_H
                &&& rec.1.len() == 2
                &&& v == conversion::spec_word_2c(rec.1[0], rec.1[1])
            }),
            r matches Ok(v) ==> -0x8000 <= v <= 0x7fff,
            r is Err ==> final(self).spec_reads() == old(self).spec_reads(),
            r matches Err(e) ==> e is I2c,
    {
        let buf = match self.read_bytes(TEMP_OUT_H, 2) {
            Ok(b) => b,
            Err(e) => return Err(e),
        };
        proof {
            assert(self.spec_reads().last() == (TEMP_OUT_H, buf@));
        }
        Ok(conversion::read_word_2c(buf[0], buf[1]))
    }
}

/// If the byte a range setter wrote comes back unchanged from the sensor,
/// the accelerometer range getter's decoding yields exactly the range that
/// was set, whatever the register held before.
pub proof fn lemma_accel_range_round_trip(b: u8, range: AccelRange)
    ensures
        AccelRange::spec_from_u8(
            bits::spec_get_bits(
                bits::spec_set_bits(b, ACCEL_FS_SEL_BIT, ACCEL_FS_SEL_LENGTH, range.spec_as_u8()),
                ACCEL_FS_SEL_BIT,
                ACCEL_FS_SEL_LENGTH,
            ),
        ) == range,
{
    bits::lemma_set_bits_get_bits(b, ACCEL_FS_SEL_BIT, ACCEL_FS_SEL_LENGTH, range.spec_as_u8());
    assert(bits::low_bits(0, 2) == 0 && bits::low_bits(1, 2) == 1 && bits::low_bits(2, 2) == 2
        && bits::low_bits(3, 2) == 3) by (bit_vector);
}

/// The same round trip for the gyroscope range field.
pub proof fn lemma_gyro_range_round_trip(b: u8, range: GyroRange)
    ensures
        GyroRange::spec_from_u8(
            bits::spec_get_bits(
                bits::spec_set_bits(b, GYRO_FS_SEL_BIT, GYRO_FS_SEL_LENGTH, range.spec_as_u8()),
                GYRO_FS_SEL_BIT,
                GYRO_FS_SEL_LENGTH,
            ),
        ) == range,
{
    bits::lemma_set_bits_get_bits(b, GYRO_FS_SEL_BIT, GYRO_FS_SEL_LENGTH, range.spec_as_u8());
    assert(bits::low_bits(0, 2) == 0 && bits::low_bits(1, 2) == 1 && bits::low_bits(2, 2) == 2
        && bits::low_bits(3, 2) == 3) by (bit_vector);
}

/// The same round trip for the clock-select field.
pub proof fn lemma_clock_source_round_trip(b: u8, source: CLKSEL)
    ensures
        CLKSEL::spec_from_u8(
            bits::spec_get_bits(
                bits::spec_set_bits(b, CLKSEL_BIT, CLKSEL_LENGTH, source.spec_as_u8()),
                CLKSEL_BIT,
                CLKSEL_LENGTH,
            ),
        ) == source,
{
    bits::lemma_set_bits_get_bits(b, CLKSEL_BIT, CLKSEL_LENGTH, source.spec_as_u8());
    assert(bits::low_bits(0, 3) == 0 && bits::low_bits(1, 3) == 1 && bits::low_bits(2, 3) == 2
        && bits::low_bits(3, 3) == 3 && bits::low_bits(4, 3) == 4 && bits::low_bits(5, 3) == 5
        && bits::low_bits(6, 3) == 6 && bits::low_bits(7, 3) == 7) by (bit_vector);
}

/// The same round trip for the accelerometer high-pass filter field.
pub proof fn lemma_accel_hpf_round_trip(b: u8, mode: ACCEL_HPF)
    ensures
        ACCEL_HPF::spec_from_u8(
            bits::spec_get_bits(
                bits::spec_set_bits(b, ACCEL_HPF_BIT, ACCEL_HPF_LENGTH, mode.spec_as_u8()),
                ACCEL_HPF_BIT,
                ACCEL_HPF_LENGTH,
            ),
        ) == mode,
{
    bits::lemma_set_bits_get_bits(b, ACCEL_HPF_BIT, ACCEL_HPF_LENGTH, mode.spec_as_u8());
    assert(bits::low_bits(0, 3) == 0 && bits::low_bits(1, 3) == 1 && bits::low_bits(2, 3) == 2
        && bits::low_bits(3, 3) == 3 && bits::low_bits(4, 3) == 4 && bits::low_bits(7, 3) == 7)
        by (bit_vector);
}

/// Aggregates the optional parts of a device and produces a validated
/// [`Mpu6050`]; only the bus handle is mandatory.  Building performs no bus
/// traffic: the produced device still needs [`Mpu6050::init`].
pub struct Mpu6050Builder<I> {
    i2c: Option<I>,
    slave_addr: Option<u8>,
    acc_sensitivity: Option<AccelRange>,
    gyro_sensitivity: Option<GyroRange>,
}

impl<I> Mpu6050Builder<I> {
    /// The bus handle supplied so far, if any.
    pub closed spec fn spec_i2c(self) -> Option<I> {
        self.i2c
    }

    /// True when a bus handle was supplied.
    pub open spec fn spec_has_i2c(self) -> bool {
        self.spec_i2c() is Some
    }

    /// The slave address supplied so far, if any.
    pub closed spec fn spec_slave_addr(self) -> Option<u8> {
        self.slave_addr
    }

    /// The accelerometer range supplied so far, if any.
    pub closed spec fn spec_accel_range(self) -> Option<AccelRange> {
        self.acc_sensitivity
    }

    /// The gyroscope range supplied so far, if any.
    pub closed spec fn spec_gyro_range(self) -> Option<GyroRange> {
        self.gyro_sensitivity
    }

    /// A builder with nothing supplied yet.
    pub fn new() -> (r: Self)
        ensures
            r.spec_i2c() is None,
            r.spec_slave_addr() is None,
            r.spec_accel_range() is None,
            r.spec_gyro_range() is None,
    {
        Mpu6050Builder {
            i2c: None,
            slave_addr: None,
            acc_sensitivity: None,
            gyro_sensitivity: None,
        }
    }

    /// Supplies the bus handle.
    pub fn i2c(self, i2c: I) -> (r: Self)
        ensures
            r.spec_i2c() == Some(i2c),
            r.spec_slave_addr() == self.spec_slave_addr(),
            r.spec_accel_range() == self.spec_accel_range(),
            r.spec_gyro_range() == self.spec_gyro_range(),
    {
        Mpu6050Builder {
            i2c: Some(i2c),
            slave_addr: self.slave_addr,
            acc_sensitivity: self.acc_sensitivity,
            gyro_sensitivity: self.gyro_sensitivity,
        }
    }

    /// Supplies the slave address.
    pub fn slave_addr(self, slave_addr: u8) -> (r: Self)
        ensures
            r.spec_i2c() == self.spec_i2c(),
            r.spec_slave_addr() == Some(slave_addr),
            r.spec_accel_range() == self.spec_accel_range(),
            r.spec_gyro_range() == self.spec_gyro_range(),
    {
        Mpu6050Builder {
            i2c: self.i2c,
            slave_addr: Some(slave_addr),
            acc_sensitivity: self.acc_sensitivity,
            gyro_sensitivity: self.gyro_sensitivity,
        }
    }

    /// Supplies the accelerometer range the device starts with.
    pub fn acc_sensitivity(self, acc_sensitivity: AccelRange) -> (r: Self)
        ensures
            r.spec_i2c() == self.spec_i2c(),
            r.spec_slave_addr() == self.spec_slave_addr(),
            r.spec_accel_range() == Some(acc_sensitivity),
            r.spec_gyro_range() == self.spec_gyro_range(),
    {
        Mpu6050Builder {
            i2c: self.i2c,
            slave_addr: self.slave_addr,
            acc_sensitivity: Some(acc_sensitivity),
            gyro_sensitivity: self.gyro_sensitivity,
        }
    }

    /// Supplies the gyroscope range the device starts with.
    pub fn gyro_sensitivity(self, gyro_sensitivity: GyroRange) -> (r: Self)
        ensures
            r.spec_i2c() == self.spec_i2c(),
            r.spec_slave_addr() == self.spec_slave_addr(),
            r.spec_accel_range() == self.spec_accel_range(),
            r.spec_gyro_range() == Some(gyro_sensitivity),
    {
        Mpu6050Builder {
            i2c: self.i2c,
            slave_addr: self.slave_addr,
            acc_sensitivity: self.acc_sensitivity,
            gyro_sensitivity: Some(gyro_sensitivity),
        }
    }

    /// Produces the device.  It fails exactly when no bus handle was
    /// supplied; the device owns the supplied handle, and every other
    /// missing field falls back to its default: the default slave address
    /// and the most sensitive ranges.
    pub fn build(self) -> (r: Result<Mpu6050<I>, Mpu6050BuilderError>)
        ensures
            r is Err <==> !self.spec_has_i2c(),
            r matches Err(e) ==> e == Mpu6050BuilderError::NoI2cDeviceProvided,
            r matches Ok(d) ==> {
                &&& Some(d.spec_bus()) == self.spec_i2c()
                &&& d.spec_slave_addr() == (match self.spec_slave_addr() {
                    Some(a) => a,
                    None => DEFAULT_SLAVE_ADDR,
                })
                &&& d.spec_accel_range() == (match self.spec_accel_range() {
                    Some(g) => g,
                    None => AccelRange::G2,
                })
                &&& d.spec_gyro_range() == (match self.spec_gyro_range() {
                    Some(g) => g,
                    None => GyroRange::D250,
                })
            },
    {
        let i2c = match self.i2c {
            Some(i2c) => i2c,
            None => return Err(Mpu6050BuilderError::NoI2cDeviceProvided),
        };
        let slave_addr = match self.slave_addr {
            Some(a) => a,
            None => DEFAULT_SLAVE_ADDR,
        };
        let acc_range = match self.acc_sensitivity {
            Some(g) => g,
            None => AccelRange::G2,
        };
        let gyro_range = match self.gyro_sensitivity {
            Some(g) => g,
            None => GyroRange::D250,
        };
        Ok(Mpu6050 { i2c, slave_addr, acc_range, gyro_range })
    }
}

} // verus!
