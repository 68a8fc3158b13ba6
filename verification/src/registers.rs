//! Register map of the sensor: fixed, datasheet-defined register addresses,
//! bit-field positions, and the closed enumerations written into those
//! fields.  The addresses must match the hardware exactly.

use vstd::prelude::*;

verus! {

/// Default bus address of the sensor; the identity register reports the same
/// value.
pub const DEFAULT_SLAVE_ADDR: u8 = 0x68;

/// Identity (WHOAMI) register.
pub const WHOAMI: u8 = 0x75;

/// Power management 1 register: sleep, temperature-disable, clock-select and
/// device-reset bits.
pub const PWR_MGMT_1_ADDR: u8 = 0x6b;

/// Device-reset bit of power management 1.
pub const DEVICE_RESET_BIT: u8 = 7;

/// Sleep bit of power management 1.
pub const SLEEP_BIT: u8 = 6;

/// Cycle bit of power management 1.
pub const CYCLE_BIT: u8 = 5;

/// Temperature-disable bit of power management 1.  Inverted polarity: a one
/// in the register means the temperature sensor is disabled.
pub const TEMP_DIS_BIT: u8 = 3;

/// Start bit of the clock-select field of power management 1.
pub const CLKSEL_BIT: u8 = 2;

/// Length of the clock-select field.
pub const CLKSEL_LENGTH: u8 = 3;

/// Accelerometer configuration register: self-test bits, full-scale range
/// and high-pass filter fields.
pub const ACCEL_CONFIG_ADDR: u8 = 0x1c;

/// Accelerometer X-axis self-test bit.
pub const XA_ST_BIT: u8 = 7;

/// Accelerometer Y-axis self-test bit.
pub const YA_ST_BIT: u8 = 6;

/// Accelerometer Z-axis self-test bit.
pub const ZA_ST_BIT: u8 = 5;

/// Start bit of the accelerometer full-scale range field.
pub const ACCEL_FS_SEL_BIT: u8 = 4;

/// Length of the accelerometer full-scale range field.
pub const ACCEL_FS_SEL_LENGTH: u8 = 2;

/// Start bit of the accelerometer high-pass filter field.
pub const ACCEL_HPF_BIT: u8 = 2;

/// Length of the accelerometer high-pass filter field.
pub const ACCEL_HPF_LENGTH: u8 = 3;

/// Gyroscope configuration register.
pub const GYRO_CONFIG_ADDR: u8 = 0x1b;

/// Start bit of the gyroscope full-scale range field.
pub const GYRO_FS_SEL_BIT: u8 = 4;

/// Length of the gyroscope full-scale range field.
pub const GYRO_FS_SEL_LENGTH: u8 = 2;

/// Interrupt pin configuration register.
pub const INT_PIN_CFG_ADDR: u8 = 0x37;

/// Interrupt enable register.
pub const INT_ENABLE_ADDR: u8 = 0x38;

/// Interrupt status register.
pub const INT_STATUS_ADDR: u8 = 0x3a;

/// Motion-interrupt flag bit of the interrupt status register.
pub const MOT_INT_BIT: u8 = 6;

/// Motion threshold register.
pub const MOT_THR: u8 = 0x1f;

/// Motion duration register.
pub const MOT_DUR: u8 = 0x20;

/// Motion detection control register (decrements and start-up delay).
pub const MOT_DETECT_CTRL_ADDR: u8 = 0x69;

/// First accelerometer data register (X high); six consecutive bytes hold
/// the X/Y/Z big-endian pairs.
pub const ACC_REGX_H: u8 = 0x3b;

/// First temperature data register (high byte of a big-endian pair).
pub const TEMP_OUT_H: u8 = 0x41;

/// First gyroscope data register (X high); six consecutive bytes hold the
/// X/Y/Z big-endian pairs.
pub const GYRO_REGX_H: u8 = 0x43;

/// Clock source selected by the clock-select field of power management 1.
#[allow(non_camel_case_types)]
#[derive(Clone, Copy, Debug, PartialEq, Eq, Structural)]
pub enum CLKSEL {
    /// Internal 8 MHz oscillator.
    OSCILL,
    /// PLL with X-axis gyroscope reference.
    GXAXIS,
    /// PLL with Y-axis gyroscope reference.
    GYAXIS,
    /// PLL with Z-axis gyroscope reference.
    GZAXIS,
    /// PLL with external 32.768 kHz reference.
    EXT_32p7,
    /// PLL with external 19.2 MHz reference.
    EXT_19P2,
    /// Reserved value.
    RESERV,
    /// Stops the clock, keeping the timing generator in reset.
    STOP,
}

impl CLKSEL {
    /// Field encoding of the clock source.
    pub open spec fn spec_as_u8(self) -> u8 {
        match self {
            CLKSEL::OSCILL => 0,
            CLKSEL::GXAXIS => 1,
            CLKSEL::GYAXIS => 2,
            CLKSEL::GZAXIS => 3,
            CLKSEL::EXT_32p7 => 4,
            CLKSEL::EXT_19P2 => 5,
            CLKSEL::RESERV => 6,
            CLKSEL::STOP => 7,
        }
    }

    /// Clock source encoded by a field value; values above 7 cannot come out
    /// of the 3-bit field and fall back to the internal oscillator.
    pub open spec fn spec_from_u8(value: u8) -> CLKSEL {
        if value == 0 {
            CLKSEL::OSCILL
        } else if value == 1 {
            CLKSEL::GXAXIS
        } else if value == 2 {
            CLKSEL::GYAXIS
        } else if value == 3 {
            CLKSEL::GZAXIS
        } else if value == 4 {
            CLKSEL::EXT_32p7
        } else if value == 5 {
            CLKSEL::EXT_19P2
        } else if value == 6 {
            CLKSEL::RESERV
        } else if value == 7 {
            CLKSEL::STOP
        } else {
            CLKSEL::OSCILL
        }
    }

    /// Field encoding of the clock source, as written to the register.
    pub fn as_u8(self) -> (r: u8)
        ensures
            r == self.spec_as_u8(),
            r <= 7,
    {
        match self {
            CLKSEL::OSCILL => 0,
            CLKSEL::GXAXIS => 1,
            CLKSEL::GYAXIS => 2,
            CLKSEL::GZAXIS => 3,
            CLKSEL::EXT_32p7 => 4,
            CLKSEL::EXT_19P2 => 5,
            CLKSEL::RESERV => 6,
            CLKSEL::STOP => 7,
        }
    }

    /// Clock source encoded by a field value.
    pub fn from_u8(value: u8) -> (r: CLKSEL)
        ensures
            r == Self::spec_from_u8(value),
    {
        match value {
            0 => CLKSEL::OSCILL,
            1 => CLKSEL::GXAXIS,
            2 => CLKSEL::GYAXIS,
            3 => CLKSEL::GZAXIS,
            4 => CLKSEL::EXT_32p7,
            5 => CLKSEL::EXT_19P2,
            6 => CLKSEL::RESERV,
            7 => CLKSEL::STOP,
            _ => CLKSEL::OSCILL,
        }
    }
}

/// Accelerometer high-pass filter mode, written to the filter field of the
/// accelerometer configuration register.
#[allow(non_camel_case_types)]
#[derive(Clone, Copy, Debug, PartialEq, Eq, Structural)]
pub enum ACCEL_HPF {
    /// Filter reset / disabled.
    _RESET,
    /// 5 Hz cut-off.
    _5,
    /// 2.5 Hz cut-off.
    _2P5,
    /// 1.25 Hz cut-off.
    _1P25,
    /// 0.63 Hz cut-off.
    _0P63,
    /// Hold the current sample.
    _HOLD,
}

impl ACCEL_HPF {
    /// Field encoding of the filter mode.
    pub open spec fn spec_as_u8(self) -> u8 {
        match self {
            ACCEL_HPF::_RESET => 0,
            ACCEL_HPF::_5 => 1,
            ACCEL_HPF::_2P5 => 2,
            ACCEL_HPF::_1P25 => 3,
            ACCEL_HPF::_0P63 => 4,
            ACCEL_HPF::_HOLD => 7,
        }
    }

    /// Filter mode encoded by a field value; the unassigned values 5 and 6
    /// and anything above the field's range fall back to the reset mode.
    pub open spec fn spec_from_u8(value: u8) -> ACCEL_HPF {
        if value == 1 {
            ACCEL_HPF::_5
        } else if value == 2 {
            ACCEL_HPF::_2P5
        } else if value == 3 {
            ACCEL_HPF::_1P25
        } else if value == 4 {
            ACCEL_HPF::_0P63
        } else if value == 7 {
            ACCEL_HPF::_HOLD
        } else {
            ACCEL_HPF::_RESET
        }
    }

    /// Field encoding of the filter mode, as written to the register.
    pub fn as_u8(self) -> (r: u8)
        ensures
            r == self.spec_as_u8(),
            r <= 7,
    {
        match self {
            ACCEL_HPF::_RESET => 0,
            ACCEL_HPF::_5 => 1,
            ACCEL_HPF::_2P5 => 2,
            ACCEL_HPF::_1P25 => 3,
            ACCEL_HPF::_0P63 => 4,
            ACCEL_HPF::_HOLD => 7,
        }
    }

    /// Filter mode encoded by a field value.
    pub fn from_u8(value: u8) -> (r: ACCEL_HPF)
        ensures
            r == Self::spec_from_u8(value),
    {
        match value {
            1 => ACCEL_HPF::_5,
            2 => ACCEL_HPF::_2P5,
            3 => ACCEL_HPF::_1P25,
            4 => ACCEL_HPF::_0P63,
            7 => ACCEL_HPF::_HOLD,
            _ => ACCEL_HPF::_RESET,
        }
    }
}

/// Accelerometer full-scale range.
#[derive(Clone, Copy, Debug, PartialEq, Eq, Structural)]
pub enum AccelRange {
    /// +/- 2g, the most sensitive range.
    G2,
    /// +/- 4g.
    G4,
    /// +/- 8g.
    G8,
    /// +/- 16g.
    G16,
}

impl AccelRange {
    /// Field encoding of the range.
    pub open spec fn spec_as_u8(self) -> u8 {
        match self {
            AccelRange::G2 => 0,
            AccelRange::G4 => 1,
            AccelRange::G8 => 2,
            AccelRange::G16 => 3,
        }
    }

    /// Range encoded by a field value; values above 3 cannot come out of the
    /// 2-bit field and fall back to the most sensitive range.
    pub open spec fn spec_from_u8(value: u8) -> AccelRange {
        if value == 1 {
            AccelRange::G4
        } else if value == 2 {
            AccelRange::G8
        } else if value == 3 {
            AccelRange::G16
        } else {
            AccelRange::G2
        }
    }

    /// Sensitivity of the range in LSB per g: the number of raw register
    /// counts corresponding to one g.
    pub open spec fn spec_sensitivity_lsb_per_g(self) -> u16 {
        match self {
            AccelRange::G2 => 16384,
            AccelRange::G4 => 8192,
            AccelRange::G8 => 4096,
            AccelRange::G16 => 2048,
        }
    }

    /// Field encoding of the range, as written to the register.
    pub fn as_u8(self) -> (r: u8)
        ensures
            r == self.spec_as_u8(),
            r <= 3,
    {
        match self {
            AccelRange::G2 => 0,
            AccelRange::G4 => 1,
            AccelRange::G8 => 2,
            AccelRange::G16 => 3,
        }
    }

    /// Range encoded by a field value.
    pub fn from_u8(value: u8) -> (r: AccelRange)
        ensures
            r == Self::spec_from_u8(value),
    {
        match value {
            1 => AccelRange::G4,
            2 => AccelRange::G8,
            3 => AccelRange::G16,
            _ => AccelRange::G2,
        }
    }

    /// Sensitivity of the range in LSB per g; always positive.
    pub fn sensitivity_lsb_per_g(self) -> (r: u16)
        ensures
            r == self.spec_sensitivity_lsb_per_g(),
            r > 0,
    {
        match self {
            AccelRange::G2 => 16384,
            AccelRange::G4 => 8192,
            AccelRange::G8 => 4096,
            AccelRange::G16 => 2048,
        }
    }
}

/// Gyroscope full-scale range.
#[derive(Clone, Copy, Debug, PartialEq, Eq, Structural)]
pub enum GyroRange {
    /// +/- 250 degrees per second, the most sensitive range.
    D250,
    /// +/- 500 degrees per second.
    D500,
    /// +/- 1000 degrees per second.
    D1000,
    /// +/- 2000 degrees per second.
    D2000,
}

impl GyroRange {
    /// Field encoding of the range.
    pub open spec fn spec_as_u8(self) -> u8 {
        match self {
            GyroRange::D250 => 0,
            GyroRange::D500 => 1,
            GyroRange::D1000 => 2,
            GyroRange::D2000 => 3,
        }
    }

    /// Range encoded by a field value; values above 3 cannot come out of the
    /// 2-bit field and fall back to the most sensitive range.
    pub open spec fn spec_from_u8(value: u8) -> GyroRange {
        if value == 1 {
            GyroRange::D500
        } else if value == 2 {
            GyroRange::D1000
        } else if value == 3 {
            GyroRange::D2000
        } else {
            GyroRange::D250
        }
    }

    /// Ten times the sensitivity of the range in LSB per degree per second.
    /// The factor of ten keeps the datasheet table (131, 65.5, 32.8, 16.4)
    /// integral.
    pub open spec fn spec_sensitivity_decilsb_per_dps(self) -> u16 {
        match self {
            GyroRange::D250 => 1310,
            GyroRange::D500 => 655,
            GyroRange::D1000 => 328,
            GyroRange::D2000 => 164,
        }
    }

    /// Field encoding of the range, as written to the register.
    pub fn as_u8(self) -> (r: u8)
        ensures
            r == self.spec_as_u8(),
            r <= 3,
    {
        match self {
            GyroRange::D250 => 0,
            GyroRange::D500 => 1,
            GyroRange::D1000 => 2,
            GyroRange::D2000 => 3,
        }
    }

    /// Range encoded by a field value.
    pub fn from_u8(value: u8) -> (r: GyroRange)
        ensures
            r == Self::spec_from_u8(value),
    {
        match value {
            1 => GyroRange::D500,
            2 => GyroRange::D1000,
            3 => GyroRange::D2000,
            _ => GyroRange::D250,
        }
    }

    /// Ten times the sensitivity of the range in LSB per degree per second;
    /// always positive.
    pub fn sensitivity_decilsb_per_dps(self) -> (r: u16)
        ensures
            r == self.spec_sensitivity_decilsb_per_dps(),
            r > 0,
    {
        match self {
            GyroRange::D250 => 1310,
            GyroRange::D500 => 655,
            GyroRange::D1000 => 328,
            GyroRange::D2000 => 164,
        }
    }
}

} // verus!
