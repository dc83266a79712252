//! Register addresses and constant values of the two chips.

use vstd::prelude::*;
use crate::types::{ChipVariant, SensorType};

verus! {

/// Register addresses and constant values. A name without a chip in it
/// holds for both chips.
pub struct Register;

impl Register {
    /// Chip ID register address
    pub const CHIPID: u8 = 0x00;
    /// Command register address
    pub const CMD: u8 = 0x7E;
    /// Data-ready bit of the accelerometer in the status register
    pub const DRDY_ACC: u8 = 0x80;
    /// Data-ready bit of the gyroscope in the status register
    pub const DRDY_GYR: u8 = 0x40;
    /// Length of the block read that fetches an accelerometer sample
    pub const ACC_DATA_LEN: usize = 21;
    /// Length of the block read that fetches a gyroscope sample
    pub const GYR_DATA_LEN: usize = 15;

    /// Expected chip ID of the BMI323
    pub const BMI323_CHIP_ID: u8 = 0x43;
    /// Error register address of the BMI323
    pub const BMI323_ERR_REG: u8 = 0x02;
    /// Status register address of the BMI323
    pub const BMI323_STATUS: u8 = 0x02;
    /// Accelerometer X-axis data register address of the BMI323
    pub const BMI323_ACC_DATA_X: u8 = 0x03;
    /// Gyroscope X-axis data register address of the BMI323
    pub const BMI323_GYR_DATA_X: u8 = 0x06;
    /// Accelerometer configuration register address of the BMI323
    pub const ACC_CONF: u8 = 0x20;
    /// Gyroscope configuration register address of the BMI323
    pub const GYR_CONF: u8 = 0x21;
    /// Soft reset command value of the BMI323, a 16-bit word
    pub const BMI323_CMD_SOFT_RESET: u16 = 0xDEAF;

    /// Expected chip ID of the BMI160
    pub const BMI160_CHIP_ID: u8 = 0xD1;
    /// Soft reset command value of the BMI160, one byte
    pub const BMI160_CMD_SOFT_RESET: u8 = 0xB6;
    /// Error register address of the BMI160
    pub const BMI160_ERR_REG: u8 = 0x01;
    /// Gyroscope X-axis data register address of the BMI160
    pub const BMI160_GYR_DATA_X: u8 = 0x0C;
    /// Accelerometer X-axis data register address of the BMI160
    pub const BMI160_ACC_DATA_X: u8 = 0x12;
    /// Status register address of the BMI160
    pub const BMI160_STATUS: u8 = 0x1B;
    /// Accelerometer rate and bandwidth register address of the BMI160
    pub const BMI160_ACCEL_CONFIG_ADDR: u8 = 0x40;
    /// Accelerometer range register address of the BMI160
    pub const BMI160_ACCEL_RANGE_ADDR: u8 = 0x41;
    /// Gyroscope rate and bandwidth register address of the BMI160
    pub const BMI160_GYRO_CONFIG_ADDR: u8 = 0x42;
    /// Gyroscope range register address of the BMI160
    pub const BMI160_GYRO_RANGE_ADDR: u8 = 0x43;

    /// The register map of `chip`.
    pub open spec fn map(chip: ChipVariant) -> RegisterMap {
        match chip {
            ChipVariant::Bmi323 => RegisterMap {
                chip_id: Register::BMI323_CHIP_ID,
                err_reg: Register::BMI323_ERR_REG,
                status: Register::BMI323_STATUS,
                acc_data_x: Register::BMI323_ACC_DATA_X,
                gyr_data_x: Register::BMI323_GYR_DATA_X,
            },
            ChipVariant::Bmi160 => RegisterMap {
                chip_id: Register::BMI160_CHIP_ID,
                err_reg: Register::BMI160_ERR_REG,
                status: Register::BMI160_STATUS,
                acc_data_x: Register::BMI160_ACC_DATA_X,
                gyr_data_x: Register::BMI160_GYR_DATA_X,
            },
        }
    }

    /// Selects the register map of `chip`.
    pub fn for_chip(chip: ChipVariant) -> (m: RegisterMap)
        ensures
            m == Register::map(chip),
    {
        match chip {
            ChipVariant::Bmi323 => RegisterMap {
                chip_id: Register::BMI323_CHIP_ID,
                err_reg: Register::BMI323_ERR_REG,
                status: Register::BMI323_STATUS,
                acc_data_x: Register::BMI323_ACC_DATA_X,
                gyr_data_x: Register::BMI323_GYR_DATA_X,
            },
            ChipVariant::Bmi160 => RegisterMap {
                chip_id: Register::BMI160_CHIP_ID,
                err_reg: Register::BMI160_ERR_REG,
                status: Register::BMI160_STATUS,
                acc_data_x: Register::BMI160_ACC_DATA_X,
                gyr_data_x: Register::BMI160_GYR_DATA_X,
            },
        }
    }
}

/// The entries of the register map that differ between the chips and that
/// both chips have.
#[derive(Debug, Clone, Copy, PartialEq, Eq, Structural)]
pub struct RegisterMap {
    /// Expected chip ID
    pub chip_id: u8,
    /// Error register address
    pub err_reg: u8,
    /// Status register address
    pub status: u8,
    /// Accelerometer X-axis data register address
    pub acc_data_x: u8,
    /// Gyroscope X-axis data register address
    pub gyr_data_x: u8,
}

impl RegisterMap {
    /// The address at which the sample of `sensor` starts.
    pub open spec fn data_start(self, sensor: SensorType) -> u8 {
        match sensor {
            SensorType::Accelerometer => self.acc_data_x,
            SensorType::Gyroscope => self.gyr_data_x,
        }
    }
}

/// The length of the block read that fetches a sample of `sensor`: the
/// address byte and the bytes that follow it.
pub open spec fn block_len(sensor: SensorType) -> nat {
    match sensor {
        SensorType::Accelerometer => Register::ACC_DATA_LEN as nat,
        SensorType::Gyroscope => Register::GYR_DATA_LEN as nat,
    }
}

/// Whether the content `status` of the error register of `chip` reports a
/// fault: on the BMI323 its lowest bit is set, on the BMI160 it is not zero.
pub open spec fn error_flagged(chip: ChipVariant, status: u8) -> bool {
    match chip {
        ChipVariant::Bmi323 => status % 2 == 1,
        ChipVariant::Bmi160 => status != 0,
    }
}

/// Tests the content of the error register of `chip` for a fault.
pub fn has_error_flag(chip: ChipVariant, status: u8) -> (r: bool)
    ensures
        r == error_flagged(chip, status),
{
    match chip {
        ChipVariant::Bmi323 => {
            assert(status & 0b0000_0001 == status % 2) by (bit_vector);
            (status & 0b0000_0001) != 0
        },
        ChipVariant::Bmi160 => status != 0,
    }
}

/// Whether the content `status` of the status register says that a sample
/// of `sensor` is ready: bit 7 for the accelerometer, bit 6 for the
/// gyroscope.
pub open spec fn data_ready(sensor: SensorType, status: u8) -> bool {
    match sensor {
        SensorType::Accelerometer => status >= 128,
        SensorType::Gyroscope => (status / 64) % 2 == 1,
    }
}

/// Tests the content of the status register for the ready bit of `sensor`.
pub fn has_data_ready(sensor: SensorType, status: u8) -> (r: bool)
    ensures
        r == data_ready(sensor, status),
{
    match sensor {
        SensorType::Accelerometer => {
            assert((status & 0x80 != 0) == (status >= 128)) by (bit_vector);
            (status & Register::DRDY_ACC) != 0
        },
        SensorType::Gyroscope => {
            assert((status & 0x40 != 0) == ((status / 64) % 2 == 1)) by (bit_vector);
            (status & Register::DRDY_GYR) != 0
        },
    }
}

} // verus!
