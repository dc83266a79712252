//! Sensor configurations and their encoding in the registers of each chip.
//!
//! The BMI323 holds a configuration in one 16-bit register: the output data
//! rate in bits 0 to 3, the range in bits 4 to 6, the bandwidth in bit 7, the
//! averaging in bits 8 to 10 and the power mode in bits 12 to 14. The BMI160
//! holds the rate (bits 0 to 3) and the bandwidth (bit 4) in one 8-bit
//! register and the range in another, and takes the power mode as a command.

use vstd::prelude::*;
use crate::types::{
    AccelerometerPowerMode, AccelerometerRange, AverageNum, Bandwidth, ChipVariant,
    GyroscopePowerMode, GyroscopeRange, OutputDataRate, SensorType,
};

verus! {

/// A configuration as the registers of a chip hold it.
#[derive(Debug, Clone, Copy, PartialEq, Eq, Structural)]
pub enum ConfigImage {
    /// The content of the one configuration register of the BMI323.
    Word(u16),
    /// The contents of the rate and range registers of the BMI160, and the
    /// command that sets the power mode.
    Split { config: u8, range: u8, mode: u8 },
}

/// The content of a BMI323 configuration register with these fields.
pub open spec fn word_of(odr: u8, range: u8, bw: u8, avg_num: u8, mode: u8) -> int {
    odr + 16 * range + 128 * bw + 256 * avg_num + 4096 * mode
}

/// The content of a BMI160 rate register with these fields.
pub open spec fn rate_byte_of(odr: u8, bw: u8) -> int {
    odr + 16 * bw
}

/// Packs the fields of a BMI323 configuration register.
fn pack_word(odr: u8, range: u8, bw: u8, avg_num: u8, mode: u8) -> (word: u16)
    requires
        odr < 16,
        range < 8,
        bw < 2,
        avg_num < 8,
        mode < 8,
    ensures
        word == word_of(odr, range, bw, avg_num, mode),
{
    assert(((odr as u16) | ((range as u16) << 4) | ((bw as u16) << 7) | ((avg_num as u16) << 8) | ((
    mode as u16) << 12)) == (odr as u16) + 16 * (range as u16) + 128 * (bw as u16) + 256 * (
    avg_num as u16) + 4096 * (mode as u16)) by (bit_vector)
        requires
            odr < 16,
            range < 8,
            bw < 2,
            avg_num < 8,
            mode < 8,
    ;
    (odr as u16) | ((range as u16) << 4) | ((bw as u16) << 7) | ((avg_num as u16) << 8) | ((
    mode as u16) << 12)
}

/// Packs the fields of a BMI160 rate register.
fn pack_rate_byte(odr: u8, bw: u8) -> (byte: u8)
    requires
        odr < 16,
        bw < 2,
    ensures
        byte == rate_byte_of(odr, bw),
{
    assert((odr | (bw << 4)) == odr + 16 * bw) by (bit_vector)
        requires
            odr < 16,
            bw < 2,
    ;
    odr | (bw << 4)
}

/// Accelerometer configuration
#[derive(Debug, Clone, Copy, PartialEq, Eq, Structural)]
pub struct AccelConfig {
    /// Output data rate
    pub odr: OutputDataRate,
    /// Accelerometer range
    pub range: AccelerometerRange,
    /// Bandwidth
    pub bw: Bandwidth,
    /// Number of samples to average
    pub avg_num: AverageNum,
    /// Power mode
    pub mode: AccelerometerPowerMode,
}

impl AccelConfig {
    /// Whether the registers of `chip` can express the configuration.
    pub open spec fn representable(self, chip: ChipVariant) -> bool {
        &&& self.odr.available(chip, SensorType::Accelerometer)
        &&& self.avg_num.available(chip)
        &&& self.mode.code(chip) is Some
    }

    /// The configuration as the registers of `chip` hold it.
    pub open spec fn image(self, chip: ChipVariant) -> ConfigImage
        recommends
            self.representable(chip),
    {
        match chip {
            ChipVariant::Bmi323 => ConfigImage::Word(
                word_of(
                    self.odr.code(),
                    self.range.code(chip),
                    self.bw.code(),
                    self.avg_num.code(),
                    self.mode.code(chip).unwrap(),
                ) as u16,
            ),
            ChipVariant::Bmi160 => ConfigImage::Split {
                config: rate_byte_of(self.odr.code(), self.bw.code()) as u8,
                range: self.range.code(chip),
                mode: self.mode.code(chip).unwrap(),
            },
        }
    }

    /// Encodes the configuration for `chip`, or tells that the chip cannot
    /// express it.
    pub fn encode(&self, chip: ChipVariant) -> (r: Option<ConfigImage>)
        ensures
            self.representable(chip) ==> r == Some(self.image(chip)),
            !self.representable(chip) ==> r is None,
    {
        if !self.odr.is_available(chip, SensorType::Accelerometer) || !self.avg_num.is_available(
            chip,
        ) {
            return None;
        }
        let mode: u8 = match self.mode.register_value(chip) {
            Some(mode) => mode,
            None => { return None; },
        };
        let odr: u8 = self.odr.register_value();
        let range: u8 = self.range.register_value(chip);
        let bw: u8 = self.bw.register_value();
        match chip {
            ChipVariant::Bmi323 => Some(
                ConfigImage::Word(pack_word(odr, range, bw, self.avg_num.register_value(), mode)),
            ),
            ChipVariant::Bmi160 => Some(
                ConfigImage::Split { config: pack_rate_byte(odr, bw), range, mode },
            ),
        }
    }
}

/// Gyroscope configuration
#[derive(Debug, Clone, Copy, PartialEq, Eq, Structural)]
pub struct GyroConfig {
    /// Output data rate
    pub odr: OutputDataRate,
    /// Gyroscope range
    pub range: GyroscopeRange,
    /// Bandwidth
    pub bw: Bandwidth,
    /// Number of samples to average
    pub avg_num: AverageNum,
    /// Power mode
    pub mode: GyroscopePowerMode,
}

impl GyroConfig {
    /// Whether the registers of `chip` can express the configuration.
    pub open spec fn representable(self, chip: ChipVariant) -> bool {
        &&& self.odr.available(chip, SensorType::Gyroscope)
        &&& self.avg_num.available(chip)
        &&& self.mode.code(chip) is Some
    }

    /// The configuration as the registers of `chip` hold it.
    pub open spec fn image(self, chip: ChipVariant) -> ConfigImage
        recommends
            self.representable(chip),
    {
        match chip {
            ChipVariant::Bmi323 => ConfigImage::Word(
                word_of(
                    self.odr.code(),
                    self.range.code(chip),
                    self.bw.code(),
                    self.avg_num.code(),
                    self.mode.code(chip).unwrap(),
                ) as u16,
            ),
            ChipVariant::Bmi160 => ConfigImage::Split {
                config: rate_byte_of(self.odr.code(), self.bw.code()) as u8,
                range: self.range.code(chip),
                mode: self.mode.code(chip).unwrap(),
            },
        }
    }

    /// Encodes the configuration for `chip`, or tells that the chip cannot
    /// express it.
    pub fn encode(&self, chip: ChipVariant) -> (r: Option<ConfigImage>)
        ensures
            self.representable(chip) ==> r == Some(self.image(chip)),
            !self.representable(chip) ==> r is None,
    {
        if !self.odr.is_available(chip, SensorType::Gyroscope) || !self.avg_num.is_available(
            chip,
        ) {
            return None;
        }
        let mode: u8 = match self.mode.register_value(chip) {
            Some(mode) => mode,
            None => { return None; },
        };
        let odr: u8 = self.odr.register_value();
        let range: u8 = self.range.register_value(chip);
        let bw: u8 = self.bw.register_value();
        match chip {
            ChipVariant::Bmi323 => Some(
                ConfigImage::Word(pack_word(odr, range, bw, self.avg_num.register_value(), mode)),
            ),
            ChipVariant::Bmi160 => Some(
                ConfigImage::Split { config: pack_rate_byte(odr, bw), range, mode },
            ),
        }
    }
}

} // verus!
