//! Value types of the driver: errors, chip variants, the configuration
//! vocabulary and the sample types.

use vstd::prelude::*;

verus! {

/// Failures of a device operation.
#[derive(Debug)]
pub enum Error<E> {
    /// The transport reported a fault; its own error value is carried along.
    Comm(E),
    /// The chip reported an error state or an unexpected chip id.
    InvalidDevice,
    /// The configuration cannot be expressed in the registers of the chip.
    InvalidConfig,
    /// A sample did not become ready within the polling budget.
    Timeout,
}

/// The supported chips. Their register layouts and encodings differ.
#[derive(Debug, Clone, Copy, PartialEq, Eq, Structural)]
pub enum ChipVariant {
    Bmi323,
    Bmi160,
}

/// The two sensors of the chip.
#[derive(Debug, Clone, Copy, PartialEq, Eq, Structural)]
pub enum SensorType {
    Accelerometer,
    Gyroscope,
}

/// Accelerometer power modes. `Disable` and `HighPerf` exist on the BMI323
/// only, `Suspend` on the BMI160 only.
#[derive(Debug, Clone, Copy, PartialEq, Eq, Structural)]
pub enum AccelerometerPowerMode {
    /// Accelerometer disabled
    Disable,
    /// Suspend mode
    Suspend,
    /// Low power mode
    LowPower,
    /// Normal power mode
    Normal,
    /// High performance mode
    HighPerf,
}

impl AccelerometerPowerMode {
    /// The register value of the mode on `chip`, if the chip has the mode.
    pub open spec fn code(self, chip: ChipVariant) -> Option<u8> {
        match chip {
            ChipVariant::Bmi323 => match self {
                AccelerometerPowerMode::Disable => Some(0x00u8),
                AccelerometerPowerMode::LowPower => Some(0x03u8),
                AccelerometerPowerMode::Normal => Some(0x04u8),
                AccelerometerPowerMode::HighPerf => Some(0x07u8),
                AccelerometerPowerMode::Suspend => None,
            },
            ChipVariant::Bmi160 => match self {
                AccelerometerPowerMode::Suspend => Some(0x10u8),
                AccelerometerPowerMode::Normal => Some(0x11u8),
                AccelerometerPowerMode::LowPower => Some(0x12u8),
                AccelerometerPowerMode::Disable => None,
                AccelerometerPowerMode::HighPerf => None,
            },
        }
    }

    /// Looks the register value of the mode up.
    pub fn register_value(self, chip: ChipVariant) -> (r: Option<u8>)
        ensures
            r == self.code(chip),
    {
        match chip {
            ChipVariant::Bmi323 => match self {
                AccelerometerPowerMode::Disable => Some(0x00),
                AccelerometerPowerMode::LowPower => Some(0x03),
                AccelerometerPowerMode::Normal => Some(0x04),
                AccelerometerPowerMode::HighPerf => Some(0x07),
                AccelerometerPowerMode::Suspend => None,
            },
            ChipVariant::Bmi160 => match self {
                AccelerometerPowerMode::Suspend => Some(0x10),
                AccelerometerPowerMode::Normal => Some(0x11),
                AccelerometerPowerMode::LowPower => Some(0x12),
                AccelerometerPowerMode::Disable => None,
                AccelerometerPowerMode::HighPerf => None,
            },
        }
    }
}

/// Accelerometer measurement ranges.
#[derive(Debug, Clone, Copy, PartialEq, Eq, Structural)]
pub enum AccelerometerRange {
    /// ±2 g
    G2,
    /// ±4 g
    G4,
    /// ±8 g
    G8,
    /// ±16 g
    G16,
}

impl AccelerometerRange {
    /// The full scale of the range in g.
    pub open spec fn full_scale(self) -> int {
        match self {
            AccelerometerRange::G2 => 2,
            AccelerometerRange::G4 => 4,
            AccelerometerRange::G8 => 8,
            AccelerometerRange::G16 => 16,
        }
    }

    /// The register value of the range on `chip`.
    pub open spec fn code(self, chip: ChipVariant) -> u8 {
        match chip {
            ChipVariant::Bmi323 => match self {
                AccelerometerRange::G2 => 0x00u8,
                AccelerometerRange::G4 => 0x01u8,
                AccelerometerRange::G8 => 0x02u8,
                AccelerometerRange::G16 => 0x03u8,
            },
            ChipVariant::Bmi160 => match self {
                AccelerometerRange::G2 => 0x03u8,
                AccelerometerRange::G4 => 0x05u8,
                AccelerometerRange::G8 => 0x08u8,
                AccelerometerRange::G16 => 0x0Cu8,
            },
        }
    }

    /// The full scale of the range in g.
    pub fn to_g(self) -> (g: u16)
        ensures
            g == self.full_scale(),
    {
        match self {
            AccelerometerRange::G2 => 2,
            AccelerometerRange::G4 => 4,
            AccelerometerRange::G8 => 8,
            AccelerometerRange::G16 => 16,
        }
    }

    /// Looks the register value of the range up.
    pub fn register_value(self, chip: ChipVariant) -> (r: u8)
        ensures
            r == self.code(chip),
    {
        match chip {
            ChipVariant::Bmi323 => match self {
                AccelerometerRange::G2 => 0x00,
                AccelerometerRange::G4 => 0x01,
                AccelerometerRange::G8 => 0x02,
                AccelerometerRange::G16 => 0x03,
            },
            ChipVariant::Bmi160 => match self {
                AccelerometerRange::G2 => 0x03,
                AccelerometerRange::G4 => 0x05,
                AccelerometerRange::G8 => 0x08,
                AccelerometerRange::G16 => 0x0C,
            },
        }
    }
}

impl Default for AccelerometerRange {
    fn default() -> (r: Self)
        ensures
            r == AccelerometerRange::G8,
    {
        AccelerometerRange::G8
    }
}

/// Gyroscope power modes. `Disable`, `LowPower` and `HighPerf` exist on the
/// BMI323 only, `FastStartup` on the BMI160 only.
#[derive(Debug, Clone, Copy, PartialEq, Eq, Structural)]
pub enum GyroscopePowerMode {
    /// Gyroscope disabled
    Disable,
    /// Suspend mode
    Suspend,
    /// Low power mode
    LowPower,
    /// Normal power mode
    Normal,
    /// High performance mode
    HighPerf,
    /// Fast start-up mode
    FastStartup,
}

impl GyroscopePowerMode {
    /// The register value of the mode on `chip`, if the chip has the mode.
    pub open spec fn code(self, chip: ChipVariant) -> Option<u8> {
        match chip {
            ChipVariant::Bmi323 => match self {
                GyroscopePowerMode::Disable => Some(0x00u8),
                GyroscopePowerMode::Suspend => Some(0x01u8),
                GyroscopePowerMode::LowPower => Some(0x03u8),
                GyroscopePowerMode::Normal => Some(0x04u8),
                GyroscopePowerMode::HighPerf => Some(0x07u8),
                GyroscopePowerMode::FastStartup => None,
            },
            ChipVariant::Bmi160 => match self {
                GyroscopePowerMode::Suspend => Some(0x14u8),
                GyroscopePowerMode::Normal => Some(0x15u8),
                GyroscopePowerMode::FastStartup => Some(0x17u8),
                GyroscopePowerMode::Disable => None,
                GyroscopePowerMode::LowPower => None,
                GyroscopePowerMode::HighPerf => None,
            },
        }
    }

    /// Looks the register value of the mode up.
    pub fn register_value(self, chip: ChipVariant) -> (r: Option<u8>)
        ensures
            r == self.code(chip),
    {
        match chip {
            ChipVariant::Bmi323 => match self {
                GyroscopePowerMode::Disable => Some(0x00),
                GyroscopePowerMode::Suspend => Some(0x01),
                GyroscopePowerMode::LowPower => Some(0x03),
                GyroscopePowerMode::Normal => Some(0x04),
                GyroscopePowerMode::HighPerf => Some(0x07),
                GyroscopePowerMode::FastStartup => None,
            },
            ChipVariant::Bmi160 => match self {
                GyroscopePowerMode::Suspend => Some(0x14),
                GyroscopePowerMode::Normal => Some(0x15),
                GyroscopePowerMode::FastStartup => Some(0x17),
                GyroscopePowerMode::Disable => None,
                GyroscopePowerMode::LowPower => None,
                GyroscopePowerMode::HighPerf => None,
            },
        }
    }
}

/// Gyroscope measurement ranges.
#[derive(Debug, Clone, Copy, PartialEq, Eq, Structural)]
pub enum GyroscopeRange {
    /// ±125 degrees per second
    DPS125,
    /// ±250 degrees per second
    DPS250,
    /// ±500 degrees per second
    DPS500,
    /// ±1000 degrees per second
    DPS1000,
    /// ±2000 degrees per second
    DPS2000,
}

impl GyroscopeRange {
    /// The full scale of the range in degrees per second.
    pub open spec fn full_scale(self) -> int {
        match self {
            GyroscopeRange::DPS125 => 125,
            GyroscopeRange::DPS250 => 250,
            GyroscopeRange::DPS500 => 500,
            GyroscopeRange::DPS1000 => 1000,
            GyroscopeRange::DPS2000 => 2000,
        }
    }

    /// The register value of the range on `chip`.
    pub open spec fn code(self, chip: ChipVariant) -> u8 {
        match chip {
            ChipVariant::Bmi323 => match self {
                GyroscopeRange::DPS125 => 0x00u8,
                GyroscopeRange::DPS250 => 0x01u8,
                GyroscopeRange::DPS500 => 0x02u8,
                GyroscopeRange::DPS1000 => 0x03u8,
                GyroscopeRange::DPS2000 => 0x04u8,
            },
            ChipVariant::Bmi160 => match self {
                GyroscopeRange::DPS125 => 0x04u8,
                GyroscopeRange::DPS250 => 0x03u8,
                GyroscopeRange::DPS500 => 0x02u8,
                GyroscopeRange::DPS1000 => 0x01u8,
                GyroscopeRange::DPS2000 => 0x00u8,
            },
        }
    }

    /// The full scale of the range in degrees per second.
    pub fn to_dps(self) -> (dps: u16)
        ensures
            dps == self.full_scale(),
    {
        match self {
            GyroscopeRange::DPS125 => 125,
            GyroscopeRange::DPS250 => 250,
            GyroscopeRange::DPS500 => 500,
            GyroscopeRange::DPS1000 => 1000,
            GyroscopeRange::DPS2000 => 2000,
        }
    }

    /// Looks the register value of the range up.
    pub fn register_value(self, chip: ChipVariant) -> (r: u8)
        ensures
            r == self.code(chip),
    {
        match chip {
            ChipVariant::Bmi323 => match self {
                GyroscopeRange::DPS125 => 0x00,
                GyroscopeRange::DPS250 => 0x01,
                GyroscopeRange::DPS500 => 0x02,
                GyroscopeRange::DPS1000 => 0x03,
                GyroscopeRange::DPS2000 => 0x04,
            },
            ChipVariant::Bmi160 => match self {
                GyroscopeRange::DPS125 => 0x04,
                GyroscopeRange::DPS250 => 0x03,
                GyroscopeRange::DPS500 => 0x02,
                GyroscopeRange::DPS1000 => 0x01,
                GyroscopeRange::DPS2000 => 0x00,
            },
        }
    }
}

impl Default for GyroscopeRange {
    fn default() -> (r: Self)
        ensures
            r == GyroscopeRange::DPS2000,
    {
        GyroscopeRange::DPS2000
    }
}

/// Output data rates for sensors. The rates below 25 Hz are not available to
/// the gyroscope of the BMI160, the rates above 1600 Hz exist on the BMI323
/// only.
#[allow(non_camel_case_types)]
#[derive(Debug, Clone, Copy, PartialEq, Eq, Structural)]
pub enum OutputDataRate {
    /// 0.78 Hz
    Odr0_78hz,
    /// 1.56 Hz
    Odr1_56hz,
    /// 3.125 Hz
    Odr3_125hz,
    /// 6.25 Hz
    Odr6_25hz,
    /// 12.5 Hz
    Odr12_5hz,
    /// 25 Hz
    Odr25hz,
    /// 50 Hz
    Odr50hz,
    /// 100 Hz
    Odr100hz,
    /// 200 Hz
    Odr200hz,
    /// 400 Hz
    Odr400hz,
    /// 800 Hz
    Odr800hz,
    /// 1600 Hz
    Odr1600hz,
    /// 3200 Hz
    Odr3200hz,
    /// 6400 Hz
    Odr6400hz,
}

impl OutputDataRate {
    /// The register value of the rate, the same on both chips.
    pub open spec fn code(self) -> u8 {
        match self {
            OutputDataRate::Odr0_78hz => 0x01u8,
            OutputDataRate::Odr1_56hz => 0x02u8,
            OutputDataRate::Odr3_125hz => 0x03u8,
            OutputDataRate::Odr6_25hz => 0x04u8,
            OutputDataRate::Odr12_5hz => 0x05u8,
            OutputDataRate::Odr25hz => 0x06u8,
            OutputDataRate::Odr50hz => 0x07u8,
            OutputDataRate::Odr100hz => 0x08u8,
            OutputDataRate::Odr200hz => 0x09u8,
            OutputDataRate::Odr400hz => 0x0Au8,
            OutputDataRate::Odr800hz => 0x0Bu8,
            OutputDataRate::Odr1600hz => 0x0Cu8,
            OutputDataRate::Odr3200hz => 0x0Du8,
            OutputDataRate::Odr6400hz => 0x0Eu8,
        }
    }

    /// Whether `sensor` of `chip` can run at this rate.
    pub open spec fn available(self, chip: ChipVariant, sensor: SensorType) -> bool {
        match chip {
            ChipVariant::Bmi323 => true,
            ChipVariant::Bmi160 => match sensor {
                SensorType::Accelerometer => self.code() <= 0x0C,
                SensorType::Gyroscope => 0x06 <= self.code() <= 0x0C,
            },
        }
    }

    /// Looks the register value of the rate up.
    pub fn register_value(self) -> (r: u8)
        ensures
            r == self.code(),
    {
        match self {
            OutputDataRate::Odr0_78hz => 0x01,
            OutputDataRate::Odr1_56hz => 0x02,
            OutputDataRate::Odr3_125hz => 0x03,
            OutputDataRate::Odr6_25hz => 0x04,
            OutputDataRate::Odr12_5hz => 0x05,
            OutputDataRate::Odr25hz => 0x06,
            OutputDataRate::Odr50hz => 0x07,
            OutputDataRate::Odr100hz => 0x08,
            OutputDataRate::Odr200hz => 0x09,
            OutputDataRate::Odr400hz => 0x0A,
            OutputDataRate::Odr800hz => 0x0B,
            OutputDataRate::Odr1600hz => 0x0C,
            OutputDataRate::Odr3200hz => 0x0D,
            OutputDataRate::Odr6400hz => 0x0E,
        }
    }

    /// Tells whether `sensor` of `chip` can run at this rate.
    pub fn is_available(self, chip: ChipVariant, sensor: SensorType) -> (r: bool)
        ensures
            r == self.available(chip, sensor),
    {
        let code: u8 = self.register_value();
        match chip {
            ChipVariant::Bmi323 => true,
            ChipVariant::Bmi160 => match sensor {
                SensorType::Accelerometer => code <= 0x0C,
                SensorType::Gyroscope => 0x06 <= code && code <= 0x0C,
            },
        }
    }
}

/// Number of samples to average. The BMI160 encoding has no averaging field:
/// there only `Avg1` can be expressed.
#[derive(Debug, Clone, Copy, PartialEq, Eq, Structural)]
pub enum AverageNum {
    /// No averaging
    Avg1,
    /// Average 2 samples
    Avg2,
    /// Average 4 samples
    Avg4,
    /// Average 8 samples
    Avg8,
    /// Average 16 samples
    Avg16,
    /// Average 32 samples
    Avg32,
    /// Average 64 samples
    Avg64,
}

impl AverageNum {
    /// The register value of the setting.
    pub open spec fn code(self) -> u8 {
        match self {
            AverageNum::Avg1 => 0x00u8,
            AverageNum::Avg2 => 0x01u8,
            AverageNum::Avg4 => 0x02u8,
            AverageNum::Avg8 => 0x03u8,
            AverageNum::Avg16 => 0x04u8,
            AverageNum::Avg32 => 0x05u8,
            AverageNum::Avg64 => 0x06u8,
        }
    }

    /// Whether `chip` can express the setting.
    pub open spec fn available(self, chip: ChipVariant) -> bool {
        chip == ChipVariant::Bmi323 || self == AverageNum::Avg1
    }

    /// Looks the register value of the setting up.
    pub fn register_value(self) -> (r: u8)
        ensures
            r == self.code(),
    {
        match self {
            AverageNum::Avg1 => 0x00,
            AverageNum::Avg2 => 0x01,
            AverageNum::Avg4 => 0x02,
            AverageNum::Avg8 => 0x03,
            AverageNum::Avg16 => 0x04,
            AverageNum::Avg32 => 0x05,
            AverageNum::Avg64 => 0x06,
        }
    }

    /// Tells whether `chip` can express the setting.
    pub fn is_available(self, chip: ChipVariant) -> (r: bool)
        ensures
            r == self.available(chip),
    {
        match chip {
            ChipVariant::Bmi323 => true,
            ChipVariant::Bmi160 => match self {
                AverageNum::Avg1 => true,
                _ => false,
            },
        }
    }
}

/// Sensor bandwidth settings
#[derive(Debug, Clone, Copy, PartialEq, Eq, Structural)]
pub enum Bandwidth {
    /// Half of the output data rate
    OdrHalf,
    /// Quarter of the output data rate
    OdrQuarter,
}

impl Bandwidth {
    /// The register value of the setting, the same on both chips.
    pub open spec fn code(self) -> u8 {
        match self {
            Bandwidth::OdrHalf => 0u8,
            Bandwidth::OdrQuarter => 1u8,
        }
    }

    /// Looks the register value of the setting up.
    pub fn register_value(self) -> (r: u8)
        ensures
            r == self.code(),
    {
        match self {
            Bandwidth::OdrHalf => 0,
            Bandwidth::OdrQuarter => 1,
        }
    }
}

/// The signed 16-bit number whose little-endian two's complement bytes are
/// `lo`, `hi`.
pub open spec fn le_i16(lo: u8, hi: u8) -> int {
    let unsigned = lo as int + 256 * (hi as int);
    if unsigned < 32768 {
        unsigned
    } else {
        unsigned - 65536
    }
}

/// The low byte of the two's complement form of `value`.
pub open spec fn low_byte(value: i16) -> u8 {
    (unsigned_of(value) % 256) as u8
}

/// The high byte of the two's complement form of `value`.
pub open spec fn high_byte(value: i16) -> u8 {
    (unsigned_of(value) / 256) as u8
}

/// The 16-bit two's complement form of `value`, as a natural number.
pub open spec fn unsigned_of(value: i16) -> int {
    if value < 0 {
        value + 65536
    } else {
        value as int
    }
}

/// The number that two little-endian bytes hold is `lo + 256 * hi`, less
/// 65536 where the top bit of `hi` is set; it is a signed 16-bit number.
pub proof fn lemma_le_i16(lo: u8, hi: u8)
    ensures
        le_i16(lo, hi) == lo + 256 * hi - if hi >= 128 {
            65536int
        } else {
            0int
        },
        -32768 <= le_i16(lo, hi) <= 32767,
        le_i16(lo, hi) as i16 == le_i16(lo, hi),
{
}

/// Two bytes hold the signed 16-bit number whose two's complement bytes
/// they are, and no other: decoding inverts encoding, and encoding inverts
/// decoding.
pub proof fn lemma_le_i16_bijective(value: i16, lo: u8, hi: u8)
    ensures
        le_i16(low_byte(value), high_byte(value)) == value,
        low_byte(le_i16(lo, hi) as i16) == lo,
        high_byte(le_i16(lo, hi) as i16) == hi,
{
}

/// Decodes two little-endian bytes as a signed 16-bit number.
pub fn i16_from_le_bytes(lo: u8, hi: u8) -> (v: i16)
    ensures
        v == le_i16(lo, hi),
{
    let unsigned: i32 = lo as i32 + 256 * (hi as i32);
    if unsigned < 32768 {
        unsigned as i16
    } else {
        (unsigned - 65536) as i16
    }
}

/// 3D sensor data (raw values)
#[derive(Debug, Clone, Copy, PartialEq, Eq, Structural)]
pub struct Sensor3DData {
    /// X-axis value
    pub x: i16,
    /// Y-axis value
    pub y: i16,
    /// Z-axis value
    pub z: i16,
}

impl Sensor3DData {
    /// The sample that six register bytes hold: x, y and z in this order,
    /// each little-endian.
    pub open spec fn decode(bytes: Seq<u8>) -> Sensor3DData
        recommends
            bytes.len() >= 6,
    {
        Sensor3DData {
            x: le_i16(bytes[0], bytes[1]) as i16,
            y: le_i16(bytes[2], bytes[3]) as i16,
            z: le_i16(bytes[4], bytes[5]) as i16,
        }
    }

    /// The sample in units of 1/32768 of the unit of `full_scale`.
    pub open spec fn scaled(self, full_scale: int) -> Sensor3DDataScaled {
        Sensor3DDataScaled {
            x: (self.x * full_scale) as i32,
            y: (self.y * full_scale) as i32,
            z: (self.z * full_scale) as i32,
        }
    }

    /// The six bytes that hold the sample: x, y and z in this order, each
    /// little-endian.
    pub open spec fn le_bytes(self) -> Seq<u8> {
        seq![
            low_byte(self.x),
            high_byte(self.x),
            low_byte(self.y),
            high_byte(self.y),
            low_byte(self.z),
            high_byte(self.z),
        ]
    }

    /// Each component of the sample that `bytes` hold is the signed 16-bit
    /// number of its own pair of bytes, low byte first: `lo + 256 * hi`,
    /// less 65536 where the top bit of `hi` is set. Bytes after the sixth
    /// do not count.
    pub proof fn lemma_decode(bytes: Seq<u8>)
        ensures
            Sensor3DData::decode(bytes).x == le_i16(bytes[0], bytes[1]),
            Sensor3DData::decode(bytes).y == le_i16(bytes[2], bytes[3]),
            Sensor3DData::decode(bytes).z == le_i16(bytes[4], bytes[5]),
            Sensor3DData::decode(bytes).x == bytes[0] + 256 * bytes[1] - if bytes[1] >= 128 {
                65536int
            } else {
                0int
            },
            Sensor3DData::decode(bytes).y == bytes[2] + 256 * bytes[3] - if bytes[3] >= 128 {
                65536int
            } else {
                0int
            },
            Sensor3DData::decode(bytes).z == bytes[4] + 256 * bytes[5] - if bytes[5] >= 128 {
                65536int
            } else {
                0int
            },
    {
        lemma_le_i16(bytes[0], bytes[1]);
        lemma_le_i16(bytes[2], bytes[3]);
        lemma_le_i16(bytes[4], bytes[5]);
    }

    /// Decoding inverts encoding: bytes that start with the six bytes of
    /// a sample hold that sample.
    pub proof fn lemma_decode_inverts_encode(self, rest: Seq<u8>)
        ensures
            Sensor3DData::decode(self.le_bytes() + rest) == self,
    {
        let bytes = self.le_bytes() + rest;
        lemma_le_i16_bijective(self.x, 0, 0);
        lemma_le_i16_bijective(self.y, 0, 0);
        lemma_le_i16_bijective(self.z, 0, 0);
        assert(bytes[0] == low_byte(self.x) && bytes[1] == high_byte(self.x));
        assert(bytes[2] == low_byte(self.y) && bytes[3] == high_byte(self.y));
        assert(bytes[4] == low_byte(self.z) && bytes[5] == high_byte(self.z));
    }

    /// Encoding inverts decoding: the six bytes of the sample that six
    /// bytes hold are these bytes, so that no two blocks of six bytes hold
    /// the same sample.
    pub proof fn lemma_encode_inverts_decode(bytes: Seq<u8>)
        requires
            bytes.len() == 6,
        ensures
            Sensor3DData::decode(bytes).le_bytes() == bytes,
    {
        lemma_le_i16_bijective(0, bytes[0], bytes[1]);
        lemma_le_i16_bijective(0, bytes[2], bytes[3]);
        lemma_le_i16_bijective(0, bytes[4], bytes[5]);
        assert(Sensor3DData::decode(bytes).le_bytes() =~= bytes);
    }

    /// Decodes the six data bytes of a sample.
    pub fn from_le_bytes(bytes: &[u8; 6]) -> (data: Sensor3DData)
        ensures
            data == Sensor3DData::decode(bytes@),
            data.x == le_i16(bytes@[0], bytes@[1]),
            data.y == le_i16(bytes@[2], bytes@[3]),
            data.z == le_i16(bytes@[4], bytes@[5]),
    {
        Sensor3DData {
            x: i16_from_le_bytes(bytes[0], bytes[1]),
            y: i16_from_le_bytes(bytes[2], bytes[3]),
            z: i16_from_le_bytes(bytes[4], bytes[5]),
        }
    }

    /// Scales an acceleration sample taken at a full scale of `range` g.
    pub fn to_mps2(self, range: u16) -> (scaled: Sensor3DDataScaled)
        ensures
            scaled == self.scaled(range as int),
            scaled.x == self.x * range,
            scaled.y == self.y * range,
            scaled.z == self.z * range,
    {
        self.scale(range)
    }

    /// Scales an angular rate sample taken at a full scale of `range`
    /// degrees per second.
    pub fn to_dps(self, range: u16) -> (scaled: Sensor3DDataScaled)
        ensures
            scaled == self.scaled(range as int),
            scaled.x == self.x * range,
            scaled.y == self.y * range,
            scaled.z == self.z * range,
    {
        self.scale(range)
    }

    fn scale(self, range: u16) -> (scaled: Sensor3DDataScaled)
        ensures
            scaled == self.scaled(range as int),
            scaled.x == self.x * range,
            scaled.y == self.y * range,
            scaled.z == self.z * range,
    {
        let x: i32 = scale_axis(self.x, range);
        let y: i32 = scale_axis(self.y, range);
        let z: i32 = scale_axis(self.z, range);
        Sensor3DDataScaled { x, y, z }
    }
}

/// One axis of a sample times the full scale; the product of a 16-bit and
/// an unsigned 16-bit number fits in 32 bits.
fn scale_axis(raw: i16, range: u16) -> (v: i32)
    ensures
        v == raw * range,
{
    assert(-32768 * 65535 <= raw * range <= 32767 * 65535) by (nonlinear_arith)
        requires
            -32768 <= raw <= 32767,
            0 <= range <= 65535,
    ;
    (raw as i32) * (range as i32)
}

/// A sample in physical units, as a fixed-point number: each component
/// counts 1/32768 of the unit (g for acceleration, degrees per second for
/// angular rate), so that a raw count `c` at full scale `f` is `c * f`.
#[derive(Debug, Clone, Copy, PartialEq, Eq, Structural)]
pub struct Sensor3DDataScaled {
    /// X-axis scaled value
    pub x: i32,
    /// Y-axis scaled value
    pub y: i32,
    /// Z-axis scaled value
    pub z: i32,
}

impl Sensor3DDataScaled {
    /// The number of fixed-point steps in one physical unit.
    pub const STEPS_PER_UNIT: i32 = 32768;
}

} // verus!
