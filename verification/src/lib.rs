//! Driver core for the Bosch BMI323 and BMI160 inertial measurement units.
//!
//! The driver talks to the chip through a transport (`ReadData` + `WriteData`)
//! and a delay provider. A transport keeps a ghost record of its exchanges
//! with the chip, and the device a ghost trace of every request it made, of
//! the transport and of the delay provider, with the answer it got. The
//! contracts of the device operations describe the trace, the record of the
//! transport and the returned value as functions of the answers of the chip.

pub mod types;
pub mod registers;
pub mod config;
pub mod interface;
pub mod channel;
pub mod protocol;
pub mod device;

pub use types::{
    AccelerometerPowerMode, AccelerometerRange, AverageNum, Bandwidth, ChipVariant, Error,
    GyroscopePowerMode, GyroscopeRange, OutputDataRate, Sensor3DData, Sensor3DDataScaled,
    SensorType,
};
pub use registers::{Register, RegisterMap};
pub use config::{AccelConfig, ConfigImage, GyroConfig};
pub use interface::{
    BusEvent, Delay, Exchange, I2cBus, I2cInterface, ReadData, SpiBus, SpiInterface, Transport,
    WriteData,
};
pub use channel::{Channel, Event};
pub use protocol::ImuState;
pub use device::Imu;
