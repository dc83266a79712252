[package]
name = "sensorforge_bosch_imu"
version = "0.1.0"
edition = "2021"
publish = false

[dependencies]
embedded-hal = "1.0"
