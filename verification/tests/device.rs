use std::cell::RefCell;
use std::collections::VecDeque;
use std::rc::Rc;

use sensorforge_bosch_imu::{
    AccelConfig, AccelerometerPowerMode, AccelerometerRange, AverageNum, Bandwidth, ChipVariant,
    Delay, Error, GyroConfig, GyroscopePowerMode, GyroscopeRange, I2cBus, I2cInterface, Imu,
    OutputDataRate, ReadData, Sensor3DData, Sensor3DDataScaled, SensorType, SpiBus, SpiInterface,
    WriteData,
};

/// What the driver asked of the bus and of the delay provider, in order.
#[derive(Debug, Clone, PartialEq)]
enum Op {
    Write(Option<u8>, Vec<u8>),
    WriteRead(Option<u8>, Vec<u8>, usize),
    DelayUs(u32),
    DelayMs(u32),
}

/// The fault of the scripted bus.
#[derive(Debug, Clone, Copy, PartialEq)]
struct Fault(u8);

/// A chip that answers from a script: one queue of answers for writes, one
/// for reads of a single register and one for reads of a block. When a
/// queue is empty, writes succeed, single reads return `idle` and block
/// reads return zeros.
struct Script {
    log: Vec<Op>,
    writes: VecDeque<Result<(), Fault>>,
    reads: VecDeque<Result<Vec<u8>, Fault>>,
    blocks: VecDeque<Result<Vec<u8>, Fault>>,
    idle: u8,
}

#[derive(Clone)]
struct Chip(Rc<RefCell<Script>>);

impl Chip {
    fn new() -> Chip {
        Chip(Rc::new(RefCell::new(Script {
            log: Vec::new(),
            writes: VecDeque::new(),
            reads: VecDeque::new(),
            blocks: VecDeque::new(),
            idle: 0,
        })))
    }

    fn answer_reads(&self, answers: &[u8]) {
        for answer in answers {
            self.0.borrow_mut().reads.push_back(Ok(vec![*answer]));
        }
    }

    fn answer_block(&self, bytes: &[u8]) {
        self.0.borrow_mut().blocks.push_back(Ok(bytes.to_vec()));
    }

    fn fail_block(&self, fault: Fault) {
        self.0.borrow_mut().blocks.push_back(Err(fault));
    }

    fn fail_read(&self, fault: Fault) {
        self.0.borrow_mut().reads.push_back(Err(fault));
    }

    fn answer_write(&self, answer: Result<(), Fault>) {
        self.0.borrow_mut().writes.push_back(answer);
    }

    fn idle(&self, status: u8) {
        self.0.borrow_mut().idle = status;
    }

    fn log(&self) -> Vec<Op> {
        self.0.borrow().log.clone()
    }

    fn clear_log(&self) {
        self.0.borrow_mut().log.clear();
    }

    fn reads_of(&self, register: u8) -> usize {
        self.0
            .borrow()
            .log
            .iter()
            .filter(|op| matches!(op, Op::WriteRead(_, bytes, 1) if bytes[..] == [register]))
            .count()
    }

    fn pauses_of_ms(&self, wanted: u32) -> usize {
        self.0.borrow().log.iter().filter(|op| **op == Op::DelayMs(wanted)).count()
    }

    fn write(&self, address: Option<u8>, bytes: &[u8]) -> Result<(), Fault> {
        let mut script = self.0.borrow_mut();
        script.log.push(Op::Write(address, bytes.to_vec()));
        script.writes.pop_front().unwrap_or(Ok(()))
    }

    fn write_read<const N: usize>(
        &self,
        address: Option<u8>,
        bytes: &[u8],
    ) -> Result<[u8; N], Fault> {
        let mut script = self.0.borrow_mut();
        script.log.push(Op::WriteRead(address, bytes.to_vec(), N));
        let mut block = [if N == 1 { script.idle } else { 0 }; N];
        let answer = if N == 1 { script.reads.pop_front() } else { script.blocks.pop_front() };
        match answer {
            Some(Ok(answer)) => {
                for (place, byte) in block.iter_mut().zip(answer.iter()) {
                    *place = *byte;
                }
                Ok(block)
            }
            Some(Err(fault)) => Err(fault),
            None => Ok(block),
        }
    }
}

impl I2cBus for Chip {
    type Error = Fault;

    fn write(&mut self, address: u8, bytes: &[u8]) -> Result<(), Fault> {
        Chip::write(self, Some(address), bytes)
    }

    fn write_read<const N: usize>(&mut self, address: u8, bytes: &[u8]) -> Result<[u8; N], Fault> {
        Chip::write_read::<N>(self, Some(address), bytes)
    }
}

/// The same scripted chip behind a chip-select line.
struct Selected(Chip);

impl SpiBus for Selected {
    type Error = Fault;

    fn write(&mut self, bytes: &[u8]) -> Result<(), Fault> {
        self.0.write(None, bytes)
    }

    fn write_read<const N: usize>(&mut self, bytes: &[u8]) -> Result<[u8; N], Fault> {
        self.0.write_read::<N>(None, bytes)
    }
}

impl Delay for Chip {
    fn delay_us(&mut self, us: u32) {
        self.0.borrow_mut().log.push(Op::DelayUs(us));
    }

    fn delay_ms(&mut self, ms: u32) {
        self.0.borrow_mut().log.push(Op::DelayMs(ms));
    }
}

const ADDRESS: u8 = 0x68;

fn device(variant: ChipVariant) -> (Imu<I2cInterface<Chip>, Chip>, Chip) {
    let chip = Chip::new();
    let imu = Imu::new_with_i2c(chip.clone(), ADDRESS, chip.clone(), variant);
    (imu, chip)
}

fn write(bytes: &[u8]) -> Op {
    Op::Write(Some(ADDRESS), bytes.to_vec())
}

fn read(register: u8) -> Op {
    Op::WriteRead(Some(ADDRESS), vec![register], 1)
}

fn accel_config(chip: ChipVariant, range: AccelerometerRange) -> AccelConfig {
    AccelConfig {
        odr: OutputDataRate::Odr100hz,
        range,
        bw: Bandwidth::OdrHalf,
        avg_num: AverageNum::Avg1,
        mode: match chip {
            ChipVariant::Bmi323 => AccelerometerPowerMode::HighPerf,
            ChipVariant::Bmi160 => AccelerometerPowerMode::Normal,
        },
    }
}

fn gyro_config(range: GyroscopeRange) -> GyroConfig {
    GyroConfig {
        odr: OutputDataRate::Odr200hz,
        range,
        bw: Bandwidth::OdrQuarter,
        avg_num: AverageNum::Avg1,
        mode: GyroscopePowerMode::Normal,
    }
}

#[test]
fn new_device_holds_the_default_ranges() {
    let (imu, chip) = device(ChipVariant::Bmi323);
    assert_eq!(imu.chip(), ChipVariant::Bmi323);
    assert_eq!(imu.accel_range(), AccelerometerRange::G8);
    assert_eq!(imu.gyro_range(), GyroscopeRange::DPS2000);
    assert!(chip.log().is_empty());
    let spi = Imu::new_with_spi(Selected(Chip::new()), Chip::new(), ChipVariant::Bmi160);
    assert_eq!(spi.chip(), ChipVariant::Bmi160);
    assert_eq!(spi.accel_range(), AccelerometerRange::G8);
    assert_eq!(spi.gyro_range(), GyroscopeRange::DPS2000);
}

#[test]
fn init_resets_settles_and_validates_the_bmi323() {
    let (mut imu, chip) = device(ChipVariant::Bmi323);
    chip.answer_reads(&[0x00, 0x43]);
    assert!(matches!(imu.init(), Ok(())));
    assert_eq!(
        chip.log(),
        vec![write(&[0x7E, 0xAF, 0xDE]), Op::DelayUs(2000), read(0x02), read(0x00)]
    );
}

#[test]
fn init_resets_settles_and_validates_the_bmi160() {
    let (mut imu, chip) = device(ChipVariant::Bmi160);
    chip.answer_reads(&[0x00, 0xD1]);
    assert!(matches!(imu.init(), Ok(())));
    assert_eq!(
        chip.log(),
        vec![write(&[0x7E, 0xB6]), Op::DelayUs(2000), read(0x01), read(0x00)]
    );
}

#[test]
fn init_over_the_chip_select_bus_names_no_address() {
    let chip = Chip::new();
    let mut imu = Imu::new_with_spi(Selected(chip.clone()), chip.clone(), ChipVariant::Bmi160);
    chip.answer_reads(&[0x00, 0xD1]);
    assert!(matches!(imu.init(), Ok(())));
    assert_eq!(
        chip.log(),
        vec![
            Op::Write(None, vec![0x7E, 0xB6]),
            Op::DelayUs(2000),
            Op::WriteRead(None, vec![0x01], 1),
            Op::WriteRead(None, vec![0x00], 1),
        ]
    );
}

#[test]
fn init_rejects_a_wrong_chip_id() {
    for status in [0x00u8, 0x02, 0xFE] {
        let (mut imu, chip) = device(ChipVariant::Bmi323);
        chip.answer_reads(&[status, 0x42]);
        assert!(matches!(imu.init(), Err(Error::InvalidDevice)));
        assert_eq!(chip.log().len(), 4);
    }
    let (mut imu, chip) = device(ChipVariant::Bmi160);
    chip.answer_reads(&[0x00, 0x43]);
    assert!(matches!(imu.init(), Err(Error::InvalidDevice)));
    // with a fault in the error register the result is the same
    let (mut imu, chip) = device(ChipVariant::Bmi160);
    chip.answer_reads(&[0x40, 0x43]);
    assert!(matches!(imu.init(), Err(Error::InvalidDevice)));
}

#[test]
fn init_checks_the_error_register_first() {
    let (mut imu, chip) = device(ChipVariant::Bmi323);
    chip.answer_reads(&[0x01, 0x43]);
    assert!(matches!(imu.init(), Err(Error::InvalidDevice)));
    assert_eq!(chip.log(), vec![write(&[0x7E, 0xAF, 0xDE]), Op::DelayUs(2000), read(0x02)]);

    let (mut imu, chip) = device(ChipVariant::Bmi160);
    chip.answer_reads(&[0x02, 0xD1]);
    assert!(matches!(imu.init(), Err(Error::InvalidDevice)));
    assert_eq!(chip.log(), vec![write(&[0x7E, 0xB6]), Op::DelayUs(2000), read(0x01)]);
}

#[test]
fn init_judges_the_error_register_by_chip() {
    // bits above the lowest are no fault on the BMI323
    let (mut imu, chip) = device(ChipVariant::Bmi323);
    chip.answer_reads(&[0xFE, 0x43]);
    assert!(matches!(imu.init(), Ok(())));
    // any bit is a fault on the BMI160
    let (mut imu, chip) = device(ChipVariant::Bmi160);
    chip.answer_reads(&[0x80, 0xD1]);
    assert!(matches!(imu.init(), Err(Error::InvalidDevice)));
}

#[test]
fn init_hands_a_bus_fault_on_and_stops() {
    let (mut imu, chip) = device(ChipVariant::Bmi323);
    chip.answer_write(Err(Fault(7)));
    assert!(matches!(imu.init(), Err(Error::Comm(Fault(7)))));
    assert_eq!(chip.log(), vec![write(&[0x7E, 0xAF, 0xDE])]);

    let (mut imu, chip) = device(ChipVariant::Bmi323);
    chip.fail_read(Fault(8));
    assert!(matches!(imu.init(), Err(Error::Comm(Fault(8)))));
    assert_eq!(chip.log().len(), 3);

    let (mut imu, chip) = device(ChipVariant::Bmi323);
    chip.answer_reads(&[0x00]);
    chip.fail_read(Fault(9));
    assert!(matches!(imu.init(), Err(Error::Comm(Fault(9)))));
    assert_eq!(chip.log().len(), 4);
}

#[test]
fn poll_succeeds_at_once_when_the_sample_is_ready() {
    let (mut imu, chip) = device(ChipVariant::Bmi323);
    chip.answer_reads(&[0x80]);
    assert!(matches!(imu.wait_for_data_ready(SensorType::Accelerometer), Ok(())));
    assert_eq!(chip.log(), vec![read(0x02)]);
}

#[test]
fn poll_stops_at_the_first_read_that_shows_the_ready_bit() {
    for k in [2usize, 3, 50, 99, 100] {
        let (mut imu, chip) = device(ChipVariant::Bmi160);
        chip.answer_reads(&vec![0x80; k - 1]);
        chip.answer_reads(&[0x40]);
        chip.idle(0x40);
        assert!(matches!(imu.wait_for_data_ready(SensorType::Gyroscope), Ok(())));
        assert_eq!(chip.reads_of(0x1B), k);
        assert_eq!(chip.pauses_of_ms(1), k - 1);
        assert_eq!(chip.log().len(), 2 * k - 1);
        assert_eq!(chip.log()[0], read(0x1B));
        assert_eq!(chip.log()[1], Op::DelayMs(1));
        assert_eq!(chip.log()[2 * k - 2], read(0x1B));
    }
}

#[test]
fn poll_times_out_after_exactly_one_hundred_reads() {
    let (mut imu, chip) = device(ChipVariant::Bmi323);
    chip.idle(0x40);
    assert!(matches!(imu.wait_for_data_ready(SensorType::Accelerometer), Err(Error::Timeout)));
    assert_eq!(chip.reads_of(0x02), 100);
    assert_eq!(chip.pauses_of_ms(1), 99);
    assert_eq!(chip.log().len(), 199);
}

#[test]
fn poll_does_not_see_a_ready_bit_that_comes_too_late() {
    let (mut imu, chip) = device(ChipVariant::Bmi323);
    chip.answer_reads(&[0x00; 100]);
    chip.idle(0x80);
    assert!(matches!(imu.wait_for_data_ready(SensorType::Accelerometer), Err(Error::Timeout)));
    assert_eq!(chip.reads_of(0x02), 100);
}

#[test]
fn poll_hands_a_bus_fault_on() {
    let (mut imu, chip) = device(ChipVariant::Bmi323);
    chip.answer_reads(&[0x00, 0x00]);
    chip.fail_read(Fault(3));
    chip.idle(0x80);
    assert!(matches!(
        imu.wait_for_data_ready(SensorType::Accelerometer),
        Err(Error::Comm(Fault(3)))
    ));
    assert_eq!(chip.reads_of(0x02), 3);
    assert_eq!(chip.pauses_of_ms(1), 2);
}

#[test]
fn accel_config_is_one_write_on_the_bmi323() {
    let (mut imu, chip) = device(ChipVariant::Bmi323);
    chip.idle(0x80);
    let config = accel_config(ChipVariant::Bmi323, AccelerometerRange::G2);
    assert!(matches!(imu.set_accel_config(config), Ok(())));
    assert_eq!(imu.accel_range(), AccelerometerRange::G2);
    assert_eq!(imu.gyro_range(), GyroscopeRange::DPS2000);
    assert_eq!(chip.log(), vec![write(&[0x20, 0x08, 0x70]), read(0x02)]);
}

#[test]
fn accel_config_is_three_writes_and_a_pause_on_the_bmi160() {
    let (mut imu, chip) = device(ChipVariant::Bmi160);
    chip.idle(0x80);
    let config = accel_config(ChipVariant::Bmi160, AccelerometerRange::G16);
    assert!(matches!(imu.set_accel_config(config), Ok(())));
    assert_eq!(imu.accel_range(), AccelerometerRange::G16);
    assert_eq!(
        chip.log(),
        vec![
            write(&[0x40, 0x08]),
            write(&[0x41, 0x0C]),
            write(&[0x7E, 0x11]),
            Op::DelayMs(5),
            read(0x1B),
        ]
    );
}

#[test]
fn gyro_config_on_both_chips() {
    let (mut imu, chip) = device(ChipVariant::Bmi323);
    chip.idle(0x40);
    assert!(matches!(imu.set_gyro_config(gyro_config(GyroscopeRange::DPS250)), Ok(())));
    assert_eq!(imu.gyro_range(), GyroscopeRange::DPS250);
    assert_eq!(imu.accel_range(), AccelerometerRange::G8);
    assert_eq!(chip.log(), vec![write(&[0x21, 0x99, 0x40]), read(0x02)]);

    let (mut imu, chip) = device(ChipVariant::Bmi160);
    chip.answer_reads(&[0x80, 0x40]);
    assert!(matches!(imu.set_gyro_config(gyro_config(GyroscopeRange::DPS250)), Ok(())));
    assert_eq!(imu.gyro_range(), GyroscopeRange::DPS250);
    assert_eq!(
        chip.log(),
        vec![
            write(&[0x42, 0x19]),
            write(&[0x43, 0x03]),
            write(&[0x7E, 0x15]),
            Op::DelayMs(5),
            read(0x1B),
            Op::DelayMs(1),
            read(0x1B),
        ]
    );
}

#[test]
fn config_that_the_chip_cannot_express_is_refused_before_any_write() {
    let (mut imu, chip) = device(ChipVariant::Bmi323);
    let config = accel_config(ChipVariant::Bmi160, AccelerometerRange::G2);
    let suspended = AccelConfig { mode: AccelerometerPowerMode::Suspend, ..config };
    assert!(matches!(imu.set_accel_config(suspended), Err(Error::InvalidConfig)));
    assert_eq!(imu.accel_range(), AccelerometerRange::G8);
    assert!(chip.log().is_empty());

    let (mut imu, chip) = device(ChipVariant::Bmi160);
    let slow = GyroConfig { odr: OutputDataRate::Odr6_25hz, ..gyro_config(GyroscopeRange::DPS125) };
    assert!(matches!(imu.set_gyro_config(slow), Err(Error::InvalidConfig)));
    assert_eq!(imu.gyro_range(), GyroscopeRange::DPS2000);
    assert!(chip.log().is_empty());
}

#[test]
fn config_timeout_leaves_the_new_range_in_place() {
    let (mut imu, chip) = device(ChipVariant::Bmi323);
    chip.idle(0x00);
    let config = accel_config(ChipVariant::Bmi323, AccelerometerRange::G4);
    assert!(matches!(imu.set_accel_config(config), Err(Error::Timeout)));
    assert_eq!(imu.accel_range(), AccelerometerRange::G4);
    assert_eq!(chip.reads_of(0x02), 100);
}

#[test]
fn failed_config_write_leaves_the_old_range() {
    let (mut imu, chip) = device(ChipVariant::Bmi323);
    chip.answer_write(Err(Fault(1)));
    let config = accel_config(ChipVariant::Bmi323, AccelerometerRange::G4);
    assert!(matches!(imu.set_accel_config(config), Err(Error::Comm(Fault(1)))));
    assert_eq!(imu.accel_range(), AccelerometerRange::G8);
    assert_eq!(chip.log().len(), 1);

    // the second of the two register writes of the BMI160 fails: nothing is undone
    let (mut imu, chip) = device(ChipVariant::Bmi160);
    chip.answer_write(Ok(()));
    chip.answer_write(Err(Fault(2)));
    let config = accel_config(ChipVariant::Bmi160, AccelerometerRange::G4);
    assert!(matches!(imu.set_accel_config(config), Err(Error::Comm(Fault(2)))));
    assert_eq!(imu.accel_range(), AccelerometerRange::G8);
    assert_eq!(chip.log(), vec![write(&[0x40, 0x08]), write(&[0x41, 0x05])]);
}

#[test]
fn failed_power_mode_command_comes_after_the_range_is_stored() {
    let (mut imu, chip) = device(ChipVariant::Bmi160);
    chip.answer_write(Ok(()));
    chip.answer_write(Ok(()));
    chip.answer_write(Err(Fault(5)));
    let config = gyro_config(GyroscopeRange::DPS500);
    assert!(matches!(imu.set_gyro_config(config), Err(Error::Comm(Fault(5)))));
    assert_eq!(imu.gyro_range(), GyroscopeRange::DPS500);
    assert_eq!(
        chip.log(),
        vec![write(&[0x42, 0x19]), write(&[0x43, 0x02]), write(&[0x7E, 0x15])]
    );
}

#[test]
fn raw_reads_wait_for_the_sample_then_fetch_and_decode_a_block() {
    let (mut imu, chip) = device(ChipVariant::Bmi323);
    chip.answer_reads(&[0x80, 0x00, 0x80, 0x40]);
    chip.answer_block(&[0x01, 0x02, 0x03, 0x04, 0x05, 0x06, 0xAA, 0xBB]);
    let accel = imu.read_accel_data();
    assert!(matches!(accel, Ok(Sensor3DData { x: 0x0201, y: 0x0403, z: 0x0605 })));
    chip.answer_block(&[0x0B, 0x86, 0x0B, 0x86, 0x0B, 0x86]);
    let gyro = imu.read_gyro_data();
    assert!(matches!(gyro, Ok(Sensor3DData { x: -31221, y: -31221, z: -31221 })));
    assert_eq!(
        chip.log(),
        vec![
            read(0x02),
            Op::WriteRead(Some(ADDRESS), vec![0x03], 20),
            read(0x02),
            Op::DelayMs(1),
            read(0x02),
            Op::DelayMs(1),
            read(0x02),
            Op::WriteRead(Some(ADDRESS), vec![0x06], 14),
        ]
    );

    let (mut imu, chip) = device(ChipVariant::Bmi160);
    chip.idle(0xC0);
    assert!(matches!(imu.read_accel_data(), Ok(Sensor3DData { x: 0, y: 0, z: 0 })));
    assert!(matches!(imu.read_gyro_data(), Ok(Sensor3DData { x: 0, y: 0, z: 0 })));
    assert_eq!(
        chip.log(),
        vec![
            read(0x1B),
            Op::WriteRead(Some(ADDRESS), vec![0x12], 20),
            read(0x1B),
            Op::WriteRead(Some(ADDRESS), vec![0x0C], 14),
        ]
    );
}

#[test]
fn raw_read_times_out_without_reading_the_block() {
    let (mut imu, chip) = device(ChipVariant::Bmi160);
    chip.idle(0x80);
    assert!(matches!(imu.read_gyro_data(), Err(Error::Timeout)));
    assert_eq!(chip.reads_of(0x1B), 100);
    assert_eq!(chip.pauses_of_ms(1), 99);
    assert_eq!(chip.log().len(), 199);
    chip.clear_log();
    assert!(matches!(imu.read_accel_data_scaled(), Ok(_)));
    assert_eq!(chip.log().len(), 2);
}

#[test]
fn raw_read_hands_a_bus_fault_on() {
    let (mut imu, chip) = device(ChipVariant::Bmi323);
    chip.idle(0xC0);
    chip.fail_block(Fault(4));
    assert!(matches!(imu.read_accel_data(), Err(Error::Comm(Fault(4)))));
    chip.fail_block(Fault(6));
    assert!(matches!(imu.read_gyro_data_scaled(), Err(Error::Comm(Fault(6)))));
    assert_eq!(chip.log().len(), 4);
    chip.clear_log();
    chip.fail_read(Fault(7));
    assert!(matches!(imu.read_gyro_data(), Err(Error::Comm(Fault(7)))));
    assert_eq!(chip.log(), vec![read(0x02)]);
}

#[test]
fn scaled_reads_use_the_default_ranges_before_any_configuration() {
    let (mut imu, chip) = device(ChipVariant::Bmi323);
    chip.idle(0xC0);
    chip.answer_block(&[0x00, 0x10, 0x00, 0xF0, 0x01, 0x00]);
    let accel = imu.read_accel_data_scaled();
    assert!(matches!(accel, Ok(Sensor3DDataScaled { x: 32768, y: -32768, z: 8 })));
    chip.answer_block(&[0x00, 0x10, 0x00, 0xF0, 0x01, 0x00]);
    let gyro = imu.read_gyro_data_scaled();
    assert!(matches!(gyro, Ok(Sensor3DDataScaled { x: 8_192_000, y: -8_192_000, z: 2000 })));
}

#[test]
fn scaled_read_uses_the_range_of_the_last_configuration() {
    let (mut imu, chip) = device(ChipVariant::Bmi323);
    chip.idle(0xC0);
    let sample = [0xFF, 0x7F, 0x00, 0x80, 0x00, 0x40];
    for (range, full_scale) in [
        (AccelerometerRange::G2, 2),
        (AccelerometerRange::G16, 16),
        (AccelerometerRange::G4, 4),
        (AccelerometerRange::G8, 8),
    ] {
        let config = accel_config(ChipVariant::Bmi323, range);
        assert!(matches!(imu.set_accel_config(config), Ok(())));
        assert_eq!(imu.accel_range(), range);
        chip.answer_block(&sample);
        let scaled = match imu.read_accel_data_scaled() {
            Ok(scaled) => scaled,
            Err(_) => panic!("the read failed"),
        };
        assert_eq!(
            scaled,
            Sensor3DDataScaled {
                x: 32767 * full_scale,
                y: -32768 * full_scale,
                z: 16384 * full_scale,
            }
        );
        let x = scaled.x as f32 / 32768.0;
        assert!((x - full_scale as f32).abs() < 1e-3);
    }
}

#[test]
fn gyro_configuration_does_not_touch_the_accelerometer_range() {
    let (mut imu, chip) = device(ChipVariant::Bmi160);
    chip.idle(0xC0);
    let config = accel_config(ChipVariant::Bmi160, AccelerometerRange::G2);
    assert!(matches!(imu.set_accel_config(config), Ok(())));
    assert!(matches!(imu.set_gyro_config(gyro_config(GyroscopeRange::DPS125)), Ok(())));
    assert_eq!(imu.accel_range(), AccelerometerRange::G2);
    assert_eq!(imu.gyro_range(), GyroscopeRange::DPS125);
    chip.clear_log();
    chip.answer_block(&[0x00, 0x01, 0x00, 0x00, 0x00, 0x00]);
    let gyro = imu.read_gyro_data_scaled();
    assert!(matches!(gyro, Ok(Sensor3DDataScaled { x: 32000, y: 0, z: 0 })));
    chip.answer_block(&[0x00, 0x01, 0x00, 0x00, 0x00, 0x00]);
    let accel = imu.read_accel_data_scaled();
    assert!(matches!(accel, Ok(Sensor3DDataScaled { x: 512, y: 0, z: 0 })));
    assert_eq!(chip.log().len(), 4);
}

#[test]
fn adapter_frames_every_transaction_with_the_chip_address() {
    let chip = Chip::new();
    let mut iface = I2cInterface::new(chip.clone(), 0x69);
    assert!(matches!(iface.write_data(&[0x7E, 0xB6]), Ok(())));
    chip.answer_reads(&[0x5A]);
    assert!(matches!(iface.read_register(0x1B), Ok(0x5A)));
    chip.answer_block(&[1, 2, 3]);
    assert!(matches!(iface.read_data::<3>(0x12), Ok([1, 2, 3])));
    assert_eq!(
        chip.log(),
        vec![
            Op::Write(Some(0x69), vec![0x7E, 0xB6]),
            Op::WriteRead(Some(0x69), vec![0x1B], 1),
            Op::WriteRead(Some(0x69), vec![0x12], 3),
        ]
    );
}

#[test]
fn adapters_wrap_a_bus_fault_in_a_communication_error() {
    let chip = Chip::new();
    let mut i2c = I2cInterface::new(chip.clone(), 0x68);
    chip.answer_write(Err(Fault(1)));
    assert!(matches!(i2c.write_data(&[0x7E, 0xB6]), Err(Error::Comm(Fault(1)))));
    chip.fail_read(Fault(2));
    assert!(matches!(i2c.read_register(0x00), Err(Error::Comm(Fault(2)))));
    chip.fail_block(Fault(3));
    assert!(matches!(i2c.read_data::<20>(0x03), Err(Error::Comm(Fault(3)))));

    let mut spi = SpiInterface::new(Selected(chip.clone()));
    chip.answer_write(Err(Fault(4)));
    assert!(matches!(spi.write_data(&[0x7E, 0xB6]), Err(Error::Comm(Fault(4)))));
    chip.fail_read(Fault(5));
    assert!(matches!(spi.read_register(0x00), Err(Error::Comm(Fault(5)))));
    chip.fail_block(Fault(6));
    assert!(matches!(spi.read_data::<14>(0x06), Err(Error::Comm(Fault(6)))));
    chip.answer_block(&[9, 8]);
    assert!(matches!(spi.read_data::<2>(0x06), Ok([9, 8])));
}
