//! The device: initialization, configuration and reading of samples.

use vstd::prelude::*;
use crate::config::{AccelConfig, ConfigImage, GyroConfig};
use crate::interface::{
    bytes_of, framed, wrapped, BusEvent, Delay, Exchange, I2cBus, I2cInterface, ReadData, SpiBus,
    SpiInterface, Transport, WriteData,
};
use crate::channel::{exchanges_of, Channel, Event};
use crate::protocol::{
    accel_configured, byte_frame, config_run, configured, full_scale_of, gyro_configured,
    init_run, initialized, lemma_extended_logged, lemma_extended_none, lemma_extended_twice,
    not_ready, poll_complete, poll_run, polled, ready_flag, reset_frame, retry_events,
    sample_read, sample_run, scale_result, scaled_sample_read, word_frame, ImuState, MAX_POLLS,
    MODE_SETTLE_MS, POLL_INTERVAL_MS, RESET_SETTLE_US,
};
use crate::registers::{has_data_ready, has_error_flag, Register, RegisterMap};
use crate::types::{
    AccelerometerRange, ChipVariant, Error, GyroscopeRange, Sensor3DData, Sensor3DDataScaled,
    SensorType,
};

verus! {

/// A BMI323 or BMI160 behind a transport `DI`, with the delay provider `D`.
pub struct Imu<DI: Transport, D> {
    channel: Channel<DI, D>,
    chip: ChipVariant,
    accel_range: AccelerometerRange,
    gyro_range: GyroscopeRange,
}

impl<DI: Transport, D> Imu<DI, D> {
    /// The chip, the stored ranges and the trace of the device, and the
    /// framing and the exchanges of its transport.
    pub closed spec fn view(&self) -> ImuState<DI::Error> {
        ImuState {
            chip: self.chip,
            accel_range: self.accel_range,
            gyro_range: self.gyro_range,
            trace: self.channel.trace(),
            framing: self.channel.transport().framing(),
            exchanges: self.channel.transport().exchanges(),
        }
    }

    /// The transport of the device.
    pub closed spec fn transport(&self) -> DI {
        self.channel.transport()
    }

    /// The delay provider of the device.
    pub closed spec fn delay_provider(&self) -> D {
        self.channel.delay_provider()
    }

    /// The view of a device shows the framing and the exchanges of its
    /// transport.
    pub proof fn lemma_view_of_transport(&self)
        ensures
            self@.framing == self.transport().framing(),
            self@.exchanges == self.transport().exchanges(),
    {
    }

    /// The chip variant that the device drives.
    pub fn chip(&self) -> (chip: ChipVariant)
        ensures
            chip == self@.chip,
    {
        self.chip
    }

    /// The range that accelerometer samples are scaled with.
    pub fn accel_range(&self) -> (range: AccelerometerRange)
        ensures
            range == self@.accel_range,
    {
        self.accel_range
    }

    /// The range that gyroscope samples are scaled with.
    pub fn gyro_range(&self) -> (range: GyroscopeRange)
        ensures
            range == self@.gyro_range,
    {
        self.gyro_range
    }
}

impl<I2C: I2cBus, D> Imu<I2cInterface<I2C>, D> {
    /// Creates a device for the chip `chip` at `address` on the two-wire
    /// bus `i2c`.
    pub fn new_with_i2c(i2c: I2C, address: u8, delay: D, chip: ChipVariant) -> (imu: Self)
        ensures
            imu@ == ImuState::<Error<I2C::Error>>::initial(chip, Some(address)),
            imu.transport().bus() == i2c,
            imu.transport().address() == address,
            imu.transport().log() == Seq::<BusEvent<I2C::Error>>::empty(),
            imu.delay_provider() == delay,
    {
        Imu {
            channel: Channel::new(I2cInterface::new(i2c, address), delay),
            chip,
            accel_range: AccelerometerRange::default(),
            gyro_range: GyroscopeRange::default(),
        }
    }
}

impl<I2C: I2cBus, D> Imu<I2cInterface<I2C>, D> {
    /// A device on a two-wire bus keeps the address it was made with:
    /// where the framing of `after` is that of `before`, as every operation
    /// of a device leaves it, so is the address.
    pub proof fn lemma_address_kept(before: Self, after: Self)
        requires
            after@.framing == before@.framing,
        ensures
            after.transport().address() == before.transport().address(),
    {
    }

    /// Every exchange of a device on a two-wire bus is one transaction on
    /// the bus, framed with the address of the chip: where `after` is
    /// `before` after `events`, as the operations of a device state it, the
    /// bus log of `after` is that of `before` and then the transactions that
    /// make the exchanges among `events`, in their order, each with the
    /// address of `before`.
    pub proof fn lemma_i2c_bus_log(
        before: Self,
        after: Self,
        events: Seq<Event<Error<I2C::Error>>>,
    )
        requires
            after@.framing == before@.framing,
            after@.exchanges == before@.exchanges + exchanges_of(events),
        ensures
            after.transport().address() == before.transport().address(),
            exists|made: Seq<Exchange<I2C::Error>>|
                {
                    &&& exchanges_of(events) == #[trigger] wrapped(made)
                    &&& after.transport().log() == before.transport().log() + framed(
                        Some(before.transport().address()),
                        made,
                    )
                },
    {
        I2cInterface::lemma_log_follows_exchanges(
            before.transport(),
            after.transport(),
            exchanges_of(events),
        );
    }
}

impl<SPI: SpiBus, D> Imu<SpiInterface<SPI>, D> {
    /// Every exchange of a device on a chip-select bus is one transaction
    /// on the bus, with no address: where `after` is `before` after
    /// `events`, the bus log of `after` is that of `before` and then the
    /// transactions that make the exchanges among `events`, in their order.
    pub proof fn lemma_spi_bus_log(
        before: Self,
        after: Self,
        events: Seq<Event<Error<SPI::Error>>>,
    )
        requires
            after@.exchanges == before@.exchanges + exchanges_of(events),
        ensures
            exists|made: Seq<Exchange<SPI::Error>>|
                {
                    &&& exchanges_of(events) == #[trigger] wrapped(made)
                    &&& after.transport().log() == before.transport().log() + framed(None, made)
                },
    {
        SpiInterface::lemma_log_follows_exchanges(
            before.transport(),
            after.transport(),
            exchanges_of(events),
        );
    }


    /// Creates a device for the chip `chip` that the chip-select bus `spi`
    /// selects.
    pub fn new_with_spi(spi: SPI, delay: D, chip: ChipVariant) -> (imu: Self)
        ensures
            imu@ == ImuState::<Error<SPI::Error>>::initial(chip, None),
            imu.transport().bus() == spi,
            imu.transport().log() == Seq::<BusEvent<SPI::Error>>::empty(),
            imu.delay_provider() == delay,
    {
        Imu {
            channel: Channel::new(SpiInterface::new(spi), delay),
            chip,
            accel_range: AccelerometerRange::default(),
            gyro_range: GyroscopeRange::default(),
        }
    }
}

impl<DI, D, E> Imu<DI, D> where
    DI: ReadData<Error = Error<E>> + WriteData<Error = Error<E>>,
    D: Delay,
 {
    /// Initialize the device: soft reset, a pause of 2000 microseconds, then
    /// a check of the error register and of the chip id.
    pub fn init(&mut self) -> (r: Result<(), Error<E>>)
        ensures
            initialized(old(self)@, final(self)@, r),
            final(self).transport().framing() == old(self).transport().framing(),
    {
        let ghost before = self@;
        let ghost unasked: Result<u8, Error<E>> = Ok(0u8);
        let ghost mut done: Seq<Event<Error<E>>> = Seq::empty();
        proof {
            lemma_extended_none(before);
        }
        let map: RegisterMap = Register::for_chip(self.chip);
        let reset = match self.chip {
            ChipVariant::Bmi323 => self.write_register_16bit(
                Register::CMD,
                Register::BMI323_CMD_SOFT_RESET,
            ),
            ChipVariant::Bmi160 => self.write_register(
                Register::CMD,
                Register::BMI160_CMD_SOFT_RESET,
            ),
        };
        proof {
            let event = Event::Write { payload: reset_frame(before.chip), result: reset };
            lemma_extended_logged(before, done, event);
            done = done.push(event);
        }
        if let Err(fault) = reset {
            assert(done =~= init_run(before.chip, reset, unasked, unasked).events);
            return Err(fault);
        }
        self.pause_us(RESET_SETTLE_US);
        proof {
            let event = Event::DelayUs { us: RESET_SETTLE_US };
            lemma_extended_logged(before, done, event);
            done = done.push(event);
        }
        let status = self.read_register(map.err_reg);
        proof {
            let event = Event::ReadRegister { register: map.err_reg, result: status };
            lemma_extended_logged(before, done, event);
            done = done.push(event);
        }
        let flags: u8 = match status {
            Ok(flags) => flags,
            Err(fault) => {
                assert(done =~= init_run(before.chip, reset, status, unasked).events);
                return Err(fault);
            },
        };
        if has_error_flag(self.chip, flags) {
            assert(done =~= init_run(before.chip, reset, status, unasked).events);
            return Err(Error::InvalidDevice);
        }
        let id = self.read_register(Register::CHIPID);
        proof {
            let event = Event::ReadRegister { register: Register::CHIPID, result: id };
            lemma_extended_logged(before, done, event);
            done = done.push(event);
            assert(done =~= init_run(before.chip, reset, status, id).events);
        }
        match id {
            Err(fault) => Err(fault),
            Ok(value) => if value == map.chip_id {
                Ok(())
            } else {
                Err(Error::InvalidDevice)
            },
        }
    }

    /// Set the accelerometer configuration: write it to the chip, store
    /// its range, and wait for the first sample. A configuration that the
    /// chip cannot express is refused before anything is written.
    pub fn set_accel_config(&mut self, config: AccelConfig) -> (r: Result<(), Error<E>>)
        ensures
            accel_configured(old(self)@, config, final(self)@, r),
            final(self).transport().framing() == old(self).transport().framing(),
    {
        match config.encode(self.chip) {
            Some(image) => self.configure(
                SensorType::Accelerometer,
                image,
                config.range,
                self.gyro_range,
            ),
            None => Err(Error::InvalidConfig),
        }
    }

    /// Set the gyroscope configuration: write it to the chip, store its
    /// range, and wait for the first sample. A configuration that the chip
    /// cannot express is refused before anything is written.
    pub fn set_gyro_config(&mut self, config: GyroConfig) -> (r: Result<(), Error<E>>)
        ensures
            gyro_configured(old(self)@, config, final(self)@, r),
            final(self).transport().framing() == old(self).transport().framing(),
    {
        match config.encode(self.chip) {
            Some(image) => self.configure(
                SensorType::Gyroscope,
                image,
                self.accel_range,
                config.range,
            ),
            None => Err(Error::InvalidConfig),
        }
    }

    /// Writes the configuration `image` of `sensor` to the chip, stores
    /// the two ranges once the configuration registers are written, and
    /// waits for the first sample.
    fn configure(
        &mut self,
        sensor: SensorType,
        image: ConfigImage,
        accel_range: AccelerometerRange,
        gyro_range: GyroscopeRange,
    ) -> (r: Result<(), Error<E>>)
        ensures
            configured(old(self)@, sensor, image, accel_range, gyro_range, final(self)@, r),
    {
        let ghost before = self@;
        let ghost idle: Result<(), Error<E>> = Ok(());
        let ghost unasked: Seq<Result<u8, Error<E>>> = seq![Err(Error::Timeout)];
        let ghost mut done: Seq<Event<Error<E>>> = Seq::empty();
        proof {
            lemma_extended_none(before);
        }
        let config_write = match image {
            ConfigImage::Word(word) => {
                let register: u8 = match sensor {
                    SensorType::Accelerometer => Register::ACC_CONF,
                    SensorType::Gyroscope => Register::GYR_CONF,
                };
                let written = self.write_register_16bit(register, word);
                proof {
                    let event = Event::Write {
                        payload: word_frame(register, word),
                        result: written,
                    };
                    lemma_extended_logged(before, done, event);
                    done = done.push(event);
                }
                written
            },
            ConfigImage::Split { config, .. } => {
                let register: u8 = match sensor {
                    SensorType::Accelerometer => Register::BMI160_ACCEL_CONFIG_ADDR,
                    SensorType::Gyroscope => Register::BMI160_GYRO_CONFIG_ADDR,
                };
                let written = self.write_register(register, config);
                proof {
                    let event = Event::Write {
                        payload: byte_frame(register, config),
                        result: written,
                    };
                    lemma_extended_logged(before, done, event);
                    done = done.push(event);
                }
                written
            },
        };
        if let Err(fault) = config_write {
            assert(done =~= config_run(
                before.chip,
                sensor,
                image,
                config_write,
                idle,
                idle,
                unasked,
            ).events);
            return Err(fault);
        }
        let ghost mut range_write = idle;
        let ghost mut mode_write = idle;
        if let ConfigImage::Split { range, mode, .. } = image {
            let register: u8 = match sensor {
                SensorType::Accelerometer => Register::BMI160_ACCEL_RANGE_ADDR,
                SensorType::Gyroscope => Register::BMI160_GYRO_RANGE_ADDR,
            };
            let range_written = self.write_register(register, range);
            proof {
                let event = Event::Write {
                    payload: byte_frame(register, range),
                    result: range_written,
                };
                lemma_extended_logged(before, done, event);
                done = done.push(event);
            }
            if let Err(fault) = range_written {
                assert(done =~= config_run(
                    before.chip,
                    sensor,
                    image,
                    config_write,
                    range_written,
                    idle,
                    unasked,
                ).events);
                return Err(fault);
            }
            let mode_written = self.write_register(Register::CMD, mode);
            proof {
                let event = Event::Write {
                    payload: byte_frame(Register::CMD, mode),
                    result: mode_written,
                };
                lemma_extended_logged(before, done, event);
                done = done.push(event);
                range_write = range_written;
                mode_write = mode_written;
            }
            self.accel_range = accel_range;
            self.gyro_range = gyro_range;
            if let Err(fault) = mode_written {
                assert(done =~= config_run(
                    before.chip,
                    sensor,
                    image,
                    config_write,
                    range_written,
                    mode_written,
                    unasked,
                ).events);
                return Err(fault);
            }
            self.pause_ms(MODE_SETTLE_MS);
            proof {
                let event = Event::DelayMs { ms: MODE_SETTLE_MS };
                let stored = ImuState { accel_range, gyro_range, ..before };
                lemma_extended_logged(stored, done, event);
                done = done.push(event);
            }
        } else {
            self.accel_range = accel_range;
            self.gyro_range = gyro_range;
        }
        let ghost stored = ImuState { accel_range, gyro_range, ..before };
        assert(self@ == stored.extended(done));
        let r = self.wait_for_data_ready(sensor);
        proof {
            let answers = choose|answers: Seq<Result<u8, Error<E>>>|
                {
                    let poll = #[trigger] poll_run(before.chip, sensor, answers);
                    &&& poll_complete(sensor, answers)
                    &&& self@ == stored.extended(done).extended(poll.events)
                    &&& r == poll.result
                };
            let poll = poll_run(before.chip, sensor, answers);
            let run = config_run(
                before.chip,
                sensor,
                image,
                config_write,
                range_write,
                mode_write,
                answers,
            );
            lemma_extended_twice(stored, done, poll.events);
            assert(done + poll.events =~= run.events);
        }
        r
    }

    /// Read the raw sample of the accelerometer.
    pub fn read_accel_data(&mut self) -> (r: Result<Sensor3DData, Error<E>>)
        ensures
            sample_read(old(self)@, SensorType::Accelerometer, final(self)@, r),
            final(self).transport().framing() == old(self).transport().framing(),
    {
        self.read_sensor_data(SensorType::Accelerometer)
    }

    /// Read the raw sample of the gyroscope.
    pub fn read_gyro_data(&mut self) -> (r: Result<Sensor3DData, Error<E>>)
        ensures
            sample_read(old(self)@, SensorType::Gyroscope, final(self)@, r),
            final(self).transport().framing() == old(self).transport().framing(),
    {
        self.read_sensor_data(SensorType::Gyroscope)
    }

    /// Read the sample of the accelerometer and scale it to g with the
    /// stored accelerometer range.
    pub fn read_accel_data_scaled(&mut self) -> (r: Result<Sensor3DDataScaled, Error<E>>)
        ensures
            scaled_sample_read(old(self)@, SensorType::Accelerometer, final(self)@, r),
            final(self).transport().framing() == old(self).transport().framing(),
    {
        let raw = self.read_accel_data();
        let r = match raw {
            Ok(sample) => Ok(sample.to_mps2(self.accel_range.to_g())),
            Err(fault) => Err(fault),
        };
        assert(r == scale_result(raw, full_scale_of(old(self)@, SensorType::Accelerometer)));
        r
    }

    /// Read the sample of the gyroscope and scale it to degrees per second
    /// with the stored gyroscope range.
    pub fn read_gyro_data_scaled(&mut self) -> (r: Result<Sensor3DDataScaled, Error<E>>)
        ensures
            scaled_sample_read(old(self)@, SensorType::Gyroscope, final(self)@, r),
            final(self).transport().framing() == old(self).transport().framing(),
    {
        let raw = self.read_gyro_data();
        let r = match raw {
            Ok(sample) => Ok(sample.to_dps(self.gyro_range.to_dps())),
            Err(fault) => Err(fault),
        };
        assert(r == scale_result(raw, full_scale_of(old(self)@, SensorType::Gyroscope)));
        r
    }

    /// Waits for a sample of `sensor_type`, reads the block that holds it
    /// and decodes its first six bytes.
    pub fn read_sensor_data(&mut self, sensor_type: SensorType) -> (r: Result<
        Sensor3DData,
        Error<E>,
    >)
        ensures
            sample_read(old(self)@, sensor_type, final(self)@, r),
            final(self).transport().framing() == old(self).transport().framing(),
    {
        let ghost before = self@;
        let ghost unread: Result<Seq<u8>, Error<E>> = Err(Error::Timeout);
        let ready = self.wait_for_data_ready(sensor_type);
        let ghost answers = choose|answers: Seq<Result<u8, Error<E>>>|
            {
                let poll = #[trigger] poll_run(before.chip, sensor_type, answers);
                &&& poll_complete(sensor_type, answers)
                &&& self@ == before.extended(poll.events)
                &&& ready == poll.result
            };
        let ghost poll = poll_run(before.chip, sensor_type, answers);
        if let Err(fault) = ready {
            assert(poll.events == sample_run(before.chip, sensor_type, answers, unread).events);
            return Err(fault);
        }
        let map: RegisterMap = Register::for_chip(self.chip);
        match sensor_type {
            SensorType::Accelerometer => {
                let block = self.read_data::<20>(map.acc_data_x);
                let r = match block {
                    Ok(data) => Ok(decode_block(&data)),
                    Err(fault) => Err(fault),
                };
                proof {
                    let run = sample_run(before.chip, sensor_type, answers, bytes_of(block));
                    lemma_extended_logged(
                        before,
                        poll.events,
                        Event::ReadData {
                            register: map.acc_data_x,
                            len: 20,
                            result: bytes_of(block),
                        },
                    );
                    assert(r == run.result);
                }
                r
            },
            SensorType::Gyroscope => {
                let block = self.read_data::<14>(map.gyr_data_x);
                let r = match block {
                    Ok(data) => Ok(decode_block(&data)),
                    Err(fault) => Err(fault),
                };
                proof {
                    let run = sample_run(before.chip, sensor_type, answers, bytes_of(block));
                    lemma_extended_logged(
                        before,
                        poll.events,
                        Event::ReadData {
                            register: map.gyr_data_x,
                            len: 14,
                            result: bytes_of(block),
                        },
                    );
                    assert(r == run.result);
                }
                r
            },
        }
    }

    /// Polls the status register until it shows that a sample of
    /// `sensor_type` is ready: up to 100 reads, 1 millisecond apart. The
    /// poll ends with the first read that fails or shows the ready bit,
    /// and with `Timeout` after the hundredth read that shows none.
    pub fn wait_for_data_ready(&mut self, sensor_type: SensorType) -> (r: Result<(), Error<E>>)
        ensures
            polled(old(self)@, sensor_type, final(self)@, r),
            final(self).transport().framing() == old(self).transport().framing(),
    {
        let ghost before = self@;
        let ghost status_register = Register::map(before.chip).status;
        let ghost mut answers: Seq<Result<u8, Error<E>>> = Seq::empty();
        let mut polls: u8 = 0;
        proof {
            lemma_extended_none(before);
        }
        loop
            invariant
                polls < MAX_POLLS,
                before == old(self)@,
                status_register == Register::map(before.chip).status,
                answers.len() == polls,
                forall|i: int|
                    0 <= i < answers.len() ==> not_ready(sensor_type, #[trigger] answers[i]),
                self@ == before.extended(retry_events(status_register, answers)),
            decreases MAX_POLLS - polls,
        {
            let ghost retried = retry_events(status_register, answers);
            let ready = self.is_data_ready(sensor_type);
            let ghost answer = choose|answer: Result<u8, Error<E>>|
                {
                    &&& self@ == before.extended(retried).logged(
                        Event::ReadRegister { register: status_register, result: answer },
                    )
                    &&& ready == #[trigger] ready_flag(sensor_type, answer)
                };
            let ghost read = Event::ReadRegister { register: status_register, result: answer };
            proof {
                lemma_extended_logged(before, retried, read);
                assert(answers.push(answer).drop_last() =~= answers);
                assert(retried.push(read) == poll_run(
                    before.chip,
                    sensor_type,
                    answers.push(answer),
                ).events);
            }
            match ready {
                Err(fault) => {
                    assert(poll_complete(sensor_type, answers.push(answer)));
                    return Err(fault);
                },
                Ok(true) => {
                    assert(poll_complete(sensor_type, answers.push(answer)));
                    return Ok(());
                },
                Ok(false) => {},
            }
            polls = polls + 1;
            if polls >= MAX_POLLS {
                assert(poll_complete(sensor_type, answers.push(answer)));
                return Err(Error::Timeout);
            }
            self.pause_ms(POLL_INTERVAL_MS);
            proof {
                let pause = Event::DelayMs { ms: POLL_INTERVAL_MS };
                lemma_extended_logged(before, retried.push(read), pause);
                answers = answers.push(answer);
                assert(retried.push(read).push(pause) == retry_events(status_register, answers));
            }
        }
    }

    /// Reads the status register and tests the ready bit of `sensor_type`.
    pub fn is_data_ready(&mut self, sensor_type: SensorType) -> (r: Result<bool, Error<E>>)
        ensures
            exists|answer: Result<u8, Error<E>>|
                {
                    &&& final(self)@ == old(self)@.logged(
                        Event::ReadRegister {
                            register: Register::map(old(self)@.chip).status,
                            result: answer,
                        },
                    )
                    &&& r == #[trigger] ready_flag(sensor_type, answer)
                },
            final(self).transport().framing() == old(self).transport().framing(),
    {
        let map: RegisterMap = Register::for_chip(self.chip);
        let answer = self.read_register(map.status);
        let r = match answer {
            Ok(status) => Ok(has_data_ready(sensor_type, status)),
            Err(fault) => Err(fault),
        };
        assert(r == ready_flag(sensor_type, answer));
        r
    }

    /// Writes the 16-bit `value` to the register `reg`, low byte first.
    fn write_register_16bit(&mut self, reg: u8, value: u16) -> (r: Result<(), Error<E>>)
        ensures
            final(self)@ == old(self)@.logged(
                Event::Write { payload: word_frame(reg, value), result: r },
            ),
    {
        let payload: [u8; 3] = [reg, (value % 256) as u8, (value / 256) as u8];
        assert(payload@ =~= word_frame(reg, value));
        self.channel.write(&payload)
    }

    /// Writes the byte `value` to the register `reg`.
    fn write_register(&mut self, reg: u8, value: u8) -> (r: Result<(), Error<E>>)
        ensures
            final(self)@ == old(self)@.logged(
                Event::Write { payload: byte_frame(reg, value), result: r },
            ),
    {
        let payload: [u8; 2] = [reg, value];
        assert(payload@ =~= byte_frame(reg, value));
        self.channel.write(&payload)
    }

    /// Reads the register `reg`.
    fn read_register(&mut self, reg: u8) -> (r: Result<u8, Error<E>>)
        ensures
            final(self)@ == old(self)@.logged(Event::ReadRegister { register: reg, result: r }),
    {
        self.channel.read_register(reg)
    }

    /// Reads `N` bytes, starting at the register `reg`.
    fn read_data<const N: usize>(&mut self, reg: u8) -> (r: Result<[u8; N], Error<E>>)
        ensures
            final(self)@ == old(self)@.logged(
                Event::ReadData { register: reg, len: N as nat, result: bytes_of(r) },
            ),
    {
        self.channel.read_data::<N>(reg)
    }

    /// Pauses for `us` microseconds.
    fn pause_us(&mut self, us: u32)
        ensures
            final(self)@ == old(self)@.logged(Event::DelayUs { us }),
    {
        self.channel.delay_us(us)
    }

    /// Pauses for `ms` milliseconds.
    fn pause_ms(&mut self, ms: u32)
        ensures
            final(self)@ == old(self)@.logged(Event::DelayMs { ms }),
    {
        self.channel.delay_ms(ms)
    }
}

/// Decodes the sample at the start of a block of at least six bytes.
fn decode_block<const N: usize>(block: &[u8; N]) -> (data: Sensor3DData)
    requires
        N >= 6,
    ensures
        data == Sensor3DData::decode(block@),
{
    let bytes: [u8; 6] = [block[0], block[1], block[2], block[3], block[4], block[5]];
    Sensor3DData::from_le_bytes(&bytes)
}

} // verus!
