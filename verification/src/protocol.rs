//! The protocol between the driver and the chip, as a mathematical model.
//!
//! An `Event` is one request of the driver with the answer it got. The
//! functions of this module say, for each device operation, which events
//! the operation consists of and what it returns, given the answers of the
//! chip. The contracts of the device operations are stated over them.

use vstd::prelude::*;
use crate::config::{AccelConfig, ConfigImage, GyroConfig};
use crate::channel::{
    exchange_of, exchanges_of, lemma_exchanges_of_concat, lemma_exchanges_of_push, Event,
};
use crate::interface::Exchange;
use crate::registers::{block_len, data_ready, error_flagged, Register};
use crate::types::{
    le_i16, AccelerometerRange, ChipVariant, Error, GyroscopeRange, Sensor3DData,
    Sensor3DDataScaled, SensorType,
};

verus! {

/// The number of times a poll reads the status register before it gives up.
pub const MAX_POLLS: u8 = 100;

/// The pause after a soft reset, in microseconds.
pub const RESET_SETTLE_US: u32 = 2000;

/// The pause after a change of the power mode, in milliseconds.
pub const MODE_SETTLE_MS: u32 = 5;

/// The pause between two reads of the status register, in milliseconds.
pub const POLL_INTERVAL_MS: u32 = 1;

/// What a device is, to its contracts: the chip it drives, the ranges it
/// scales samples with, everything it has asked of the chip and of its
/// delay provider so far, and what its transport says of itself: how it
/// frames its transactions, and which exchanges it has had.
pub ghost struct ImuState<X> {
    pub chip: ChipVariant,
    pub accel_range: AccelerometerRange,
    pub gyro_range: GyroscopeRange,
    pub trace: Seq<Event<X>>,
    pub framing: Option<u8>,
    pub exchanges: Seq<Exchange<X>>,
}

impl<X> ImuState<X> {
    /// A new device for `chip` on a transport that frames with `framing`
    /// and has had no exchange yet: default ranges, nothing asked.
    pub open spec fn initial(chip: ChipVariant, framing: Option<u8>) -> Self {
        ImuState {
            chip,
            accel_range: AccelerometerRange::G8,
            gyro_range: GyroscopeRange::DPS2000,
            trace: Seq::empty(),
            framing,
            exchanges: Seq::empty(),
        }
    }

    /// The device after one more event: the trace holds it, and if it is
    /// an exchange with the transport, the transport has had it.
    pub open spec fn logged(self, event: Event<X>) -> Self {
        ImuState {
            trace: self.trace.push(event),
            exchanges: match exchange_of(event) {
                Some(exchange) => self.exchanges.push(exchange),
                None => self.exchanges,
            },
            ..self
        }
    }

    /// The device after `events`: the trace holds them, and the transport
    /// has had the exchanges among them.
    pub open spec fn extended(self, events: Seq<Event<X>>) -> Self {
        ImuState {
            trace: self.trace + events,
            exchanges: self.exchanges + exchanges_of(events),
            ..self
        }
    }
}

/// No events leave a device as it is.
pub proof fn lemma_extended_none<X>(state: ImuState<X>)
    ensures
        state.extended(Seq::empty()) == state,
{
    assert(state.trace + Seq::<Event<X>>::empty() =~= state.trace);
    assert(state.exchanges + exchanges_of(Seq::<Event<X>>::empty()) =~= state.exchanges);
}

/// One more event after `events` is `events` with one more event.
pub proof fn lemma_extended_logged<X>(state: ImuState<X>, events: Seq<Event<X>>, event: Event<X>)
    ensures
        state.extended(events).logged(event) == state.extended(events.push(event)),
{
    lemma_exchanges_of_push(events, event);
    assert((state.trace + events).push(event) =~= state.trace + events.push(event));
    match exchange_of(event) {
        Some(exchange) => {
            assert((state.exchanges + exchanges_of(events)).push(exchange) =~= state.exchanges
                + exchanges_of(events).push(exchange));
        },
        None => {},
    }
}

/// Events after events are the two runs of events, one after the other.
pub proof fn lemma_extended_twice<X>(
    state: ImuState<X>,
    first: Seq<Event<X>>,
    second: Seq<Event<X>>,
)
    ensures
        state.extended(first).extended(second) == state.extended(first + second),
{
    lemma_exchanges_of_concat(first, second);
    assert((state.trace + first) + second =~= state.trace + (first + second));
    assert((state.exchanges + exchanges_of(first)) + exchanges_of(second) =~= state.exchanges + (
    exchanges_of(first) + exchanges_of(second)));
}

/// The events of an operation and its result.
pub ghost struct Run<T, E> {
    pub events: Seq<Event<Error<E>>>,
    pub result: Result<T, Error<E>>,
}

/// The payload that writes the byte `value` to `register`.
pub open spec fn byte_frame(register: u8, value: u8) -> Seq<u8> {
    seq![register, value]
}

/// The payload that writes the 16-bit `value` to `register`, low byte
/// first.
pub open spec fn word_frame(register: u8, value: u16) -> Seq<u8> {
    seq![register, (value % 256) as u8, (value / 256) as u8]
}

/// The payload that resets `chip`: a 16-bit command on the BMI323, one
/// byte on the BMI160.
pub open spec fn reset_frame(chip: ChipVariant) -> Seq<u8> {
    match chip {
        ChipVariant::Bmi323 => word_frame(Register::CMD, Register::BMI323_CMD_SOFT_RESET),
        ChipVariant::Bmi160 => byte_frame(Register::CMD, Register::BMI160_CMD_SOFT_RESET),
    }
}

/// Initialization, given the answers to the reset command, to the read of
/// the error register and to the read of the chip id: reset, settle, then
/// check the error register and, if it shows no fault, the chip id. The
/// first failure ends it.
pub open spec fn init_run<E>(
    chip: ChipVariant,
    reset: Result<(), Error<E>>,
    status: Result<u8, Error<E>>,
    id: Result<u8, Error<E>>,
) -> Run<(), E> {
    let map = Register::map(chip);
    let reset_events = seq![Event::Write { payload: reset_frame(chip), result: reset }];
    let status_events = reset_events.push(Event::DelayUs { us: RESET_SETTLE_US }).push(
        Event::ReadRegister { register: map.err_reg, result: status },
    );
    let id_events = status_events.push(
        Event::ReadRegister { register: Register::CHIPID, result: id },
    );
    match reset {
        Err(fault) => Run { events: reset_events, result: Err(fault) },
        Ok(_) => match status {
            Err(fault) => Run { events: status_events, result: Err(fault) },
            Ok(flags) => if error_flagged(chip, flags) {
                Run { events: status_events, result: Err(Error::InvalidDevice) }
            } else {
                match id {
                    Err(fault) => Run { events: id_events, result: Err(fault) },
                    Ok(value) => Run {
                        events: id_events,
                        result: if value == map.chip_id {
                            Ok(())
                        } else {
                            Err(Error::InvalidDevice)
                        },
                    },
                }
            },
        },
    }
}

/// Whether the answer `answer` to a read of the status register neither
/// failed nor showed the ready bit of `sensor`.
pub open spec fn not_ready<E>(sensor: SensorType, answer: Result<u8, Error<E>>) -> bool {
    answer matches Ok(status) && !data_ready(sensor, status)
}

/// The events of polls that each found nothing and were each followed by
/// a pause: for each of `answers`, a read of `register` and a pause of one
/// millisecond.
pub open spec fn retry_events<E>(register: u8, answers: Seq<Result<u8, Error<E>>>) -> Seq<
    Event<Error<E>>,
>
    decreases answers.len(),
{
    if answers.len() == 0 {
        Seq::empty()
    } else {
        retry_events(register, answers.drop_last()).push(
            Event::ReadRegister { register, result: answers.last() },
        ).push(Event::DelayMs { ms: POLL_INTERVAL_MS })
    }
}

/// The events of a poll that got `answers`: one read of `register` for
/// each answer, and a pause of one millisecond between two reads.
pub open spec fn poll_events<E>(register: u8, answers: Seq<Result<u8, Error<E>>>) -> Seq<
    Event<Error<E>>,
>
    recommends
        answers.len() >= 1,
{
    retry_events(register, answers.drop_last()).push(
        Event::ReadRegister { register, result: answers.last() },
    )
}

/// Whether `answers` are the answers of one whole poll for `sensor`: the
/// poll reads until an answer fails or shows the ready bit, and at most
/// `MAX_POLLS` times.
pub open spec fn poll_complete<E>(sensor: SensorType, answers: Seq<Result<u8, Error<E>>>) -> bool {
    &&& 1 <= answers.len() <= MAX_POLLS
    &&& forall|i: int| 0 <= i < answers.len() - 1 ==> not_ready(sensor, #[trigger] answers[i])
    &&& answers.len() < MAX_POLLS ==> !not_ready(sensor, answers.last())
}

/// What a poll for `sensor` that got `answers` returns: the failure of the
/// last read, success if the last read showed the ready bit, and a timeout
/// if it did not.
pub open spec fn poll_result<E>(sensor: SensorType, answers: Seq<Result<u8, Error<E>>>) -> Result<
    (),
    Error<E>,
>
    recommends
        answers.len() >= 1,
{
    match answers.last() {
        Err(fault) => Err(fault),
        Ok(status) => if data_ready(sensor, status) {
            Ok(())
        } else {
            Err(Error::Timeout)
        },
    }
}

/// The poll of `chip` for a sample of `sensor`, given the answers to its
/// reads of the status register.
pub open spec fn poll_run<E>(
    chip: ChipVariant,
    sensor: SensorType,
    answers: Seq<Result<u8, Error<E>>>,
) -> Run<(), E> {
    Run {
        events: poll_events(Register::map(chip).status, answers),
        result: poll_result(sensor, answers),
    }
}

/// What a test of the ready bit of `sensor` returns for the answer
/// `answer` to the read of the status register.
pub open spec fn ready_flag<E>(sensor: SensorType, answer: Result<u8, Error<E>>) -> Result<
    bool,
    Error<E>,
> {
    match answer {
        Ok(status) => Ok(data_ready(sensor, status)),
        Err(fault) => Err(fault),
    }
}

/// The register of the BMI323 that holds the configuration of `sensor`.
pub open spec fn config_register(sensor: SensorType) -> u8 {
    match sensor {
        SensorType::Accelerometer => Register::ACC_CONF,
        SensorType::Gyroscope => Register::GYR_CONF,
    }
}

/// The register of the BMI160 that holds the rate and bandwidth of
/// `sensor`.
pub open spec fn rate_register(sensor: SensorType) -> u8 {
    match sensor {
        SensorType::Accelerometer => Register::BMI160_ACCEL_CONFIG_ADDR,
        SensorType::Gyroscope => Register::BMI160_GYRO_CONFIG_ADDR,
    }
}

/// The register of the BMI160 that holds the range of `sensor`.
pub open spec fn range_register(sensor: SensorType) -> u8 {
    match sensor {
        SensorType::Accelerometer => Register::BMI160_ACCEL_RANGE_ADDR,
        SensorType::Gyroscope => Register::BMI160_GYRO_RANGE_ADDR,
    }
}

/// The events and the result of applying a configuration, and whether the
/// device took the range of the configuration over.
pub ghost struct ConfigRun<E> {
    pub events: Seq<Event<Error<E>>>,
    pub result: Result<(), Error<E>>,
    pub applied: bool,
}

/// Applying the configuration `image` to `sensor` of `chip`, given the
/// answers to the writes and to the reads of the status register.
///
/// On the BMI323 the image is written to the configuration register; this
/// is the only write. On the BMI160 the rate register and the range
/// register are written, then the power mode is sent as a command and a
/// pause of 5 milliseconds follows. The device takes the range over once
/// the configuration registers are written. The operation ends with a poll
/// for a sample of the sensor. The first failure ends it; nothing is
/// undone.
pub open spec fn config_run<E>(
    chip: ChipVariant,
    sensor: SensorType,
    image: ConfigImage,
    config_write: Result<(), Error<E>>,
    range_write: Result<(), Error<E>>,
    mode_write: Result<(), Error<E>>,
    answers: Seq<Result<u8, Error<E>>>,
) -> ConfigRun<E> {
    let poll = poll_run(chip, sensor, answers);
    match image {
        ConfigImage::Word(word) => {
            let written = seq![
                Event::Write {
                    payload: word_frame(config_register(sensor), word),
                    result: config_write,
                },
            ];
            match config_write {
                Err(fault) => ConfigRun { events: written, result: Err(fault), applied: false },
                Ok(_) => ConfigRun {
                    events: written + poll.events,
                    result: poll.result,
                    applied: true,
                },
            }
        },
        ConfigImage::Split { config, range, mode } => {
            let rate_written = seq![
                Event::Write {
                    payload: byte_frame(rate_register(sensor), config),
                    result: config_write,
                },
            ];
            let range_written = rate_written.push(
                Event::Write {
                    payload: byte_frame(range_register(sensor), range),
                    result: range_write,
                },
            );
            let mode_written = range_written.push(
                Event::Write { payload: byte_frame(Register::CMD, mode), result: mode_write },
            );
            match config_write {
                Err(fault) => ConfigRun {
                    events: rate_written,
                    result: Err(fault),
                    applied: false,
                },
                Ok(_) => match range_write {
                    Err(fault) => ConfigRun {
                        events: range_written,
                        result: Err(fault),
                        applied: false,
                    },
                    Ok(_) => match mode_write {
                        Err(fault) => ConfigRun {
                            events: mode_written,
                            result: Err(fault),
                            applied: true,
                        },
                        Ok(_) => ConfigRun {
                            events: mode_written.push(Event::DelayMs { ms: MODE_SETTLE_MS })
                                + poll.events,
                            result: poll.result,
                            applied: true,
                        },
                    },
                },
            }
        },
    }
}

/// Reading a raw sample of `sensor` of `chip`, given the answers to the
/// reads of the status register and the answer `block` to the block read:
/// a poll for the sample, and if it succeeds a read of the block that
/// starts at the data register of the sensor. The first six bytes of the
/// block are the sample.
pub open spec fn sample_run<E>(
    chip: ChipVariant,
    sensor: SensorType,
    answers: Seq<Result<u8, Error<E>>>,
    block: Result<Seq<u8>, Error<E>>,
) -> Run<Sensor3DData, E> {
    let poll = poll_run(chip, sensor, answers);
    match poll.result {
        Err(fault) => Run { events: poll.events, result: Err(fault) },
        Ok(_) => Run {
            events: poll.events.push(
                Event::ReadData {
                    register: Register::map(chip).data_start(sensor),
                    len: (block_len(sensor) - 1) as nat,
                    result: block,
                },
            ),
            result: match block {
                Ok(bytes) => Ok(Sensor3DData::decode(bytes)),
                Err(fault) => Err(fault),
            },
        },
    }
}

/// The result of a scaled read: the raw sample scaled with `full_scale`,
/// or the failure of the raw read.
pub open spec fn scale_result<E>(raw: Result<Sensor3DData, Error<E>>, full_scale: int) -> Result<
    Sensor3DDataScaled,
    Error<E>,
> {
    match raw {
        Ok(sample) => Ok(sample.scaled(full_scale)),
        Err(fault) => Err(fault),
    }
}

/// What `init` does: `after` and `r` are the device and the result of an
/// initialization of the device `before`.
pub open spec fn initialized<E>(
    before: ImuState<Error<E>>,
    after: ImuState<Error<E>>,
    r: Result<(), Error<E>>,
) -> bool {
    exists|reset: Result<(), Error<E>>, status: Result<u8, Error<E>>, id: Result<u8, Error<E>>|
        {
            let run = #[trigger] init_run(before.chip, reset, status, id);
            &&& after == before.extended(run.events)
            &&& r == run.result
        }
}

/// What `wait_for_data_ready` does: `after` and `r` are the device and the
/// result of a poll of the device `before` for a sample of `sensor`.
pub open spec fn polled<E>(
    before: ImuState<Error<E>>,
    sensor: SensorType,
    after: ImuState<Error<E>>,
    r: Result<(), Error<E>>,
) -> bool {
    exists|answers: Seq<Result<u8, Error<E>>>|
        {
            let run = #[trigger] poll_run(before.chip, sensor, answers);
            &&& poll_complete(sensor, answers)
            &&& after == before.extended(run.events)
            &&& r == run.result
        }
}

/// What applying a configuration does when the chip can express it as
/// `image`: `after` and `r` are the device and the result, and `after`
/// holds `accel_range` and `gyro_range` if the ranges were taken over.
pub open spec fn configured<E>(
    before: ImuState<Error<E>>,
    sensor: SensorType,
    image: ConfigImage,
    accel_range: AccelerometerRange,
    gyro_range: GyroscopeRange,
    after: ImuState<Error<E>>,
    r: Result<(), Error<E>>,
) -> bool {
    exists|
        config_write: Result<(), Error<E>>,
        range_write: Result<(), Error<E>>,
        mode_write: Result<(), Error<E>>,
        answers: Seq<Result<u8, Error<E>>>,
    |
        {
            let run = #[trigger] config_run(
                before.chip,
                sensor,
                image,
                config_write,
                range_write,
                mode_write,
                answers,
            );
            &&& poll_complete(sensor, answers)
            &&& after == if run.applied {
                ImuState { accel_range, gyro_range, ..before.extended(run.events) }
            } else {
                before.extended(run.events)
            }
            &&& r == run.result
        }
}

/// What `set_accel_config` does: a configuration that the chip cannot
/// express is refused with `InvalidConfig` and nothing happens; any other
/// is applied, and its range becomes the accelerometer range of the
/// device once the configuration registers are written.
pub open spec fn accel_configured<E>(
    before: ImuState<Error<E>>,
    config: AccelConfig,
    after: ImuState<Error<E>>,
    r: Result<(), Error<E>>,
) -> bool {
    if config.representable(before.chip) {
        configured(
            before,
            SensorType::Accelerometer,
            config.image(before.chip),
            config.range,
            before.gyro_range,
            after,
            r,
        )
    } else {
        after == before && r == Err::<(), Error<E>>(Error::InvalidConfig)
    }
}

/// What `set_gyro_config` does: a configuration that the chip cannot
/// express is refused with `InvalidConfig` and nothing happens; any other
/// is applied, and its range becomes the gyroscope range of the device
/// once the configuration registers are written.
pub open spec fn gyro_configured<E>(
    before: ImuState<Error<E>>,
    config: GyroConfig,
    after: ImuState<Error<E>>,
    r: Result<(), Error<E>>,
) -> bool {
    if config.representable(before.chip) {
        configured(
            before,
            SensorType::Gyroscope,
            config.image(before.chip),
            before.accel_range,
            config.range,
            after,
            r,
        )
    } else {
        after == before && r == Err::<(), Error<E>>(Error::InvalidConfig)
    }
}

/// What `read_accel_data` and `read_gyro_data` do: `after` and `r` are the
/// device and the result of a read of a raw sample of `sensor` from the
/// device `before`.
pub open spec fn sample_read<E>(
    before: ImuState<Error<E>>,
    sensor: SensorType,
    after: ImuState<Error<E>>,
    r: Result<Sensor3DData, Error<E>>,
) -> bool {
    exists|answers: Seq<Result<u8, Error<E>>>, block: Result<Seq<u8>, Error<E>>|
        {
            let run = #[trigger] sample_run(before.chip, sensor, answers, block);
            &&& poll_complete(sensor, answers)
            &&& block matches Ok(bytes) ==> bytes.len() == block_len(sensor) - 1
            &&& after == before.extended(run.events)
            &&& r == run.result
        }
}

/// The full scale that the device `state` scales samples of `sensor`
/// with: that of its stored range.
pub open spec fn full_scale_of<X>(state: ImuState<X>, sensor: SensorType) -> int {
    match sensor {
        SensorType::Accelerometer => state.accel_range.full_scale(),
        SensorType::Gyroscope => state.gyro_range.full_scale(),
    }
}

/// What `read_accel_data_scaled` and `read_gyro_data_scaled` do: a read
/// of a raw sample, scaled with the range that the device `before` holds
/// for the sensor.
pub open spec fn scaled_sample_read<E>(
    before: ImuState<Error<E>>,
    sensor: SensorType,
    after: ImuState<Error<E>>,
    r: Result<Sensor3DDataScaled, Error<E>>,
) -> bool {
    exists|raw: Result<Sensor3DData, Error<E>>|
        {
            &&& sample_read(before, sensor, after, raw)
            &&& r == #[trigger] scale_result(raw, full_scale_of(before, sensor))
        }
}

/// Initialization fails with `InvalidDevice` whenever the chip answers
/// the read of the chip id with a value other than the expected one,
/// whatever the error register holds.
pub proof fn lemma_init_rejects_wrong_chip_id<E>(
    chip: ChipVariant,
    reset: Result<(), Error<E>>,
    status: Result<u8, Error<E>>,
    id: Result<u8, Error<E>>,
)
    requires
        reset is Ok,
        status is Ok,
        id matches Ok(value) && value != Register::map(chip).chip_id,
    ensures
        init_run(chip, reset, status, id).result == Err::<(), Error<E>>(Error::InvalidDevice),
{
}

/// Initialization fails with `InvalidDevice` whenever the error register
/// reports a fault, whatever the chip would answer to a read of its id:
/// the error register is checked first, and the chip id is then not read.
pub proof fn lemma_init_rejects_error_flag<E>(
    chip: ChipVariant,
    reset: Result<(), Error<E>>,
    flags: u8,
    id: Result<u8, Error<E>>,
)
    requires
        reset is Ok,
        error_flagged(chip, flags),
    ensures
        init_run(chip, reset, Ok(flags), id).result == Err::<(), Error<E>>(Error::InvalidDevice),
        init_run(chip, reset, Ok(flags), id).events.len() == 3,
        init_run(chip, reset, Ok(flags), id).events.last() == (Event::ReadRegister {
            register: Register::map(chip).err_reg,
            result: Ok::<u8, Error<E>>(flags),
        }),
{
}

/// Initialization succeeds exactly when the reset command went through,
/// the error register reports no fault and the chip id is the expected
/// one.
pub proof fn lemma_init_succeeds<E>(
    chip: ChipVariant,
    reset: Result<(), Error<E>>,
    status: Result<u8, Error<E>>,
    id: Result<u8, Error<E>>,
)
    ensures
        init_run(chip, reset, status, id).result is Ok <==> {
            &&& reset is Ok
            &&& status matches Ok(flags) && !error_flagged(chip, flags)
            &&& id == Ok::<u8, Error<E>>(Register::map(chip).chip_id)
        },
{
}

/// The events of fruitless polls: the read that got the `i`-th answer is
/// the event `2 * i`, and a pause of one millisecond follows each read.
pub proof fn lemma_retry_events<E>(register: u8, answers: Seq<Result<u8, Error<E>>>)
    ensures
        retry_events(register, answers).len() == 2 * answers.len(),
        forall|i: int|
            0 <= i < answers.len() ==> #[trigger] retry_events(register, answers)[2 * i] == (
            Event::ReadRegister { register, result: answers[i] }),
        forall|i: int|
            0 <= i < answers.len() ==> #[trigger] retry_events(register, answers)[2 * i + 1] == (
            Event::DelayMs::<Error<E>> { ms: 1 }),
    decreases answers.len(),
{
    if answers.len() > 0 {
        lemma_retry_events(register, answers.drop_last());
        let earlier = retry_events(register, answers.drop_last());
        let events = retry_events(register, answers);
        assert forall|i: int| 0 <= i < answers.len() implies #[trigger] events[2 * i] == (
        Event::ReadRegister { register, result: answers[i] }) by {
            if i < answers.len() - 1 {
                assert(events[2 * i] == earlier[2 * i]);
                assert(answers.drop_last()[i] == answers[i]);
            }
        }
        assert forall|i: int| 0 <= i < answers.len() implies #[trigger] events[2 * i + 1] == (
        Event::DelayMs::<Error<E>> { ms: 1 }) by {
            if i < answers.len() - 1 {
                assert(events[2 * i + 1] == earlier[2 * i + 1]);
            }
        }
    }
}

/// A whole poll reads the status register once for each answer, at most
/// `MAX_POLLS` times, with a pause of one millisecond between two reads
/// and none after the last.
pub proof fn lemma_poll_events<E>(
    register: u8,
    sensor: SensorType,
    answers: Seq<Result<u8, Error<E>>>,
)
    requires
        poll_complete(sensor, answers),
    ensures
        answers.len() <= MAX_POLLS,
        poll_events(register, answers).len() == 2 * answers.len() - 1,
        forall|i: int|
            0 <= i < answers.len() ==> #[trigger] poll_events(register, answers)[2 * i] == (
            Event::ReadRegister { register, result: answers[i] }),
        forall|i: int|
            0 <= i < answers.len() - 1 ==> #[trigger] poll_events(register, answers)[2 * i + 1]
                == (Event::DelayMs::<Error<E>> { ms: 1 }),
{
    let earlier = retry_events(register, answers.drop_last());
    let events = poll_events(register, answers);
    lemma_retry_events(register, answers.drop_last());
    assert forall|i: int| 0 <= i < answers.len() implies #[trigger] events[2 * i] == (
    Event::ReadRegister { register, result: answers[i] }) by {
        if i < answers.len() - 1 {
            assert(events[2 * i] == earlier[2 * i]);
            assert(answers.drop_last()[i] == answers[i]);
        }
    }
    assert forall|i: int| 0 <= i < answers.len() - 1 implies #[trigger] events[2 * i + 1] == (
    Event::DelayMs::<Error<E>> { ms: 1 }) by {
        assert(events[2 * i + 1] == earlier[2 * i + 1]);
    }
}

/// A whole poll ends with the first read that shows the ready bit, and
/// then succeeds; it succeeds in no other case. When `MAX_POLLS` reads in
/// a row have shown no ready bit, it returns `Timeout`.
pub proof fn lemma_poll_outcome<E>(sensor: SensorType, answers: Seq<Result<u8, Error<E>>>)
    requires
        poll_complete(sensor, answers),
    ensures
        forall|i: int|
            0 <= i < answers.len() && (#[trigger] answers[i] matches Ok(status) && data_ready(
                sensor,
                status,
            )) ==> i == answers.len() - 1,
        poll_result(sensor, answers) is Ok <==> (answers.last() matches Ok(status) && data_ready(
            sensor,
            status,
        )),
        (forall|i: int| 0 <= i < answers.len() ==> not_ready(sensor, #[trigger] answers[i])) ==> {
            &&& answers.len() == MAX_POLLS
            &&& poll_result(sensor, answers) == Err::<(), Error<E>>(Error::Timeout)
        },
        answers.len() == MAX_POLLS && not_ready(sensor, answers.last()) ==> poll_result(
            sensor,
            answers,
        ) == Err::<(), Error<E>>(Error::Timeout),
{
    if forall|i: int| 0 <= i < answers.len() ==> not_ready(sensor, #[trigger] answers[i]) {
        assert(not_ready(sensor, answers[answers.len() - 1]));
    }
}

/// Applying a configuration succeeds exactly when every write that the
/// chip needs went through and the poll succeeded, and the device takes
/// the range over exactly when the configuration registers were written:
/// one register on the BMI323, two on the BMI160.
pub proof fn lemma_config_outcome<E>(
    chip: ChipVariant,
    sensor: SensorType,
    image: ConfigImage,
    config_write: Result<(), Error<E>>,
    range_write: Result<(), Error<E>>,
    mode_write: Result<(), Error<E>>,
    answers: Seq<Result<u8, Error<E>>>,
)
    ensures
        ({
            let run = config_run(
                chip,
                sensor,
                image,
                config_write,
                range_write,
                mode_write,
                answers,
            );
            let polled = poll_result(sensor, answers) is Ok;
            match image {
                ConfigImage::Word(_) => {
                    &&& run.applied <==> config_write is Ok
                    &&& run.result is Ok <==> config_write is Ok && polled
                },
                ConfigImage::Split { .. } => {
                    &&& run.applied <==> config_write is Ok && range_write is Ok
                    &&& run.result is Ok <==> config_write is Ok && range_write is Ok
                        && mode_write is Ok && polled
                },
            }
        }),
{
}

/// Applying a configuration leaves the device with the range of the
/// configuration whenever it succeeds, and with the range it had or with
/// that of the configuration when it fails; the range of the other sensor
/// and the chip stay as they were.
pub proof fn lemma_configured_ranges<E>(
    before: ImuState<Error<E>>,
    sensor: SensorType,
    image: ConfigImage,
    accel_range: AccelerometerRange,
    gyro_range: GyroscopeRange,
    after: ImuState<Error<E>>,
    r: Result<(), Error<E>>,
)
    requires
        configured(before, sensor, image, accel_range, gyro_range, after, r),
    ensures
        after.chip == before.chip,
        after.framing == before.framing,
        r is Ok ==> after.accel_range == accel_range && after.gyro_range == gyro_range,
        after.accel_range == accel_range || after.accel_range == before.accel_range,
        after.gyro_range == gyro_range || after.gyro_range == before.gyro_range,
        gyro_range == before.gyro_range ==> after.gyro_range == before.gyro_range,
        accel_range == before.accel_range ==> after.accel_range == before.accel_range,
{
    let (config_write, range_write, mode_write, answers) = choose|
        config_write: Result<(), Error<E>>,
        range_write: Result<(), Error<E>>,
        mode_write: Result<(), Error<E>>,
        answers: Seq<Result<u8, Error<E>>>,
    |
        {
            let run = #[trigger] config_run(
                before.chip,
                sensor,
                image,
                config_write,
                range_write,
                mode_write,
                answers,
            );
            &&& poll_complete(sensor, answers)
            &&& after == if run.applied {
                ImuState { accel_range, gyro_range, ..before.extended(run.events) }
            } else {
                before.extended(run.events)
            }
            &&& r == run.result
        };
}

/// A read of a sample, raw or scaled, changes neither the chip nor the
/// stored ranges, and a scaled read returns a raw sample scaled with the
/// range that the device holds for the sensor.
pub proof fn lemma_scaled_read<E>(
    before: ImuState<Error<E>>,
    sensor: SensorType,
    after: ImuState<Error<E>>,
    r: Result<Sensor3DDataScaled, Error<E>>,
)
    requires
        scaled_sample_read(before, sensor, after, r),
    ensures
        after.chip == before.chip,
        after.accel_range == before.accel_range,
        after.gyro_range == before.gyro_range,
        r matches Ok(scaled) ==> exists|raw: Sensor3DData| #[trigger]
            raw.scaled(full_scale_of(before, sensor)) == scaled,
{
    let raw = choose|raw: Result<Sensor3DData, Error<E>>|
        {
            &&& sample_read(before, sensor, after, raw)
            &&& r == #[trigger] scale_result(raw, full_scale_of(before, sensor))
        };
    if let Ok(sample) = raw {
        assert(sample.scaled(full_scale_of(before, sensor)) == r->Ok_0);
    }
}

/// Once an accelerometer configuration has been applied with success,
/// the next scaled read of the accelerometer scales with exactly the range
/// of that configuration, whatever range the device held before.
pub proof fn lemma_accel_range_in_effect<E>(
    before: ImuState<Error<E>>,
    config: AccelConfig,
    configured_device: ImuState<Error<E>>,
    after: ImuState<Error<E>>,
    scaled: Sensor3DDataScaled,
)
    requires
        accel_configured(before, config, configured_device, Ok(())),
        scaled_sample_read(configured_device, SensorType::Accelerometer, after, Ok(scaled)),
    ensures
        configured_device.accel_range == config.range,
        configured_device.gyro_range == before.gyro_range,
        after.accel_range == config.range,
        exists|raw: Sensor3DData| #[trigger] raw.scaled(config.range.full_scale()) == scaled,
{
    lemma_configured_ranges(
        before,
        SensorType::Accelerometer,
        config.image(before.chip),
        config.range,
        before.gyro_range,
        configured_device,
        Ok(()),
    );
    lemma_scaled_read(configured_device, SensorType::Accelerometer, after, Ok(scaled));
}

/// Once a gyroscope configuration has been applied with success, the
/// next scaled read of the gyroscope scales with exactly the range of that
/// configuration, whatever range the device held before.
pub proof fn lemma_gyro_range_in_effect<E>(
    before: ImuState<Error<E>>,
    config: GyroConfig,
    configured_device: ImuState<Error<E>>,
    after: ImuState<Error<E>>,
    scaled: Sensor3DDataScaled,
)
    requires
        gyro_configured(before, config, configured_device, Ok(())),
        scaled_sample_read(configured_device, SensorType::Gyroscope, after, Ok(scaled)),
    ensures
        configured_device.gyro_range == config.range,
        configured_device.accel_range == before.accel_range,
        after.gyro_range == config.range,
        exists|raw: Sensor3DData| #[trigger] raw.scaled(config.range.full_scale()) == scaled,
{
    lemma_configured_ranges(
        before,
        SensorType::Gyroscope,
        config.image(before.chip),
        before.accel_range,
        config.range,
        configured_device,
        Ok(()),
    );
    lemma_scaled_read(configured_device, SensorType::Gyroscope, after, Ok(scaled));
}

/// A read of a sample whose poll succeeds and whose block read answers
/// with `bytes` returns the sample that the first six bytes hold: each
/// component is the signed 16-bit number of its own pair of bytes, low
/// byte first.
pub proof fn lemma_sample_decodes<E>(
    chip: ChipVariant,
    sensor: SensorType,
    answers: Seq<Result<u8, Error<E>>>,
    bytes: Seq<u8>,
)
    requires
        poll_result(sensor, answers) is Ok,
    ensures
        sample_run(chip, sensor, answers, Ok(bytes)).result == Ok::<Sensor3DData, Error<E>>(
            Sensor3DData::decode(bytes),
        ),
        Sensor3DData::decode(bytes).x == le_i16(bytes[0], bytes[1]),
        Sensor3DData::decode(bytes).y == le_i16(bytes[2], bytes[3]),
        Sensor3DData::decode(bytes).z == le_i16(bytes[4], bytes[5]),
{
    Sensor3DData::lemma_decode(bytes);
}

/// A read of a sample whose poll succeeds and whose block read answers
/// with the six bytes of `sample`, and any bytes after them, returns
/// `sample`.
pub proof fn lemma_sample_inverts_encode<E>(
    chip: ChipVariant,
    sensor: SensorType,
    answers: Seq<Result<u8, Error<E>>>,
    sample: Sensor3DData,
    rest: Seq<u8>,
)
    requires
        poll_result(sensor, answers) is Ok,
    ensures
        sample_run(chip, sensor, answers, Ok(sample.le_bytes() + rest)).result == Ok::<
            Sensor3DData,
            Error<E>,
        >(sample),
{
    sample.lemma_decode_inverts_encode(rest);
}

/// The time that `event` pauses for, in microseconds.
pub open spec fn pause_of<X>(event: Event<X>) -> nat {
    match event {
        Event::DelayUs { us } => us as nat,
        Event::DelayMs { ms } => 1000 * (ms as nat),
        _ => 0,
    }
}

/// The time that `events` pause for, in microseconds.
pub open spec fn paused_us<X>(events: Seq<Event<X>>) -> nat
    decreases events.len(),
{
    if events.len() == 0 {
        0
    } else {
        paused_us(events.drop_last()) + pause_of(events.last())
    }
}

/// One more event adds its pause.
pub proof fn lemma_paused_push<X>(events: Seq<Event<X>>, event: Event<X>)
    ensures
        paused_us(events.push(event)) == paused_us(events) + pause_of(event),
{
    assert(events.push(event).drop_last() =~= events);
}

/// The pauses of two runs of events add up.
pub proof fn lemma_paused_concat<X>(first: Seq<Event<X>>, second: Seq<Event<X>>)
    ensures
        paused_us(first + second) == paused_us(first) + paused_us(second),
    decreases second.len(),
{
    if second.len() == 0 {
        assert(first + second =~= first);
    } else {
        lemma_paused_concat(first, second.drop_last());
        assert((first + second).drop_last() =~= first + second.drop_last());
    }
}

/// Initialization pauses for 2000 microseconds, once, after a reset that
/// went through.
pub proof fn lemma_init_pauses<E>(
    chip: ChipVariant,
    reset: Result<(), Error<E>>,
    status: Result<u8, Error<E>>,
    id: Result<u8, Error<E>>,
)
    ensures
        paused_us(init_run(chip, reset, status, id).events) == if reset is Ok {
            2000nat
        } else {
            0nat
        },
{
    let map = Register::map(chip);
    let reset_event = Event::Write { payload: reset_frame(chip), result: reset };
    let pause = Event::DelayUs::<Error<E>> { us: 2000 };
    let status_event = Event::ReadRegister { register: map.err_reg, result: status };
    let id_event = Event::ReadRegister { register: 0x00, result: id };
    let none = Seq::<Event<Error<E>>>::empty();
    assert(seq![reset_event] =~= none.push(reset_event));
    lemma_paused_push(none, reset_event);
    lemma_paused_push(seq![reset_event], pause);
    lemma_paused_push(seq![reset_event].push(pause), status_event);
    lemma_paused_push(seq![reset_event].push(pause).push(status_event), id_event);
}

/// Polls that found nothing pause for one millisecond each.
pub proof fn lemma_retry_pauses<E>(register: u8, answers: Seq<Result<u8, Error<E>>>)
    ensures
        paused_us(retry_events(register, answers)) == 1000 * answers.len(),
    decreases answers.len(),
{
    if answers.len() > 0 {
        let earlier = retry_events(register, answers.drop_last());
        let read = Event::ReadRegister { register, result: answers.last() };
        lemma_retry_pauses(register, answers.drop_last());
        lemma_paused_push(earlier, read);
        lemma_paused_push(earlier.push(read), Event::DelayMs { ms: 1 });
    }
}

/// A whole poll pauses for one millisecond less than it made reads: for
/// 99 milliseconds at most.
pub proof fn lemma_poll_pauses<E>(
    register: u8,
    sensor: SensorType,
    answers: Seq<Result<u8, Error<E>>>,
)
    requires
        poll_complete(sensor, answers),
    ensures
        paused_us(poll_events(register, answers)) == 1000 * (answers.len() - 1),
        paused_us(poll_events(register, answers)) <= 99_000,
{
    lemma_retry_pauses(register, answers.drop_last());
    lemma_paused_push(
        retry_events(register, answers.drop_last()),
        Event::ReadRegister { register, result: answers.last() },
    );
}

/// Applying a configuration pauses for the time of its poll, and on the
/// BMI160 for 5 milliseconds more: for 104 milliseconds at most.
pub proof fn lemma_config_pauses<E>(
    chip: ChipVariant,
    sensor: SensorType,
    image: ConfigImage,
    config_write: Result<(), Error<E>>,
    range_write: Result<(), Error<E>>,
    mode_write: Result<(), Error<E>>,
    answers: Seq<Result<u8, Error<E>>>,
)
    requires
        poll_complete(sensor, answers),
    ensures
        paused_us(
            config_run(
                chip,
                sensor,
                image,
                config_write,
                range_write,
                mode_write,
                answers,
            ).events,
        ) <= 104_000,
        image is Word ==> paused_us(
            config_run(
                chip,
                sensor,
                image,
                config_write,
                range_write,
                mode_write,
                answers,
            ).events,
        ) <= 99_000,
{
    let poll = poll_run(chip, sensor, answers);
    let none = Seq::<Event<Error<E>>>::empty();
    lemma_poll_pauses(Register::map(chip).status, sensor, answers);
    match image {
        ConfigImage::Word(word) => {
            let written = Event::Write {
                payload: word_frame(config_register(sensor), word),
                result: config_write,
            };
            assert(seq![written] =~= none.push(written));
            lemma_paused_push(none, written);
            lemma_paused_concat(seq![written], poll.events);
        },
        ConfigImage::Split { config, range, mode } => {
            let rate_written = Event::Write {
                payload: byte_frame(rate_register(sensor), config),
                result: config_write,
            };
            let range_written = Event::Write {
                payload: byte_frame(range_register(sensor), range),
                result: range_write,
            };
            let mode_written = Event::Write {
                payload: byte_frame(Register::CMD, mode),
                result: mode_write,
            };
            let pause = Event::DelayMs::<Error<E>> { ms: 5 };
            assert(seq![rate_written] =~= none.push(rate_written));
            lemma_paused_push(none, rate_written);
            lemma_paused_push(seq![rate_written], range_written);
            lemma_paused_push(seq![rate_written].push(range_written), mode_written);
            lemma_paused_push(
                seq![rate_written].push(range_written).push(mode_written),
                pause,
            );
            lemma_paused_concat(
                seq![rate_written].push(range_written).push(mode_written).push(pause),
                poll.events,
            );
        },
    }
}

/// A read of a sample pauses for the time of its poll: for 99
/// milliseconds at most.
pub proof fn lemma_sample_pauses<E>(
    chip: ChipVariant,
    sensor: SensorType,
    answers: Seq<Result<u8, Error<E>>>,
    block: Result<Seq<u8>, Error<E>>,
)
    requires
        poll_complete(sensor, answers),
    ensures
        paused_us(sample_run(chip, sensor, answers, block).events) <= 99_000,
{
    let poll = poll_run(chip, sensor, answers);
    lemma_poll_pauses(Register::map(chip).status, sensor, answers);
    lemma_paused_push(
        poll.events,
        Event::ReadData {
            register: Register::map(chip).data_start(sensor),
            len: (block_len(sensor) - 1) as nat,
            result: block,
        },
    );
}

} // verus!
