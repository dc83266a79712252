//! The transport between the driver and the chip.
//!
//! The driver asks for three things, `write_data`, `read_register` and
//! `read_data`, of whatever implements `WriteData` and `ReadData`. A
//! transport keeps a record of what was asked of it and of what it
//! answered, and each of the three operations adds exactly one exchange to
//! that record.
//!
//! The two adapters of this module provide the operations over an
//! addressed two-wire bus (`I2cInterface`) and over a chip-select bus
//! (`SpiInterface`). For each exchange an adapter makes one transaction on
//! its bus; on the two-wire bus it frames the transaction with the address
//! of the chip.

use vstd::prelude::*;
use crate::types::Error;

verus! {

/// One request to a transport, with the answer. `X` is the error type of
/// the answers.
#[allow(inconsistent_fields)]
pub ghost enum Exchange<X> {
    /// `payload` was written: a register address and the bytes for it.
    Write { payload: Seq<u8>, result: Result<(), X> },
    /// `len` bytes were read, starting at `register`.
    Read { register: u8, len: nat, result: Result<Seq<u8>, X> },
}

/// What every transport has: an error type, the way it frames its
/// transactions, and the record of its exchanges with the chip.
pub trait Transport {
    /// Error type
    type Error;

    /// The device address that frames every transaction, on a bus that
    /// addresses its devices.
    spec fn framing(&self) -> Option<u8>;

    /// The exchanges with the chip so far, oldest first.
    spec fn exchanges(&self) -> Seq<Exchange<Self::Error>>;
}

/// Write data
pub trait WriteData: Transport {
    /// Writes `payload` to the chip: the address of a register, then the
    /// bytes that go to this register and to those after it.
    fn write_data(&mut self, payload: &[u8]) -> (r: Result<(), Self::Error>)
        ensures
            final(self).framing() == old(self).framing(),
            final(self).exchanges() == old(self).exchanges().push(
                Exchange::Write { payload: payload@, result: r },
            ),
    ;
}

/// Read data
pub trait ReadData: Transport {
    /// Reads the register at address `register`.
    fn read_register(&mut self, register: u8) -> (r: Result<u8, Self::Error>)
        ensures
            final(self).framing() == old(self).framing(),
            final(self).exchanges() == old(self).exchanges().push(
                Exchange::Read { register, len: 1, result: one_byte(r) },
            ),
    ;

    /// Reads `N` bytes, starting with the register at address `register`.
    fn read_data<const N: usize>(&mut self, register: u8) -> (r: Result<[u8; N], Self::Error>)
        ensures
            final(self).framing() == old(self).framing(),
            final(self).exchanges() == old(self).exchanges().push(
                Exchange::Read { register, len: N as nat, result: bytes_of(r) },
            ),
    ;
}

/// A blocking delay provider.
pub trait Delay {
    /// Pauses for at least `us` microseconds.
    fn delay_us(&mut self, us: u32);

    /// Pauses for at least `ms` milliseconds.
    fn delay_ms(&mut self, ms: u32);
}

/// A two-wire bus on which every transaction names the address of a device.
pub trait I2cBus {
    /// Error type
    type Error;

    /// Writes `bytes` to the device at `address`.
    fn write(&mut self, address: u8, bytes: &[u8]) -> (r: Result<(), Self::Error>);

    /// Writes `bytes` to the device at `address`, then reads `N` bytes from
    /// it in the same transaction.
    fn write_read<const N: usize>(&mut self, address: u8, bytes: &[u8]) -> (r: Result<
        [u8; N],
        Self::Error,
    >);
}

/// A bus to one device that a chip-select line selects.
pub trait SpiBus {
    /// Error type
    type Error;

    /// Writes `bytes` to the device.
    fn write(&mut self, bytes: &[u8]) -> (r: Result<(), Self::Error>);

    /// Writes `bytes` to the device, then reads `N` bytes from it while it
    /// is still selected.
    fn write_read<const N: usize>(&mut self, bytes: &[u8]) -> (r: Result<[u8; N], Self::Error>);
}

/// One transaction that an adapter asked of its bus, with the answer.
/// `address` is the device address on a two-wire bus and `None` on a
/// chip-select bus.
#[allow(inconsistent_fields)]
pub ghost enum BusEvent<E> {
    /// `bytes` were written.
    Write { address: Option<u8>, bytes: Seq<u8>, result: Result<(), E> },
    /// `bytes` were written, then `len` bytes were asked for.
    WriteRead { address: Option<u8>, bytes: Seq<u8>, len: nat, result: Result<Seq<u8>, E> },
}

/// What an adapter returns for the answer `result` of its bus: a fault of
/// the bus becomes a communication error that carries it.
pub open spec fn wrap<T, E>(result: Result<T, E>) -> Result<T, Error<E>> {
    match result {
        Ok(value) => Ok(value),
        Err(fault) => Err(Error::Comm(fault)),
    }
}

/// The bytes of a block that was read.
pub open spec fn bytes_of<E, const N: usize>(result: Result<[u8; N], E>) -> Result<Seq<u8>, E> {
    match result {
        Ok(block) => Ok(block@),
        Err(fault) => Err(fault),
    }
}

/// The first byte of a block that was read.
pub open spec fn first_byte<E, const N: usize>(result: Result<[u8; N], E>) -> Result<u8, E> {
    match result {
        Ok(block) => Ok(block[0]),
        Err(fault) => Err(fault),
    }
}

/// The one byte of a register that was read, as a block.
pub open spec fn one_byte<E>(result: Result<u8, E>) -> Result<Seq<u8>, E> {
    match result {
        Ok(byte) => Ok(seq![byte]),
        Err(fault) => Err(fault),
    }
}

/// The exchange that an adapter records for the exchange `exchange` with
/// its bus: the same request, and the answer as the adapter returns it.
pub open spec fn wrap_exchange<E>(exchange: Exchange<E>) -> Exchange<Error<E>> {
    match exchange {
        Exchange::Write { payload, result } => Exchange::Write { payload, result: wrap(result) },
        Exchange::Read { register, len, result } => Exchange::Read {
            register,
            len,
            result: wrap(result),
        },
    }
}

/// The exchanges that an adapter records for the exchanges `record` with
/// its bus.
pub open spec fn wrapped<E>(record: Seq<Exchange<E>>) -> Seq<Exchange<Error<E>>> {
    Seq::new(record.len(), |i: int| wrap_exchange(record[i]))
}

/// The bus transaction that makes the exchange `exchange`: a write of the
/// payload, or a write of the register address followed by the read.
pub open spec fn frame<E>(address: Option<u8>, exchange: Exchange<E>) -> BusEvent<E> {
    match exchange {
        Exchange::Write { payload, result } => BusEvent::Write { address, bytes: payload, result },
        Exchange::Read { register, len, result } => BusEvent::WriteRead {
            address,
            bytes: seq![register],
            len,
            result,
        },
    }
}

/// The bus transactions that make the exchanges `record`, in their order.
pub open spec fn framed<E>(address: Option<u8>, record: Seq<Exchange<E>>) -> Seq<BusEvent<E>> {
    Seq::new(record.len(), |i: int| frame(address, record[i]))
}

/// An adapter returns what its bus answered, a fault wrapped, so the
/// exchanges it records tell which exchanges it had with its bus: two
/// records of the bus that are recorded alike are the same.
pub proof fn lemma_wrapped_injective<E>(first: Seq<Exchange<E>>, second: Seq<Exchange<E>>)
    requires
        wrapped(first) == wrapped(second),
    ensures
        first == second,
{
    assert(first.len() == wrapped(first).len());
    assert(second.len() == wrapped(second).len());
    assert forall|i: int| 0 <= i < first.len() implies first[i] == second[i] by {
        assert(wrap_exchange(first[i]) == wrapped(first)[i]);
        assert(wrap_exchange(second[i]) == wrapped(second)[i]);
        match first[i] {
            Exchange::Write { payload, result } => {
                assert(second[i] is Write);
                assert(wrap(result) == wrap(second[i]->Write_result));
            },
            Exchange::Read { register, len, result } => {
                assert(second[i] is Read);
                assert(wrap(result) == wrap(second[i]->Read_result));
            },
        }
    }
    assert(first =~= second);
}

/// The records of an adapter grow together: where the exchanges that an
/// adapter with the bus record `before` has recorded grow by `added` and
/// leave it with the bus record `after`, the bus record grew by exchanges
/// that are recorded as `added`.
pub proof fn lemma_record_follows<E>(
    before: Seq<Exchange<E>>,
    after: Seq<Exchange<E>>,
    added: Seq<Exchange<Error<E>>>,
)
    requires
        wrapped(after) == wrapped(before) + added,
    ensures
        before.len() <= after.len(),
        after == before + after.skip(before.len() as int),
        added == wrapped(after.skip(before.len() as int)),
{
    let made = after.skip(before.len() as int);
    let start = after.take(before.len() as int);
    assert(wrapped(after).len() == after.len());
    assert((wrapped(before) + added).len() == before.len() + added.len());
    assert(after.len() == before.len() + added.len());
    assert(wrapped(start) =~= wrapped(before)) by {
        assert forall|i: int| 0 <= i < before.len() implies wrapped(start)[i] == wrapped(
            before,
        )[i] by {
            assert(start[i] == after[i]);
            assert(wrapped(start)[i] == wrap_exchange(after[i]));
            assert(wrapped(after)[i] == wrap_exchange(after[i]));
            assert((wrapped(before) + added)[i] == wrapped(before)[i]);
        }
    }
    lemma_wrapped_injective(start, before);
    assert(after =~= start + made);
    assert(added =~= wrapped(made)) by {
        assert forall|i: int| 0 <= i < added.len() implies added[i] == wrapped(made)[i] by {
            assert(made[i] == after[before.len() + i]);
            assert(wrapped(made)[i] == wrap_exchange(after[before.len() + i]));
            assert(wrapped(after)[before.len() + i] == wrap_exchange(after[before.len() + i]));
            assert((wrapped(before) + added)[before.len() + i] == added[i]);
        }
    }
}

/// The bus transactions of two records, one after the other.
pub proof fn lemma_framed_concat<E>(
    address: Option<u8>,
    first: Seq<Exchange<E>>,
    second: Seq<Exchange<E>>,
)
    ensures
        framed(address, first + second) == framed(address, first) + framed(address, second),
{
    assert(framed(address, first + second) =~= framed(address, first) + framed(address, second));
}

/// I2C interface
pub struct I2cInterface<I2C: I2cBus> {
    i2c: I2C,
    address: u8,
    record: Ghost<Seq<Exchange<I2C::Error>>>,
}

impl<I2C: I2cBus> I2cInterface<I2C> {
    /// The bus behind the adapter.
    pub closed spec fn bus(&self) -> I2C {
        self.i2c
    }

    /// The address of the chip on the bus.
    pub closed spec fn address(&self) -> u8 {
        self.address
    }

    /// The exchanges with the bus so far, oldest first, with the answers
    /// as the bus gave them.
    pub closed spec fn record(&self) -> Seq<Exchange<I2C::Error>> {
        self.record@
    }

    /// The transactions asked of the bus so far, oldest first: one for
    /// each exchange, framed with the address of the chip.
    pub open spec fn log(&self) -> Seq<BusEvent<I2C::Error>> {
        framed(Some(self.address()), self.record())
    }

    /// Wraps the bus `i2c` for the chip at `address`.
    pub fn new(i2c: I2C, address: u8) -> (iface: Self)
        ensures
            iface.bus() == i2c,
            iface.address() == address,
            iface.record() == Seq::<Exchange<I2C::Error>>::empty(),
            iface.log() == Seq::<BusEvent<I2C::Error>>::empty(),
            iface.framing() == Some(address),
            iface.exchanges() == Seq::<Exchange<Error<I2C::Error>>>::empty(),
    {
        let iface = I2cInterface { i2c, address, record: Ghost(Seq::empty()) };
        assert(iface.log() =~= Seq::<BusEvent<I2C::Error>>::empty());
        assert(iface.exchanges() =~= Seq::<Exchange<Error<I2C::Error>>>::empty());
        iface
    }
}

impl<I2C: I2cBus> I2cInterface<I2C> {
    /// For every exchange that an adapter has, it makes one transaction on
    /// its bus, framed with the address of the chip, and that address never
    /// changes: where the framing of `after` is that of `before` and its
    /// exchanges are those of `before` and then `added`, its bus log is
    /// that of `before` and then the transactions that make `added`, in
    /// their order, each with the address of `before`.
    pub proof fn lemma_log_follows_exchanges(
        before: Self,
        after: Self,
        added: Seq<Exchange<Error<I2C::Error>>>,
    )
        requires
            after.framing() == before.framing(),
            after.exchanges() == before.exchanges() + added,
        ensures
            after.address() == before.address(),
            exists|made: Seq<Exchange<I2C::Error>>|
                {
                    &&& added == #[trigger] wrapped(made)
                    &&& after.record() == before.record() + made
                    &&& after.log() == before.log() + framed(Some(before.address()), made)
                },
    {
        let made = after.record().skip(before.record().len() as int);
        lemma_record_follows(before.record(), after.record(), added);
        lemma_framed_concat(Some(before.address()), before.record(), made);
        assert(added == wrapped(made));
    }
}

impl<I2C: I2cBus> Transport for I2cInterface<I2C> {
    type Error = Error<I2C::Error>;

    open spec fn framing(&self) -> Option<u8> {
        Some(self.address())
    }

    open spec fn exchanges(&self) -> Seq<Exchange<Error<I2C::Error>>> {
        wrapped(self.record())
    }
}

impl<I2C: I2cBus> WriteData for I2cInterface<I2C> {
    fn write_data(&mut self, payload: &[u8]) -> (r: Result<(), Self::Error>)
        ensures
            final(self).address() == old(self).address(),
            exists|result: Result<(), I2C::Error>|
                {
                    &&& r == #[trigger] wrap(result)
                    &&& final(self).record() == old(self).record().push(
                        Exchange::Write { payload: payload@, result },
                    )
                    &&& final(self).log() == old(self).log().push(
                        BusEvent::Write {
                            address: Some(old(self).address()),
                            bytes: payload@,
                            result,
                        },
                    )
                },
    {
        let result = self.i2c.write(self.address, payload);
        let ghost answer = result;
        proof {
            self.record@ = self.record@.push(Exchange::Write { payload: payload@, result });
        }
        let r = match result {
            Ok(()) => Ok(()),
            Err(fault) => Err(Error::Comm(fault)),
        };
        proof {
            assert(r == wrap(answer));
            assert(self.log() =~= old(self).log().push(
                BusEvent::Write { address: Some(self.address), bytes: payload@, result: answer },
            ));
            assert(self.exchanges() =~= old(self).exchanges().push(
                Exchange::Write { payload: payload@, result: r },
            ));
        }
        r
    }
}

impl<I2C: I2cBus> ReadData for I2cInterface<I2C> {
    fn read_register(&mut self, register: u8) -> (r: Result<u8, Self::Error>)
        ensures
            final(self).address() == old(self).address(),
            exists|result: Result<u8, I2C::Error>|
                {
                    &&& r == #[trigger] wrap(result)
                    &&& final(self).record() == old(self).record().push(
                        Exchange::Read { register, len: 1, result: one_byte(result) },
                    )
                    &&& final(self).log() == old(self).log().push(
                        BusEvent::WriteRead {
                            address: Some(old(self).address()),
                            bytes: seq![register],
                            len: 1,
                            result: one_byte(result),
                        },
                    )
                },
    {
        let request: [u8; 1] = [register];
        let result = self.i2c.write_read::<1>(self.address, &request);
        let ghost answer = first_byte(result);
        let r = match result {
            Ok(data) => Ok(data[0]),
            Err(fault) => Err(Error::Comm(fault)),
        };
        proof {
            self.record@ = self.record@.push(
                Exchange::Read { register, len: 1, result: one_byte(answer) },
            );
            assert(r == wrap(answer));
            assert(self.log() =~= old(self).log().push(
                BusEvent::WriteRead {
                    address: Some(self.address),
                    bytes: seq![register],
                    len: 1,
                    result: one_byte(answer),
                },
            ));
            assert(self.exchanges() =~= old(self).exchanges().push(
                Exchange::Read { register, len: 1, result: one_byte(r) },
            ));
        }
        r
    }

    fn read_data<const N: usize>(&mut self, register: u8) -> (r: Result<[u8; N], Self::Error>)
        ensures
            final(self).address() == old(self).address(),
            exists|result: Result<[u8; N], I2C::Error>|
                {
                    &&& r == #[trigger] wrap(result)
                    &&& final(self).record() == old(self).record().push(
                        Exchange::Read { register, len: N as nat, result: bytes_of(result) },
                    )
                    &&& final(self).log() == old(self).log().push(
                        BusEvent::WriteRead {
                            address: Some(old(self).address()),
                            bytes: seq![register],
                            len: N as nat,
                            result: bytes_of(result),
                        },
                    )
                },
    {
        let request: [u8; 1] = [register];
        let result = self.i2c.write_read::<N>(self.address, &request);
        let ghost answer = result;
        proof {
            self.record@ = self.record@.push(
                Exchange::Read { register, len: N as nat, result: bytes_of(result) },
            );
        }
        let r = match result {
            Ok(data) => Ok(data),
            Err(fault) => Err(Error::Comm(fault)),
        };
        proof {
            assert(r == wrap(answer));
            assert(self.log() =~= old(self).log().push(
                BusEvent::WriteRead {
                    address: Some(self.address),
                    bytes: seq![register],
                    len: N as nat,
                    result: bytes_of(answer),
                },
            ));
            assert(self.exchanges() =~= old(self).exchanges().push(
                Exchange::Read { register, len: N as nat, result: bytes_of(r) },
            ));
        }
        r
    }
}

/// SPI interface
pub struct SpiInterface<SPI: SpiBus> {
    spi: SPI,
    record: Ghost<Seq<Exchange<SPI::Error>>>,
}

impl<SPI: SpiBus> SpiInterface<SPI> {
    /// The bus behind the adapter.
    pub closed spec fn bus(&self) -> SPI {
        self.spi
    }

    /// The exchanges with the bus so far, oldest first, with the answers
    /// as the bus gave them.
    pub closed spec fn record(&self) -> Seq<Exchange<SPI::Error>> {
        self.record@
    }

    /// The transactions asked of the bus so far, oldest first: one for
    /// each exchange, with no address.
    pub open spec fn log(&self) -> Seq<BusEvent<SPI::Error>> {
        framed(None, self.record())
    }

    /// Wraps the bus `spi`, which selects the chip.
    pub fn new(spi: SPI) -> (iface: Self)
        ensures
            iface.bus() == spi,
            iface.record() == Seq::<Exchange<SPI::Error>>::empty(),
            iface.log() == Seq::<BusEvent<SPI::Error>>::empty(),
            iface.framing() == None::<u8>,
            iface.exchanges() == Seq::<Exchange<Error<SPI::Error>>>::empty(),
    {
        let iface = SpiInterface { spi, record: Ghost(Seq::empty()) };
        assert(iface.log() =~= Seq::<BusEvent<SPI::Error>>::empty());
        assert(iface.exchanges() =~= Seq::<Exchange<Error<SPI::Error>>>::empty());
        iface
    }
}

impl<SPI: SpiBus> SpiInterface<SPI> {
    /// For every exchange that an adapter has, it makes one transaction on
    /// its bus, with no address: where the exchanges of `after` are those
    /// of `before` and then `added`, its bus log is that of `before` and
    /// then the transactions that make `added`, in their order.
    pub proof fn lemma_log_follows_exchanges(
        before: Self,
        after: Self,
        added: Seq<Exchange<Error<SPI::Error>>>,
    )
        requires
            after.exchanges() == before.exchanges() + added,
        ensures
            exists|made: Seq<Exchange<SPI::Error>>|
                {
                    &&& added == #[trigger] wrapped(made)
                    &&& after.record() == before.record() + made
                    &&& after.log() == before.log() + framed(None, made)
                },
    {
        let made = after.record().skip(before.record().len() as int);
        lemma_record_follows(before.record(), after.record(), added);
        lemma_framed_concat(None, before.record(), made);
        assert(added == wrapped(made));
    }
}

impl<SPI: SpiBus> Transport for SpiInterface<SPI> {
    type Error = Error<SPI::Error>;

    open spec fn framing(&self) -> Option<u8> {
        None
    }

    open spec fn exchanges(&self) -> Seq<Exchange<Error<SPI::Error>>> {
        wrapped(self.record())
    }
}

impl<SPI: SpiBus> WriteData for SpiInterface<SPI> {
    fn write_data(&mut self, payload: &[u8]) -> (r: Result<(), Self::Error>)
        ensures
            exists|result: Result<(), SPI::Error>|
                {
                    &&& r == #[trigger] wrap(result)
                    &&& final(self).record() == old(self).record().push(
                        Exchange::Write { payload: payload@, result },
                    )
                    &&& final(self).log() == old(self).log().push(
                        BusEvent::Write {
                            address: None,
                            bytes: payload@,
                            result,
                        },
                    )
                },
    {
        let result = self.spi.write(payload);
        let ghost answer = result;
        proof {
            self.record@ = self.record@.push(Exchange::Write { payload: payload@, result });
        }
        let r = match result {
            Ok(()) => Ok(()),
            Err(fault) => Err(Error::Comm(fault)),
        };
        proof {
            assert(r == wrap(answer));
            assert(self.log() =~= old(self).log().push(
                BusEvent::Write { address: None, bytes: payload@, result: answer },
            ));
            assert(self.exchanges() =~= old(self).exchanges().push(
                Exchange::Write { payload: payload@, result: r },
            ));
        }
        r
    }
}

impl<SPI: SpiBus> ReadData for SpiInterface<SPI> {
    fn read_register(&mut self, register: u8) -> (r: Result<u8, Self::Error>)
        ensures
            exists|result: Result<u8, SPI::Error>|
                {
                    &&& r == #[trigger] wrap(result)
                    &&& final(self).record() == old(self).record().push(
                        Exchange::Read { register, len: 1, result: one_byte(result) },
                    )
                    &&& final(self).log() == old(self).log().push(
                        BusEvent::WriteRead {
                            address: None,
                            bytes: seq![register],
                            len: 1,
                            result: one_byte(result),
                        },
                    )
                },
    {
        let request: [u8; 1] = [register];
        let result = self.spi.write_read::<1>(&request);
        let ghost answer = first_byte(result);
        let r = match result {
            Ok(data) => Ok(data[0]),
            Err(fault) => Err(Error::Comm(fault)),
        };
        proof {
            self.record@ = self.record@.push(
                Exchange::Read { register, len: 1, result: one_byte(answer) },
            );
            assert(r == wrap(answer));
            assert(self.log() =~= old(self).log().push(
                BusEvent::WriteRead {
                    address: None,
                    bytes: seq![register],
                    len: 1,
                    result: one_byte(answer),
                },
            ));
            assert(self.exchanges() =~= old(self).exchanges().push(
                Exchange::Read { register, len: 1, result: one_byte(r) },
            ));
        }
        r
    }

    fn read_data<const N: usize>(&mut self, register: u8) -> (r: Result<[u8; N], Self::Error>)
        ensures
            exists|result: Result<[u8; N], SPI::Error>|
                {
                    &&& r == #[trigger] wrap(result)
                    &&& final(self).record() == old(self).record().push(
                        Exchange::Read { register, len: N as nat, result: bytes_of(result) },
                    )
                    &&& final(self).log() == old(self).log().push(
                        BusEvent::WriteRead {
                            address: None,
                            bytes: seq![register],
                            len: N as nat,
                            result: bytes_of(result),
                        },
                    )
                },
    {
        let request: [u8; 1] = [register];
        let result = self.spi.write_read::<N>(&request);
        let ghost answer = result;
        proof {
            self.record@ = self.record@.push(
                Exchange::Read { register, len: N as nat, result: bytes_of(result) },
            );
        }
        let r = match result {
            Ok(data) => Ok(data),
            Err(fault) => Err(Error::Comm(fault)),
        };
        proof {
            assert(r == wrap(answer));
            assert(self.log() =~= old(self).log().push(
                BusEvent::WriteRead {
                    address: None,
                    bytes: seq![register],
                    len: N as nat,
                    result: bytes_of(answer),
                },
            ));
            assert(self.exchanges() =~= old(self).exchanges().push(
                Exchange::Read { register, len: N as nat, result: bytes_of(r) },
            ));
        }
        r
    }
}

} // verus!
