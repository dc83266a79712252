//! The channel of a device to its chip: the transport and the delay
//! provider, together with the record of what was asked of them.
//!
//! The fields of a `Channel` are private to this module, so the record
//! grows only through the five operations below, by exactly the request
//! made and the answer received. Each operation that speaks to the chip
//! also adds the matching exchange to the record of the transport itself.

use vstd::prelude::*;
use crate::interface::{bytes_of, one_byte, Delay, Exchange, ReadData, Transport, WriteData};
use crate::types::Error;

verus! {

/// One request of a device to its transport or to its delay provider,
/// with the answer. `X` is the error type of the transport.
#[allow(inconsistent_fields)]
pub ghost enum Event<X> {
    /// `payload` was written: a register address and the bytes for it.
    Write { payload: Seq<u8>, result: Result<(), X> },
    /// One register was read.
    ReadRegister { register: u8, result: Result<u8, X> },
    /// `len` bytes were read, starting at `register`.
    ReadData { register: u8, len: nat, result: Result<Seq<u8>, X> },
    /// A pause of `us` microseconds.
    DelayUs { us: u32 },
    /// A pause of `ms` milliseconds.
    DelayMs { ms: u32 },
}

/// The exchange with the transport that `event` is, if it is one: a
/// pause is none, and the read of one register is a read of one byte.
pub open spec fn exchange_of<X>(event: Event<X>) -> Option<Exchange<X>> {
    match event {
        Event::Write { payload, result } => Some(Exchange::Write { payload, result }),
        Event::ReadRegister { register, result } => Some(
            Exchange::Read { register, len: 1, result: one_byte(result) },
        ),
        Event::ReadData { register, len, result } => Some(
            Exchange::Read { register, len, result },
        ),
        Event::DelayUs { .. } => None,
        Event::DelayMs { .. } => None,
    }
}

/// The exchanges with the transport among `events`, in their order.
pub open spec fn exchanges_of<X>(events: Seq<Event<X>>) -> Seq<Exchange<X>>
    decreases events.len(),
{
    if events.len() == 0 {
        Seq::empty()
    } else {
        let earlier = exchanges_of(events.drop_last());
        match exchange_of(events.last()) {
            Some(exchange) => earlier.push(exchange),
            None => earlier,
        }
    }
}

/// One more event adds its exchange, if it is one.
pub proof fn lemma_exchanges_of_push<X>(events: Seq<Event<X>>, event: Event<X>)
    ensures
        exchanges_of(events.push(event)) == match exchange_of(event) {
            Some(exchange) => exchanges_of(events).push(exchange),
            None => exchanges_of(events),
        },
{
    assert(events.push(event).drop_last() =~= events);
}

/// The exchanges of one event.
pub proof fn lemma_exchanges_of_one<X>(event: Event<X>)
    ensures
        exchanges_of(seq![event]) == match exchange_of(event) {
            Some(exchange) => seq![exchange],
            None => Seq::<Exchange<X>>::empty(),
        },
{
    let none = Seq::<Event<X>>::empty();
    assert(seq![event] =~= none.push(event));
    lemma_exchanges_of_push(none, event);
    match exchange_of(event) {
        Some(exchange) => {
            assert(Seq::<Exchange<X>>::empty().push(exchange) =~= seq![exchange]);
        },
        None => {},
    }
}

/// The exchanges of two runs of events follow each other.
pub proof fn lemma_exchanges_of_concat<X>(first: Seq<Event<X>>, second: Seq<Event<X>>)
    ensures
        exchanges_of(first + second) == exchanges_of(first) + exchanges_of(second),
    decreases second.len(),
{
    if second.len() == 0 {
        assert(first + second =~= first);
        assert(exchanges_of(first) + exchanges_of(second) =~= exchanges_of(first));
    } else {
        lemma_exchanges_of_concat(first, second.drop_last());
        assert((first + second).drop_last() =~= first + second.drop_last());
        assert((first + second).last() == second.last());
        match exchange_of(second.last()) {
            Some(exchange) => {
                assert((exchanges_of(first) + exchanges_of(second.drop_last())).push(exchange)
                    =~= exchanges_of(first) + exchanges_of(second.drop_last()).push(exchange));
            },
            None => {},
        }
    }
}

/// A transport and a delay provider, and the trace of their use.
pub struct Channel<DI: Transport, D> {
    iface: DI,
    delay: D,
    trace: Ghost<Seq<Event<DI::Error>>>,
}

impl<DI: Transport, D> Channel<DI, D> {
    /// Everything asked through the channel so far, oldest first.
    pub closed spec fn trace(&self) -> Seq<Event<DI::Error>> {
        self.trace@
    }

    /// The transport of the channel.
    pub closed spec fn transport(&self) -> DI {
        self.iface
    }

    /// The delay provider of the channel.
    pub closed spec fn delay_provider(&self) -> D {
        self.delay
    }

    /// A channel through which nothing has been asked yet.
    pub fn new(iface: DI, delay: D) -> (channel: Self)
        ensures
            channel.trace() == Seq::<Event<DI::Error>>::empty(),
            channel.transport() == iface,
            channel.delay_provider() == delay,
    {
        Channel { iface, delay, trace: Ghost(Seq::empty()) }
    }
}

impl<DI, D, E> Channel<DI, D> where
    DI: ReadData<Error = Error<E>> + WriteData<Error = Error<E>>,
    D: Delay,
 {
    /// Writes `payload` to the chip.
    pub fn write(&mut self, payload: &[u8]) -> (r: Result<(), Error<E>>)
        ensures
            final(self).trace() == old(self).trace().push(
                Event::Write { payload: payload@, result: r },
            ),
            final(self).transport().exchanges() == old(self).transport().exchanges().push(
                Exchange::Write { payload: payload@, result: r },
            ),
            final(self).transport().framing() == old(self).transport().framing(),
            final(self).delay_provider() == old(self).delay_provider(),
    {
        let r = self.iface.write_data(payload);
        proof {
            self.trace@ = self.trace@.push(Event::Write { payload: payload@, result: r });
        }
        r
    }

    /// Reads the register at `register`.
    pub fn read_register(&mut self, register: u8) -> (r: Result<u8, Error<E>>)
        ensures
            final(self).trace() == old(self).trace().push(
                Event::ReadRegister { register, result: r },
            ),
            final(self).transport().exchanges() == old(self).transport().exchanges().push(
                Exchange::Read { register, len: 1, result: one_byte(r) },
            ),
            final(self).transport().framing() == old(self).transport().framing(),
            final(self).delay_provider() == old(self).delay_provider(),
    {
        let r = self.iface.read_register(register);
        proof {
            self.trace@ = self.trace@.push(Event::ReadRegister { register, result: r });
        }
        r
    }

    /// Reads `N` bytes, starting at `register`.
    pub fn read_data<const N: usize>(&mut self, register: u8) -> (r: Result<[u8; N], Error<E>>)
        ensures
            final(self).trace() == old(self).trace().push(
                Event::ReadData { register, len: N as nat, result: bytes_of(r) },
            ),
            final(self).transport().exchanges() == old(self).transport().exchanges().push(
                Exchange::Read { register, len: N as nat, result: bytes_of(r) },
            ),
            final(self).transport().framing() == old(self).transport().framing(),
            final(self).delay_provider() == old(self).delay_provider(),
    {
        let r = self.iface.read_data::<N>(register);
        proof {
            self.trace@ = self.trace@.push(
                Event::ReadData { register, len: N as nat, result: bytes_of(r) },
            );
        }
        r
    }

    /// Pauses for `us` microseconds.
    pub fn delay_us(&mut self, us: u32)
        ensures
            final(self).trace() == old(self).trace().push(Event::DelayUs { us }),
            final(self).transport() == old(self).transport(),
    {
        self.delay.delay_us(us);
        proof {
            self.trace@ = self.trace@.push(Event::DelayUs { us });
        }
    }

    /// Pauses for `ms` milliseconds.
    pub fn delay_ms(&mut self, ms: u32)
        ensures
            final(self).trace() == old(self).trace().push(Event::DelayMs { ms }),
            final(self).transport() == old(self).transport(),
    {
        self.delay.delay_ms(ms);
        proof {
            self.trace@ = self.trace@.push(Event::DelayMs { ms });
        }
    }
}

} // verus!
