//! The transport that the driver needs: a serial bus that clocks bytes out
//! and a chip-select line, each of which may fail, together with a record
//! of everything the driver has asked of them.

use vstd::prelude::*;

verus! {

/// A serial bus that writes a byte sequence as one bus operation.
///
/// Nothing is assumed of an implementation: any call may succeed or fail.
pub trait SerialBus {
    /// What a failed transfer reports.
    type Error;

    /// Clocks `bytes` out in the order given.
    fn transfer(&mut self, bytes: &[u8]) -> Result<(), Self::Error>;
}

/// The chip-select line that frames a transfer.
///
/// Nothing is assumed of an implementation: any call may succeed or fail.
pub trait SelectLine {
    /// What a failed change of the line reports.
    type Error;

    /// Asserts the line, so that the chip listens.
    fn select(&mut self) -> Result<(), Self::Error>;

    /// Releases the line, so that the chip latches what it has received.
    fn deselect(&mut self) -> Result<(), Self::Error>;
}

/// One request to the transport.
pub enum BusOp {
    /// The select line is asserted.
    Select,
    /// The select line is released.
    Deselect,
    /// The bytes are handed to the bus as one transfer.
    Transfer(Seq<u8>),
}

/// One request to the transport together with what the transport answered.
pub struct BusEvent<E> {
    pub op: BusOp,
    pub result: Result<(), E>,
}

/// The payloads of the transfers among `events`, in order, whether or not
/// the bus reported success for them.
pub open spec fn transfers<E>(events: Seq<BusEvent<E>>) -> Seq<Seq<u8>>
    decreases events.len(),
{
    if events.len() == 0 {
        Seq::empty()
    } else {
        let earlier = transfers(events.drop_last());
        match events.last().op {
            BusOp::Transfer(bytes) => earlier.push(bytes),
            _ => earlier,
        }
    }
}

/// A bus and its select line, owned together.
///
/// The interface keeps a ghost trace of every request that it has passed on
/// and of the answer to each; the two parts are reachable only through
/// `select`, `deselect` and `transfer`, so the trace is complete.
pub struct SpiInterface<SPI: SerialBus, CS> {
    spi: SPI,
    cs: CS,
    trace: Ghost<Seq<BusEvent<SPI::Error>>>,
}

impl<SPI: SerialBus, CS> SpiInterface<SPI, CS> {
    /// Every request made so far, oldest first.
    pub closed spec fn trace(&self) -> Seq<BusEvent<SPI::Error>> {
        self.trace@
    }

    /// The bus in its current state.
    pub closed spec fn bus(&self) -> SPI {
        self.spi
    }

    /// The select line in its current state.
    pub closed spec fn line(&self) -> CS {
        self.cs
    }

    /// Takes ownership of a bus and a select line; nothing has been asked of
    /// them yet.
    pub fn new(spi: SPI, cs: CS) -> (r: Self)
        ensures
            r.bus() == spi,
            r.line() == cs,
            r.trace() == Seq::<BusEvent<SPI::Error>>::empty(),
    {
        SpiInterface { spi, cs, trace: Ghost(Seq::empty()) }
    }

    /// Gives the bus and the select line back.
    pub fn release(self) -> (r: (SPI, CS))
        ensures
            r.0 == self.bus(),
            r.1 == self.line(),
    {
        (self.spi, self.cs)
    }
}

impl<SPI, CS, E> SpiInterface<SPI, CS> where
    SPI: SerialBus<Error = E>,
    CS: SelectLine<Error = E>,
 {
    /// Asserts the select line and records the request with its answer.
    pub fn select(&mut self) -> (r: Result<(), E>)
        ensures
            final(self).trace() == old(self).trace().push(
                (BusEvent { op: BusOp::Select, result: r }),
            ),
            final(self).bus() == old(self).bus(),
    {
        let r = self.cs.select();
        proof {
            self.trace@ = self.trace@.push(BusEvent { op: BusOp::Select, result: r });
        }
        r
    }

    /// Releases the select line and records the request with its answer.
    pub fn deselect(&mut self) -> (r: Result<(), E>)
        ensures
            final(self).trace() == old(self).trace().push(
                (BusEvent { op: BusOp::Deselect, result: r }),
            ),
            final(self).bus() == old(self).bus(),
    {
        let r = self.cs.deselect();
        proof {
            self.trace@ = self.trace@.push(BusEvent { op: BusOp::Deselect, result: r });
        }
        r
    }

    /// Hands `bytes` to the bus as one transfer and records the request with
    /// its answer.
    pub fn transfer(&mut self, bytes: &[u8]) -> (r: Result<(), E>)
        ensures
            final(self).trace() == old(self).trace().push(
                (BusEvent { op: BusOp::Transfer(bytes@), result: r }),
            ),
            final(self).line() == old(self).line(),
    {
        let r = self.spi.transfer(bytes);
        proof {
            self.trace@ = self.trace@.push(BusEvent { op: BusOp::Transfer(bytes@), result: r });
        }
        r
    }
}

} // verus!
