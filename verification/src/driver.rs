//! The converter's session: which input the chip is known to convert, and
//! how far the operation under way has come.

use vstd::prelude::*;
use crate::bus::{Reply, Request, OUTPUT_SELECTOR};
use crate::pin::Pin;

verus! {

/// How far the operation under way has come.
#[derive(Debug, Clone, Copy, PartialEq, Eq, Structural)]
pub enum Phase {
    /// No operation is under way.
    Idle,
    /// The control byte for this input is on its way to the chip.
    Selecting(Pin),
    /// The chip converts this input; the byte it still holds from before
    /// the switch is being read, to be thrown away.
    Discarding(Pin),
    /// The conversion of this input is being read.
    Sampling(Pin),
    /// This byte is on its way to the analog output.
    Writing(u8),
}

/// What a session knows, apart from the connection it owns.
pub struct State {
    /// The input that the chip converts and has a sample of, if known.
    pub selected: Option<Pin>,
    /// How far the operation under way has come.
    pub phase: Phase,
}

/// What the driver makes of a reply.
#[derive(Debug, PartialEq, Eq)]
pub enum Step<E> {
    /// The operation goes on with this transaction.
    Issue(Request),
    /// The read is over, and this byte is the conversion.
    Sampled(u8),
    /// The output write is over.
    Written,
    /// The operation is over: the bus failed with this error.
    Failed(E),
    /// The reply answers nothing that the driver waits for. Nothing changed.
    Ignored,
}

impl State {
    /// A session that has done nothing yet: no input is known to be
    /// selected and no operation is under way.
    pub open spec fn fresh() -> State {
        State { selected: None, phase: Phase::Idle }
    }

    /// Whether what the session takes for selected goes with what it is
    /// doing: the sample of an input is read only while that input is
    /// selected, and no input is selected between the select and the read
    /// that is thrown away, nor during a write to the analog output.
    pub open spec fn coherent(self) -> bool {
        match self.phase {
            Phase::Idle => true,
            Phase::Selecting(_) => true,
            Phase::Discarding(_) => self.selected is None,
            Phase::Sampling(pin) => self.selected == Some(pin),
            Phase::Writing(_) => self.selected is None,
        }
    }

    /// The transaction whose answer the session waits for, if any.
    pub open spec fn pending(self) -> Option<Request> {
        match self.phase {
            Phase::Idle => None,
            Phase::Selecting(pin) => Some(Request::WriteByte(pin.control())),
            Phase::Discarding(_) => Some(Request::ReadByte),
            Phase::Sampling(_) => Some(Request::ReadByte),
            Phase::Writing(value) => Some(Request::WriteBuffer(OUTPUT_SELECTOR, value)),
        }
    }

    /// The session once a read of `pin` has begun. Where the chip is known
    /// to convert `pin` the read goes straight to the sample; otherwise the
    /// input is selected first. An operation that was under way is given up.
    pub open spec fn start_read(self, pin: Pin) -> State {
        State {
            selected: self.selected,
            phase: if self.selected == Some(pin) {
                Phase::Sampling(pin)
            } else {
                Phase::Selecting(pin)
            },
        }
    }

    /// The session once a write of `value` to the analog output has begun.
    /// Whatever input was selected is forgotten at once. An operation that
    /// was under way is given up.
    pub open spec fn start_write(self, value: u8) -> State {
        State { selected: None, phase: Phase::Writing(value) }
    }

    /// The session after `reply` came in.
    ///
    /// A failure ends the operation. A failed select leaves the selected
    /// input as it was. Once the select has gone through, the input that
    /// was selected before is forgotten, so that a failure of the read that
    /// follows leaves no input selected; the new input counts as selected
    /// when that read has gone through. A reply that does not answer the
    /// pending transaction changes nothing.
    pub open spec fn advance<E>(self, reply: Reply<E>) -> State {
        match (self.phase, reply) {
            (Phase::Selecting(pin), Reply::Written) => State {
                selected: None,
                phase: Phase::Discarding(pin),
            },
            (Phase::Discarding(pin), Reply::Byte(_)) => State {
                selected: Some(pin),
                phase: Phase::Sampling(pin),
            },
            (Phase::Sampling(_), Reply::Byte(_)) => State { selected: self.selected, phase: Phase::Idle },
            (Phase::Writing(_), Reply::Written) => State { selected: self.selected, phase: Phase::Idle },
            (Phase::Idle, _) => self,
            (Phase::Discarding(_), Reply::Failed(_)) => State { selected: None, phase: Phase::Idle },
            (_, Reply::Failed(_)) => State { selected: self.selected, phase: Phase::Idle },
            _ => self,
        }
    }

    /// What the owner of the bus is told when `reply` comes in.
    pub open spec fn outcome<E>(self, reply: Reply<E>) -> Step<E> {
        match (self.phase, reply) {
            (Phase::Selecting(_), Reply::Written) => Step::Issue(Request::ReadByte),
            (Phase::Discarding(_), Reply::Byte(_)) => Step::Issue(Request::ReadByte),
            (Phase::Sampling(_), Reply::Byte(byte)) => Step::Sampled(byte),
            (Phase::Writing(_), Reply::Written) => Step::Written,
            (Phase::Idle, _) => Step::Ignored,
            (_, Reply::Failed(error)) => Step::Failed(error),
            _ => Step::Ignored,
        }
    }
}

/// A struct to handle the PCF8591 converter.
///
/// It owns the connection `D` to the chip for as long as it lives, and
/// never touches it: `analog_read_byte` and `analog_write_byte` begin an
/// operation and name its first transaction, the owner performs each
/// transaction on the connection, and `advance` takes the answer.
pub struct PCF8591<D> {
    connection: D,
    pin: Option<Pin>,
    phase: Phase,
}

impl<D> View for PCF8591<D> {
    type V = State;

    closed spec fn view(&self) -> State {
        State { selected: self.pin, phase: self.phase }
    }
}

impl<D> PCF8591<D> {
    /// The connection that the session owns.
    pub closed spec fn bus(&self) -> D {
        self.connection
    }

    /// Makes the session for a connection that was just opened, or hands on
    /// the error where opening failed. A new session knows of no selected
    /// input and has no operation under way.
    pub fn new<E>(opened: Result<D, E>) -> (session: Result<PCF8591<D>, E>)
        ensures
            match opened {
                Ok(bus) => session matches Ok(made) && made.bus() == bus && made@ == State::fresh()
                    && made@.coherent(),
                Err(error) => session matches Err(passed) && passed == error,
            },
    {
        match opened {
            Ok(connection) => Ok(PCF8591 { connection, pin: None, phase: Phase::Idle }),
            Err(error) => Err(error),
        }
    }

    /// Begins a read of the analog input `pin` and returns the first
    /// transaction to perform: the read of the sample where the chip is
    /// known to convert `pin`, otherwise the write of the control byte that
    /// selects it.
    pub fn analog_read_byte(&mut self, pin: Pin) -> (request: Request)
        ensures
            final(self)@ == old(self)@.start_read(pin),
            old(self)@.coherent() ==> final(self)@.coherent(),
            final(self).bus() == old(self).bus(),
            final(self)@.pending() == Some(request),
            request == if old(self)@.selected == Some(pin) {
                Request::ReadByte
            } else {
                Request::WriteByte(pin.control())
            },
    {
        let cached = match self.pin {
            Some(known) => known == pin,
            None => false,
        };
        if cached {
            self.phase = Phase::Sampling(pin);
            Request::ReadByte
        } else {
            self.phase = Phase::Selecting(pin);
            Request::WriteByte(pin.control_byte())
        }
    }

    /// Begins a write of `value` to the analog output and returns the
    /// transaction to perform: the output selector and `value`, as one
    /// two-byte write. The selected input is forgotten whether or not the
    /// write goes through.
    pub fn analog_write_byte(&mut self, value: u8) -> (request: Request)
        ensures
            final(self)@ == old(self)@.start_write(value),
            old(self)@.coherent() ==> final(self)@.coherent(),
            final(self).bus() == old(self).bus(),
            final(self)@.pending() == Some(request),
            request == Request::WriteBuffer(OUTPUT_SELECTOR, value),
    {
        self.pin = None;
        self.phase = Phase::Writing(value);
        Request::WriteBuffer(OUTPUT_SELECTOR, value)
    }

    /// Takes the answer of the bus to the pending transaction and says how
    /// the operation goes on: with another transaction, or not at all,
    /// because it is over or because the bus failed. The error of a failed
    /// transaction is handed on as it came.
    pub fn advance<E>(&mut self, reply: Reply<E>) -> (step: Step<E>)
        ensures
            final(self)@ == old(self)@.advance(reply),
            old(self)@.coherent() ==> final(self)@.coherent(),
            final(self).bus() == old(self).bus(),
            step == old(self)@.outcome(reply),
            step matches Step::Issue(request) ==> final(self)@.pending() == Some(request),
            old(self)@.pending() is Some ==> (reply matches Reply::Failed(error) ==> step
                == Step::Failed(error)),
    {
        match self.phase {
            Phase::Idle => Step::Ignored,
            Phase::Selecting(pin) => match reply {
                Reply::Written => {
                    self.pin = None;
                    self.phase = Phase::Discarding(pin);
                    Step::Issue(Request::ReadByte)
                },
                Reply::Byte(_) => Step::Ignored,
                Reply::Failed(error) => {
                    self.phase = Phase::Idle;
                    Step::Failed(error)
                },
            },
            Phase::Discarding(pin) => match reply {
                Reply::Byte(_) => {
                    self.pin = Some(pin);
                    self.phase = Phase::Sampling(pin);
                    Step::Issue(Request::ReadByte)
                },
                Reply::Written => Step::Ignored,
                Reply::Failed(error) => {
                    self.pin = None;
                    self.phase = Phase::Idle;
                    Step::Failed(error)
                },
            },
            Phase::Sampling(_) => match reply {
                Reply::Byte(byte) => {
                    self.phase = Phase::Idle;
                    Step::Sampled(byte)
                },
                Reply::Written => Step::Ignored,
                Reply::Failed(error) => {
                    self.phase = Phase::Idle;
                    Step::Failed(error)
                },
            },
            Phase::Writing(_) => match reply {
                Reply::Written => {
                    self.phase = Phase::Idle;
                    Step::Written
                },
                Reply::Byte(_) => Step::Ignored,
                Reply::Failed(error) => {
                    self.phase = Phase::Idle;
                    Step::Failed(error)
                },
            },
        }
    }

    /// The input that the chip is known to convert, if any.
    pub fn selected(&self) -> (pin: Option<Pin>)
        ensures
            pin == self@.selected,
    {
        self.pin
    }

    /// The transaction whose answer the session waits for, if any.
    pub fn pending(&self) -> (request: Option<Request>)
        ensures
            request == self@.pending(),
    {
        match self.phase {
            Phase::Idle => None,
            Phase::Selecting(pin) => Some(Request::WriteByte(pin.control_byte())),
            Phase::Discarding(_) => Some(Request::ReadByte),
            Phase::Sampling(_) => Some(Request::ReadByte),
            Phase::Writing(value) => Some(Request::WriteBuffer(OUTPUT_SELECTOR, value)),
        }
    }

    /// Hands out the connection, to perform a transaction on it.
    pub fn connection(&mut self) -> (bus: &mut D)
        ensures
            *bus == old(self).bus(),
            final(self).bus() == *final(bus),
            final(self)@ == old(self)@,
    {
        &mut self.connection
    }
}

} // verus!
