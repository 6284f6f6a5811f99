//! The transactions that the driver asks of the bus, and the answers to them.

use vstd::prelude::*;

verus! {

/// The first byte of the two-byte output transaction: the control byte that
/// enables the analog output.
pub const OUTPUT_SELECTOR: u8 = 0x40;

/// One transaction that the driver asks of the bus.
#[derive(Debug, Clone, Copy, PartialEq, Eq, Structural)]
pub enum Request {
    /// Write this byte to the chip.
    WriteByte(u8),
    /// Read one byte from the chip.
    ReadByte,
    /// Write these two bytes to the chip, in this order, as one transaction.
    WriteBuffer(u8, u8),
}

/// How the bus answered one transaction. `E` is the error of whatever
/// carries the transactions out; the driver never looks inside it.
#[derive(Debug, PartialEq, Eq)]
pub enum Reply<E> {
    /// A write went through.
    Written,
    /// A read went through and brought this byte.
    Byte(u8),
    /// The transaction failed.
    Failed(E),
}

impl Request {
    /// True of the two writes, false of the read.
    pub open spec fn is_write(self) -> bool {
        self != Request::ReadByte
    }
}

impl<E> Reply<E> {
    /// Whether this is a possible answer to `request`: a failure answers
    /// anything, `Written` answers a write and `Byte` answers a read.
    pub open spec fn answers(self, request: Request) -> bool {
        match self {
            Reply::Written => request.is_write(),
            Reply::Byte(_) => request == Request::ReadByte,
            Reply::Failed(_) => true,
        }
    }

    /// Whether the transaction went through.
    pub open spec fn delivered(self) -> bool {
        !(self is Failed)
    }

    /// The answer that the outcome of a write stands for.
    pub fn from_write(outcome: Result<(), E>) -> (reply: Reply<E>)
        ensures
            reply == match outcome {
                Ok(_) => Reply::Written,
                Err(error) => Reply::Failed(error),
            },
    {
        match outcome {
            Ok(_) => Reply::Written,
            Err(error) => Reply::Failed(error),
        }
    }

    /// The answer that the outcome of a read stands for.
    pub fn from_read(outcome: Result<u8, E>) -> (reply: Reply<E>)
        ensures
            reply == match outcome {
                Ok(byte) => Reply::Byte(byte),
                Err(error) => Reply::Failed(error),
            },
    {
        match outcome {
            Ok(byte) => Reply::Byte(byte),
            Err(error) => Reply::Failed(error),
        }
    }
}

} // verus!
