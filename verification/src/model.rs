//! What the contracts are measured against: the course of one operation
//! over a given run of answers, and the chip at the other end of the bus.

use vstd::prelude::*;
use crate::bus::{Reply, Request};
use crate::driver::{Phase, State, Step};
use crate::pin::Pin;

verus! {

/// One operation as its owner sees it.
pub struct Course<E> {
    /// The session where the course stops.
    pub state: State,
    /// The transactions that were asked of the bus, in order.
    pub issued: Seq<Request>,
    /// What ended the operation; none where it is still waiting for an
    /// answer.
    pub end: Option<Step<E>>,
}

impl State {
    /// The course of the operation under way when the bus gives `replies`,
    /// one to each transaction in turn. The owner performs the pending
    /// transaction, hands in the answer, and goes on for as long as it is
    /// given another transaction; answers that are left over stay unused.
    pub open spec fn course<E>(self, replies: Seq<Reply<E>>) -> Course<E>
        decreases replies.len(),
    {
        match self.pending() {
            None => Course { state: self, issued: Seq::empty(), end: None },
            Some(request) => if replies.len() == 0 {
                Course { state: self, issued: seq![request], end: None }
            } else {
                let next = self.advance(replies.first());
                match self.outcome(replies.first()) {
                    Step::Issue(_) => {
                        let rest = next.course(replies.drop_first());
                        Course {
                            state: rest.state,
                            issued: seq![request] + rest.issued,
                            end: rest.end,
                        }
                    },
                    step => Course { state: next, issued: seq![request], end: Some(step) },
                }
            },
        }
    }
}

/// What the chip has been told over the bus.
pub struct Chip {
    /// The control byte of the latest input selection; none once the analog
    /// output has been written since.
    pub selection: Option<u8>,
    /// Whether a read has gone through since the latest write, so that the
    /// byte the chip holds is a conversion of the selected input and no
    /// longer a leftover from before.
    pub fresh: bool,
    /// The byte that was last written to the analog output.
    pub output: u8,
}

impl Chip {
    /// The chip after it has taken `request`.
    pub open spec fn perform(self, request: Request) -> Chip {
        match request {
            Request::WriteByte(control) => Chip {
                selection: Some(control),
                fresh: false,
                output: self.output,
            },
            Request::ReadByte => Chip { selection: self.selection, fresh: true, output: self.output },
            Request::WriteBuffer(_, value) => Chip { selection: None, fresh: false, output: value },
        }
    }

    /// Whether the next byte read from the chip is a conversion of `pin`.
    pub open spec fn holds_sample_of(self, pin: Pin) -> bool {
        self.selection == Some(pin.control()) && self.fresh
    }
}

/// One thing that the owner of a session does with it.
pub enum Call<E> {
    /// Begins a read of this input.
    Read(Pin),
    /// Begins a write of this byte to the analog output.
    Write(u8),
    /// Hands in this answer of the bus.
    Answer(Reply<E>),
}

/// A session together with the chip that it talks to.
pub struct World {
    /// The session.
    pub driver: State,
    /// The chip.
    pub chip: Chip,
}

impl World {
    /// A new session in front of a chip in any condition.
    pub open spec fn initial(chip: Chip) -> World {
        World { driver: State::fresh(), chip }
    }

    /// The world after `call`. A transaction reaches the chip where the
    /// bus reports that it went through; one that failed, or was never
    /// answered, did not reach it.
    pub open spec fn after<E>(self, call: Call<E>) -> World {
        match call {
            Call::Read(pin) => World { driver: self.driver.start_read(pin), chip: self.chip },
            Call::Write(value) => World { driver: self.driver.start_write(value), chip: self.chip },
            Call::Answer(reply) => World {
                driver: self.driver.advance(reply),
                chip: match self.driver.pending() {
                    Some(request) => if reply.delivered() && reply.answers(request) {
                        self.chip.perform(request)
                    } else {
                        self.chip
                    },
                    None => self.chip,
                },
            },
        }
    }

    /// The world after all of `calls`, in order.
    pub open spec fn run<E>(self, calls: Seq<Call<E>>) -> World
        decreases calls.len(),
    {
        if calls.len() == 0 {
            self
        } else {
            self.run(calls.drop_last()).after(calls.last())
        }
    }

    /// Whether the session is right about the chip: an input that it takes
    /// for selected is the one that the chip was last told to convert, with
    /// no output write since, and the chip holds a sample of it; and an
    /// input whose leftover byte is being read is the one that the chip was
    /// last told to convert.
    pub open spec fn consistent(self) -> bool {
        &&& self.driver.coherent()
        &&& self.driver.selected matches Some(pin) ==> self.chip.holds_sample_of(pin)
        &&& self.driver.phase matches Phase::Discarding(pin) ==> self.chip.selection == Some(
            pin.control(),
        )
    }
}

} // verus!
