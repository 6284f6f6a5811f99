//! The four analog inputs and the control bytes that select them.

use vstd::prelude::*;

verus! {

/// An input pin enumeration corresponding to the physical analog input pins.
#[derive(Debug, Clone, Copy, PartialEq, Eq, Structural)]
pub enum Pin {
    /// Input pin 0
    AIN0,
    /// Input pin 1
    AIN1,
    /// Input pin 2
    AIN2,
    /// Input pin 3
    AIN3,
}

impl Pin {
    /// The control byte that makes the chip convert this input: analog
    /// output enabled, four single-ended inputs, no auto-increment, and the
    /// input's number in the two low bits.
    pub open spec fn control(self) -> u8 {
        match self {
            Pin::AIN0 => 0x40,
            Pin::AIN1 => 0x41,
            Pin::AIN2 => 0x42,
            Pin::AIN3 => 0x43,
        }
    }

    /// The input's number, 0 to 3.
    pub open spec fn index(self) -> int {
        match self {
            Pin::AIN0 => 0,
            Pin::AIN1 => 1,
            Pin::AIN2 => 2,
            Pin::AIN3 => 3,
        }
    }

    /// Computes the control byte that selects this input.
    pub fn control_byte(self) -> (byte: u8)
        ensures
            byte == self.control(),
            byte == 0x40 + self.index(),
    {
        match self {
            Pin::AIN0 => 0x40,
            Pin::AIN1 => 0x41,
            Pin::AIN2 => 0x42,
            Pin::AIN3 => 0x43,
        }
    }

    /// Two inputs share a control byte only if they are the same input.
    pub proof fn control_is_injective(a: Pin, b: Pin)
        ensures
            a.control() == b.control() <==> a == b,
    {
    }
}

} // verus!
