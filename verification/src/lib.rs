//! Driver core for the PCF8591, an 8-bit converter with four analog inputs
//! and one analog output behind a two-wire serial bus.
//!
//! The driver performs no bus transfer itself. It decides which transaction
//! comes next and what the answer to it means, and whoever owns the bus
//! carries the transactions out. Every decision is verified against a model
//! of the chip's control register and its one-conversion delay.

pub mod bus;
pub mod driver;
pub mod laws;
pub mod model;
pub mod pin;

pub use bus::{Reply, Request, OUTPUT_SELECTOR};
pub use driver::{Phase, State, Step, PCF8591};
pub use pin::Pin;
