//! Driver logic for the AS5048A 14-bit magnetic rotary position sensor.
//!
//! The sensor is reached over a half-duplex command/response serial bus. This
//! crate holds the bus-independent part of the driver: parity framing, the
//! register map, the read and write transaction sequences and the decoding of
//! register contents. Every transfer on the bus is carried out by the caller,
//! who feeds the received bytes back into the state machines defined here.
pub mod bitfield;
pub mod diagnostics;
pub mod driver;
pub mod error;
pub mod exchange;
pub mod frame;
pub mod parity;
pub mod register;
pub mod zero_position;

pub use diagnostics::Diagnostics;
pub use driver::{As5048a, ANGLE_MAX};
pub use error::Error;
pub use parity::{calculate_parity, verify_parity};
pub use register::Register;
