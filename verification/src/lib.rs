//! Register access driver for a three-phase gate-driver IC controlled over a
//! 16-bit full-duplex SPI protocol.
//!
//! The crate is layered bottom-up: [`frame`] packs and unpacks the 16-bit
//! command and response frames, [`fields`] holds the register catalogue and
//! the bit-field schema of each register, [`engine`] runs the wire protocol
//! (one exchange per write, two per read) over an abstract [`Transport`],
//! and [`driver`] exposes the named device operations as single reads or
//! read-modify-write sequences.

pub mod driver;
pub mod engine;
pub mod fields;
pub mod frame;
pub mod sim;
pub mod status;

pub use driver::{CurrentDrvDriverInterface, Drv8301};
pub use engine::{DrvError, DrvInterface, Transport};
pub use fields::{GateCurrent, OcAdjSet, OcpMode, OctwMode, ShuntAmplifierGain};
pub use status::FaultStatus;
pub use frame::{decode_response, encode_read, encode_write};
