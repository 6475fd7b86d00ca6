//! Sans-I/O core of a driver for the FXOS8700CQ accelerometer and
//! magnetometer.
//!
//! The sensor sits on a shared, non-blocking register bus and signals a ready
//! sample on an interrupt line. This crate holds everything the driver
//! decides: which register transfer comes next, what a completion means in
//! each protocol state, who holds the one transfer buffer, and how raw bytes
//! become axis values. It performs no I/O. Every entry point of
//! [`Fxos8700cq`] takes one event and answers with a [`Reaction`] that the
//! host carries out on the bus, the interrupt pin and the registered client.
//!
//! The transitions are specified by the functions of [`model`] and the
//! properties that hold of them are proved in [`laws`].

pub mod decode;
pub mod driver;
pub mod laws;
pub mod model;
pub mod protocol;
pub mod registers;

pub use decode::Sample;
pub use driver::Fxos8700cq;
pub use protocol::{
    BusOp, Callback, Level, PinOp, ProtocolState, Reaction, RequestError, Transfer,
    TransportError,
};
