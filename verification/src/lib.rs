//! Protocol core of a driver for the PN532 contactless-card reader.
//!
//! The chip sits on a shared two-wire bus and speaks a byte-oriented framing
//! protocol. This crate holds everything about that protocol that can be said
//! without touching the bus: how a command becomes a frame, how an
//! acknowledgement or a response is found in a snapshot of the bus, how a
//! response payload is read, and in which order an operation asks for these
//! things. Moving bytes and measuring time are left to the caller.

pub mod command;
pub mod driver;
pub mod error;
pub mod frame;
pub mod response;
pub mod scan;

pub use command::CardType;
pub use command::Command;
pub use command::Operation;
pub use driver::Action;
pub use driver::Phase;
pub use driver::Pn532;
pub use driver::Reply;
pub use error::Error;
