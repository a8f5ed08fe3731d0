//! Verified core of a bridge between motion-sensing controllers and a
//! tracking server.
//!
//! The crate holds the parts that decide: the datagram layouts, the
//! handshake retry state machine, the device table with its sensor slots and
//! the bookkeeping of one pass of the aggregator loop. It performs no input
//! or output and holds no floating-point value: a number that is a float on
//! the wire or in an estimator travels through the crate as its IEEE-754 bit
//! pattern.

pub mod wire;
pub mod events;
pub mod devices;
pub mod liveness;
pub mod aggregator;
pub mod history;
pub mod acquisition;
