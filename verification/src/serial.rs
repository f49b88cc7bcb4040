//! The non-blocking byte source and sink that the host supplies.
//!
//! The driver is generic over these two capabilities. Every read or write
//! primitive returns immediately; "blocking" operations of the driver are a
//! spin-retry over these primitives. Nothing is assumed about what a source
//! or sink does: the driver's contracts state what holds of every outcome.

use vstd::prelude::*;

verus! {

/// Outcome of one non-blocking read attempt.
#[derive(Debug, Clone, Copy, PartialEq, Eq, Structural)]
pub enum ReadOutcome {
    /// One byte arrived.
    Byte(u8),
    /// No data is available right now; try again later.
    WouldBlock,
    /// The transport failed.
    Failed,
}

/// Outcome of one non-blocking write attempt.
#[derive(Debug, Clone, Copy, PartialEq, Eq, Structural)]
pub enum WriteOutcome {
    /// The byte was accepted.
    Accepted,
    /// The sink cannot take a byte right now; try again later.
    WouldBlock,
    /// The transport failed.
    Failed,
}

/// A non-blocking byte source.
pub trait SerialRead {
    /// Attempts to read one byte without blocking.
    fn read_byte(&mut self) -> ReadOutcome;
}

/// A non-blocking byte sink.
pub trait SerialWrite {
    /// Attempts to write one byte without blocking.
    fn write_byte(&mut self, byte: u8) -> WriteOutcome;
}

} // verus!
