//! Error taxonomy for operations on the WiFi module.

use vstd::prelude::*;

verus! {

/// Possible error types that may happen while driving the WiFi module.
///
/// Error details are omitted to keep the interface small. A device-reported
/// protocol failure (an `ERROR` or `FAIL` terminator) is not an `Error`: it
/// is surfaced as a failure-tagged response, and callers must inspect it.
#[derive(Debug, PartialEq, Eq, Clone, Copy, Structural)]
pub enum Error {
    /// An error occurred while receiving bytes from the serial port.
    ReadBuffer,
    /// An error occurred while sending bytes into the serial port.
    WriteBuffer,
    /// The reader buffer filled up before a reply was complete.
    BufferFull,
    /// The operation deadline elapsed before a reply was complete.
    Timeout,
    /// The device refused to join the selected access point.
    JoinApError,
    /// The device sent a reply that the driver could not make sense of.
    UnexpectedReply,
}

} // verus!
