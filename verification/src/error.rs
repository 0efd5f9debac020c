//! Error values of the protocol layer.

use vstd::prelude::*;

verus! {

/// A failure of the byte channel to the device. The library never raises
/// one itself; callers that perform the I/O report theirs in these terms.
#[derive(Clone, Copy, Debug, PartialEq, Eq, Structural)]
pub enum TransportError {
    OpenFailed,
    WriteFailed,
    ReadFailed,
    Disconnected,
}

/// A violation of the TAP or handshake protocol.
#[derive(Clone, Copy, Debug, PartialEq, Eq, Structural)]
pub enum ProtocolError {
    /// No response byte arrived within the allowed number of polls.
    SyncTimeout,
    /// The acknowledgment frame was not the expected one.
    SyncMismatch,
    /// An instruction of fewer than two bits.
    InstructionTooShort,
    /// A data payload of fewer than two bytes.
    PayloadTooShort,
}

/// A request that the command encoding cannot express.
#[derive(Clone, Copy, Debug, PartialEq, Eq, Structural)]
pub enum EncodingError {
    /// A bit count outside 1 to 7, or a byte count beyond what the length
    /// field of a command holds.
    LengthOutOfRange,
}

/// Any error of the library.
#[derive(Clone, Copy, Debug, PartialEq, Eq, Structural)]
pub enum JtagError {
    Transport(TransportError),
    Protocol(ProtocolError),
    Encoding(EncodingError),
}

} // verus!
