//! The failure conditions of the codec and of a handshake attempt.

use vstd::prelude::*;

verus! {

/// Everything that can go wrong while framing, parsing or exchanging
/// messages. All conditions are local and non-retriable; retry policy is a
/// caller concern.
#[derive(Debug, Clone, Copy, PartialEq, Eq, Structural)]
pub enum HandshakeError {
    /// The transport could not open the connection or lost it mid-write.
    ConnectionFailed,
    /// Fewer bytes were available than the wire format requires.
    TruncatedInput,
    /// The recomputed checksum of a payload does not equal the stored one.
    ChecksumMismatch,
    /// The envelope's magic does not belong to the expected network.
    MagicMismatch,
    /// The envelope carries a command other than the expected one.
    CommandMismatch,
    /// The peer's declared protocol version is below the supported floor.
    UnsupportedProtocolVersion,
    /// A command name does not fit the fixed 12-byte wire field.
    CommandTooLong,
    /// A variable-length integer was cut short or would overflow 64 bits.
    MalformedVarint,
    /// The transport reported a timeout while awaiting the reply.
    Timeout,
}

} // verus!
