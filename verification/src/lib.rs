//! Wire-level framing and initial handshake of a Bitcoin-style peer-to-peer
//! protocol: the message envelope codec with checksum verification, the
//! `version` payload codec (variable-length integers and dual-format
//! IPv4/IPv6 addresses included), and the version/verack handshake driven
//! as a state machine over a caller-supplied byte stream.

pub mod encoding;
pub mod errors;
pub mod handshake;
pub mod messages;
pub mod network;
pub mod utils;
pub mod version;
