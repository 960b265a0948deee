//! The handshake orchestrator: one attempt drives
//! connect → send version → receive reply → validate → (send verack →) close
//! as a state machine over events a caller-supplied transport reports back.
//! The machine itself never touches a stream; it only decides. Every
//! transition into a terminal state asks the transport to shut the stream
//! down, so no exit path leaves a half-open socket.

use crate::encoding::{
    lemma_i32_le_bytes_round_trip, lemma_i64_le_bytes_round_trip, read_u32_le, write_bytes,
};
use crate::errors::HandshakeError;
use crate::messages::{
    envelope_wf, lemma_envelope_round_trip, spec_decode_envelope, spec_encode_envelope,
    BitcoinMessage, BitcoinMessageView, Serializable,
};
use crate::network::{
    lemma_magic_distinct, spec_encode_address, spec_is_v4_mapped, BitcoinNetwork, IpAddressView,
    NetworkAddress,
};
use crate::utils::{spec_checksum, spec_write_varint, write_varint};
use crate::version::{
    lemma_version_round_trip, spec_decode_version, spec_encode_version, version_wf, Command,
    VersionMessage, VersionMessageView, NODE_NETWORK_SERVICE, PROTOCOL_VERSION,
};
use vstd::bytes::{
    lemma_auto_spec_u64_to_from_le_bytes, spec_u32_from_le_bytes, spec_u64_to_le_bytes,
};
use vstd::prelude::*;
use vstd::slice::slice_to_vec;

verus! {

/// The parameters of one handshake attempt. A session drives exactly one
/// attempt and is discarded on completion or failure.
pub struct HandshakeSession {
    /// The network whose magic tags every outbound envelope and validates
    /// the reply.
    pub network: BitcoinNetwork,
    /// Address entry of this node.
    pub local_address: NetworkAddress,
    /// Address entry of the peer.
    pub remote_address: NetworkAddress,
    /// Software identifier sent in the version payload, as raw bytes.
    pub user_agent: Vec<u8>,
    /// Highest block number sent in the version payload.
    pub start_height: i32,
    /// Whether to acknowledge a valid reply with a verack envelope before
    /// closing.
    pub send_verack: bool,
}

/// A session fits the wire format when its version payload's byte count
/// fits the envelope's 32-bit length field.
pub open spec fn session_wf(s: HandshakeSession) -> bool {
    85 + spec_write_varint(s.user_agent@.len() as u64).len() + s.user_agent@.len() <= u32::MAX
}

impl HandshakeSession {
    /// Whether this session fits the wire format: everything but an absurdly
    /// long user agent does.
    pub fn is_wf(&self) -> (b: bool)
        ensures
            b == session_wf(*self),
    {
        let varint = write_varint(self.user_agent.len() as u64);
        let total: u128 = 85u128 + (varint.len() as u128) + (self.user_agent.len() as u128);
        total <= u32::MAX as u128
    }
}

/// The observable states of a handshake attempt. No state is re-entered;
/// Completed and Failed are terminal and the stream is closed there.
#[derive(Debug, Clone, Copy, PartialEq, Eq, Structural)]
pub enum HandshakeState {
    /// Nothing exchanged yet; the stream is being opened.
    Init,
    /// The version envelope was written and flushed.
    VersionSent,
    /// The reply is being read and validated.
    AwaitingReply,
    /// The reply validated; the stream is closed.
    Completed,
    /// The attempt failed; the stream is closed.
    Failed,
}

/// What the transport reports back to the state machine.
#[derive(Debug)]
pub enum HandshakeEvent {
    /// The stream to the peer is open.
    Connected,
    /// The stream could not be opened.
    ConnectFailed,
    /// The last requested write was written and flushed.
    Sent,
    /// The last requested write failed.
    SendFailed,
    /// The bytes of the last requested read; fewer than requested means the
    /// stream ended early.
    Received(Vec<u8>),
    /// The read timed out.
    ReceiveTimedOut,
    /// The read failed: the stream closed early or reported an error.
    ReceiveFailed,
}

/// What the state machine asks the transport to do next.
#[derive(Debug)]
pub enum HandshakeAction {
    /// Write these bytes and flush.
    Send(Vec<u8>),
    /// Read exactly this many bytes.
    Read(usize),
    /// Write these bytes, then shut the stream down. The attempt is already
    /// complete; the write's outcome does not change it.
    SendThenClose(Vec<u8>),
    /// Shut the stream down, both directions.
    Close,
}

// ---------------------------------------------------------------------------
// Reply validation.
// ---------------------------------------------------------------------------

/// Everything validated of a reply: the envelope parses (checksum comparison
/// included, before the payload is used for anything), its magic belongs to
/// the session's network, its command is the expected `version`, and its
/// payload parses as a version message.
pub open spec fn spec_validate_reply(b: Seq<u8>, network: BitcoinNetwork) -> Result<
    (),
    HandshakeError,
> {
    match spec_decode_envelope(b) {
        Err(e) => Err(e),
        Ok(m) => {
            if m.magic != network.spec_magic_u32() {
                Err(HandshakeError::MagicMismatch)
            } else if m.command != Command::Version.spec_wire_bytes() {
                Err(HandshakeError::CommandMismatch)
            } else {
                match spec_decode_version(m.payload) {
                    Err(e) => Err(e),
                    Ok(_) => Ok(()),
                }
            }
        },
    }
}

/// Decode a full reply envelope and validate it for this network: envelope
/// parse with its checksum comparison, then magic, then command, then the
/// version payload itself.
pub fn validate_reply(bytes: Vec<u8>, network: BitcoinNetwork) -> (r: Result<(), HandshakeError>)
    ensures
        r == spec_validate_reply(bytes@, network),
{
    let m = match BitcoinMessage::deserialize(bytes) {
        Ok(m) => m,
        Err(e) => {
            return Err(e);
        },
    };
    let envelope: BitcoinMessage = *m;
    if envelope.magic != network.as_u32() {
        return Err(HandshakeError::MagicMismatch);
    }
    if !Command::Version.matches_wire(&envelope.command) {
        return Err(HandshakeError::CommandMismatch);
    }
    match VersionMessage::deserialize(envelope.payload) {
        Ok(_) => Ok(()),
        Err(e) => Err(e),
    }
}

// ---------------------------------------------------------------------------
// The state machine.
// ---------------------------------------------------------------------------

/// One handshake attempt: the session's parameters, the version message
/// built for it, and the progress of the exchange.
pub struct Handshake {
    /// The attempt's parameters.
    pub session: HandshakeSession,
    /// The version message this attempt sends. Its nonce and timestamp are
    /// generated fresh when the attempt is created and never reused.
    pub version_message: VersionMessage,
    /// Where the attempt stands.
    pub state: HandshakeState,
    /// The reply's 24-byte envelope header, kept while its payload is read;
    /// empty otherwise.
    pub pending_header: Vec<u8>,
    /// Why the attempt failed, once it has.
    pub error: Option<HandshakeError>,
}

/// The machine invariant: the session fits the wire format, the version
/// message is well-formed and built from the session, an error is recorded
/// exactly in the Failed state, and a header is pending only while the
/// reply's payload is awaited.
pub open spec fn handshake_wf(h: Handshake) -> bool {
    &&& session_wf(h.session)
    &&& version_wf(h.version_message@)
    &&& h.version_message@.receiver == h.session.remote_address@
    &&& h.version_message@.sender == h.session.local_address@
    &&& h.version_message@.user_agent == h.session.user_agent@
    &&& h.version_message@.start_height == h.session.start_height
    &&& (h.error is Some <==> h.state is Failed)
    &&& (h.pending_header@.len() == 0 || (h.pending_header@.len() == 24
        && h.state is AwaitingReply))
}

/// The bytes of the version envelope this attempt sends.
pub open spec fn spec_version_wire(h: Handshake) -> Seq<u8> {
    spec_encode_envelope(
        BitcoinMessageView {
            magic: h.session.network.spec_magic_u32(),
            command: Command::Version.spec_wire_bytes(),
            length: spec_encode_version(h.version_message@).len() as u32,
            checksum: spec_checksum(spec_encode_version(h.version_message@)),
            payload: spec_encode_version(h.version_message@),
        },
    )
}

/// The bytes of the verack envelope that acknowledges a valid reply: an
/// empty payload, whose checksum is a well-defined constant.
pub open spec fn spec_verack_wire(network: BitcoinNetwork) -> Seq<u8> {
    spec_encode_envelope(
        BitcoinMessageView {
            magic: network.spec_magic_u32(),
            command: Command::Verack.spec_wire_bytes(),
            length: 0,
            checksum: spec_checksum(Seq::<u8>::empty()),
            payload: Seq::<u8>::empty(),
        },
    )
}

/// The attempt failed with this error.
pub open spec fn failed_with(h: Handshake, e: HandshakeError) -> bool {
    &&& h.state is Failed
    &&& h.error == Some(e)
}

/// What the machine does once the whole reply (header and payload) is at
/// hand: on a valid reply it completes, acknowledging with a verack first if
/// the session asks for one; on an invalid reply it fails with the
/// validation's error. Either way the stream is shut down.
pub open spec fn spec_completion(
    network: BitcoinNetwork,
    send_verack: bool,
    h: Handshake,
    action: HandshakeAction,
    full: Seq<u8>,
) -> bool {
    match spec_validate_reply(full, network) {
        Ok(_) => {
            &&& h.state is Completed
            &&& h.error is None
            &&& (if send_verack {
                action matches HandshakeAction::SendThenClose(vb) && vb@ == spec_verack_wire(
                    network,
                )
            } else {
                action is Close
            })
        },
        Err(e) => {
            &&& failed_with(h, e)
            &&& action is Close
        },
    }
}

impl Handshake {
    /// The attempt has reached a terminal state.
    pub open spec fn is_terminal(self) -> bool {
        self.state is Completed || self.state is Failed
    }

    /// How many bytes the outstanding read asked for: the 24-byte envelope
    /// header first, then the payload length the header declares.
    pub open spec fn spec_expected_read(self) -> int {
        if self.pending_header@.len() == 0 {
            24
        } else {
            spec_u32_from_le_bytes(self.pending_header@.subrange(16, 20)) as int
        }
    }

    /// Which events answer the outstanding action in each state: the machine
    /// is driven by replies to what it asked for, and a read hands back at
    /// most as many bytes as were requested.
    pub open spec fn accepts(self, event: HandshakeEvent) -> bool {
        match self.state {
            HandshakeState::Init => event is Connected || event is ConnectFailed,
            HandshakeState::VersionSent => event is Sent || event is SendFailed,
            HandshakeState::AwaitingReply => match event {
                HandshakeEvent::Received(b) => b@.len() <= self.spec_expected_read(),
                HandshakeEvent::ReceiveTimedOut => true,
                HandshakeEvent::ReceiveFailed => true,
                _ => false,
            },
            _ => false,
        }
    }

    /// Start one attempt: build the version message for this session, with a
    /// fresh timestamp and a fresh random nonce. The caller opens the stream
    /// to the remote endpoint and reports Connected or ConnectFailed.
    pub fn new(session: HandshakeSession) -> (r: Handshake)
        requires
            session_wf(session),
        ensures
            handshake_wf(r),
            r.state is Init,
            r.session == session,
            r.error is None,
            r.version_message@.version == PROTOCOL_VERSION,
            r.version_message@.services == NODE_NETWORK_SERVICE,
            r.version_message@.timestamp >= 0,
            !r.version_message@.relay,
    {
        let user_agent = slice_to_vec(session.user_agent.as_slice());
        let version_message = VersionMessage::new(
            session.remote_address,
            session.local_address,
            user_agent,
            session.start_height,
            false,
        );
        Handshake {
            session,
            version_message,
            state: HandshakeState::Init,
            pending_header: Vec::new(),
            error: None,
        }
    }

    /// Advance the attempt by one transport event; the result is the next
    /// action for the transport. Terminal states are never left, and every
    /// transition into one asks the transport to shut the stream down.
    pub fn on_event(&mut self, event: HandshakeEvent) -> (action: HandshakeAction)
        requires
            handshake_wf(*old(self)),
            !old(self).is_terminal(),
            old(self).accepts(event),
        ensures
            handshake_wf(*final(self)),
            final(self).session == old(self).session,
            final(self).version_message == old(self).version_message,
            final(self).is_terminal() ==> (action is Close || action is SendThenClose),
            (event is Connected) ==> {
                &&& final(self).state is VersionSent
                &&& final(self).error is None
                &&& (action matches HandshakeAction::Send(b) && b@ == spec_version_wire(
                    *old(self),
                ))
            },
            (event is ConnectFailed) ==> failed_with(*final(self), HandshakeError::ConnectionFailed)
                && action is Close,
            (event is Sent) ==> {
                &&& final(self).state is AwaitingReply
                &&& final(self).error is None
                &&& final(self).pending_header@.len() == 0
                &&& (action matches HandshakeAction::Read(n) && n == 24)
            },
            (event is SendFailed) ==> failed_with(*final(self), HandshakeError::ConnectionFailed)
                && action is Close,
            (event is ReceiveTimedOut) ==> failed_with(*final(self), HandshakeError::Timeout)
                && action is Close,
            (event is ReceiveFailed) ==> failed_with(*final(self), HandshakeError::TruncatedInput)
                && action is Close,
            (event matches HandshakeEvent::Received(b) ==> {
                let net = old(self).session.network;
                let sv = old(self).session.send_verack;
                &&& (old(self).pending_header@.len() == 0 ==> {
                    &&& (b@.len() < 24 ==> failed_with(
                        *final(self),
                        HandshakeError::TruncatedInput,
                    ) && action is Close)
                    &&& (b@.len() == 24 ==> {
                        let length = spec_u32_from_le_bytes(b@.subrange(16, 20));
                        &&& (length == 0 ==> spec_completion(net, sv, *final(self), action, b@))
                        &&& (length > 0 ==> {
                            &&& final(self).state is AwaitingReply
                            &&& final(self).error is None
                            &&& final(self).pending_header@ == b@
                            &&& (action matches HandshakeAction::Read(n) && n == length)
                        })
                    })
                })
                &&& (old(self).pending_header@.len() == 24 ==> spec_completion(
                    net,
                    sv,
                    *final(self),
                    action,
                    old(self).pending_header@ + b@,
                ))
            }),
    {
        match event {
            HandshakeEvent::Connected => {
                let payload = match self.version_message.serialize() {
                    Ok(p) => p,
                    Err(_) => {
                        proof {
                            assert(false);
                        }
                        Vec::new()
                    },
                };
                proof {
                    lemma_version_payload_len(self.version_message@);
                }
                let envelope = BitcoinMessage::new(
                    Command::Version,
                    payload,
                    self.session.network,
                );
                let bytes = match envelope.serialize() {
                    Ok(b) => b,
                    Err(_) => {
                        proof {
                            assert(false);
                        }
                        Vec::new()
                    },
                };
                proof {
                    assert(envelope@ == BitcoinMessageView {
                        magic: self.session.network.spec_magic_u32(),
                        command: Command::Version.spec_wire_bytes(),
                        length: spec_encode_version(self.version_message@).len() as u32,
                        checksum: spec_checksum(spec_encode_version(self.version_message@)),
                        payload: spec_encode_version(self.version_message@),
                    });
                }
                self.state = HandshakeState::VersionSent;
                HandshakeAction::Send(bytes)
            },
            HandshakeEvent::ConnectFailed => {
                self.state = HandshakeState::Failed;
                self.error = Some(HandshakeError::ConnectionFailed);
                HandshakeAction::Close
            },
            HandshakeEvent::Sent => {
                self.state = HandshakeState::AwaitingReply;
                HandshakeAction::Read(24)
            },
            HandshakeEvent::SendFailed => {
                self.state = HandshakeState::Failed;
                self.error = Some(HandshakeError::ConnectionFailed);
                HandshakeAction::Close
            },
            HandshakeEvent::ReceiveTimedOut => {
                self.state = HandshakeState::Failed;
                self.error = Some(HandshakeError::Timeout);
                self.pending_header = Vec::new();
                HandshakeAction::Close
            },
            HandshakeEvent::ReceiveFailed => {
                self.state = HandshakeState::Failed;
                self.error = Some(HandshakeError::TruncatedInput);
                self.pending_header = Vec::new();
                HandshakeAction::Close
            },
            HandshakeEvent::Received(b) => {
                if self.pending_header.len() == 0 {
                    if b.len() < 24 {
                        self.state = HandshakeState::Failed;
                        self.error = Some(HandshakeError::TruncatedInput);
                        HandshakeAction::Close
                    } else {
                        let length = read_u32_le(&b, 16);
                        if length == 0 {
                            let outcome = validate_reply(b, self.session.network);
                            self.finish(outcome)
                        } else {
                            self.pending_header = b;
                            HandshakeAction::Read(length as usize)
                        }
                    }
                } else {
                    let mut full: Vec<u8> = Vec::new();
                    write_bytes(&mut full, self.pending_header.as_slice());
                    write_bytes(&mut full, b.as_slice());
                    self.pending_header = Vec::new();
                    let outcome = validate_reply(full, self.session.network);
                    self.finish(outcome)
                }
            },
        }
    }

    /// Enter the terminal state a validation outcome dictates, acknowledging
    /// a valid reply with a verack first if the session asks for one.
    fn finish(&mut self, outcome: Result<(), HandshakeError>) -> (action: HandshakeAction)
        requires
            handshake_wf(*old(self)),
            !old(self).is_terminal(),
            old(self).pending_header@.len() == 0,
        ensures
            handshake_wf(*final(self)),
            final(self).session == old(self).session,
            final(self).version_message == old(self).version_message,
            final(self).is_terminal(),
            action is Close || action is SendThenClose,
            (match outcome {
                Ok(_) => {
                    &&& final(self).state is Completed
                    &&& final(self).error is None
                    &&& (if old(self).session.send_verack {
                        action matches HandshakeAction::SendThenClose(vb) && vb@
                            == spec_verack_wire(old(self).session.network)
                    } else {
                        action is Close
                    })
                },
                Err(e) => failed_with(*final(self), e) && action is Close,
            }),
    {
        match outcome {
            Ok(_) => {
                self.state = HandshakeState::Completed;
                if self.session.send_verack {
                    let verack = BitcoinMessage::new(
                        Command::Verack,
                        Vec::new(),
                        self.session.network,
                    );
                    let vb = match verack.serialize() {
                        Ok(x) => x,
                        Err(_) => {
                            proof {
                                assert(false);
                            }
                            Vec::new()
                        },
                    };
                    proof {
                        assert(verack@ == BitcoinMessageView {
                            magic: self.session.network.spec_magic_u32(),
                            command: Command::Verack.spec_wire_bytes(),
                            length: 0,
                            checksum: spec_checksum(Seq::<u8>::empty()),
                            payload: Seq::<u8>::empty(),
                        });
                    }
                    HandshakeAction::SendThenClose(vb)
                } else {
                    HandshakeAction::Close
                }
            },
            Err(e) => {
                self.state = HandshakeState::Failed;
                self.error = Some(e);
                HandshakeAction::Close
            },
        }
    }
}

// ---------------------------------------------------------------------------
// Validation laws.
// ---------------------------------------------------------------------------

/// A conforming reply is accepted: any well-formed version payload, framed
/// for the session's network under the `version` command, validates Ok.
pub proof fn lemma_conforming_reply_accepted(v: VersionMessageView, network: BitcoinNetwork)
    requires
        version_wf(v),
        85 + spec_write_varint(v.user_agent.len() as u64).len() + v.user_agent.len() <= u32::MAX,
        (v.receiver.ip matches IpAddressView::V6(b) ==> !spec_is_v4_mapped(b)),
        (v.sender.ip matches IpAddressView::V6(b) ==> !spec_is_v4_mapped(b)),
    ensures
        spec_validate_reply(
            spec_encode_envelope(
                BitcoinMessageView {
                    magic: network.spec_magic_u32(),
                    command: Command::Version.spec_wire_bytes(),
                    length: spec_encode_version(v).len() as u32,
                    checksum: spec_checksum(spec_encode_version(v)),
                    payload: spec_encode_version(v),
                },
            ),
            network,
        ) == Ok::<(), HandshakeError>(()),
{
    lemma_version_payload_len(v);
    let payload = spec_encode_version(v);
    let env = BitcoinMessageView {
        magic: network.spec_magic_u32(),
        command: Command::Version.spec_wire_bytes(),
        length: payload.len() as u32,
        checksum: spec_checksum(payload),
        payload,
    };
    assert(envelope_wf(env));
    lemma_envelope_round_trip(env);
    lemma_version_round_trip(v);
}

/// A reply framed for another network is rejected with MagicMismatch,
/// whatever its payload holds.
pub proof fn lemma_wrong_magic_rejected(
    env: BitcoinMessageView,
    network: BitcoinNetwork,
    tagged: BitcoinNetwork,
)
    requires
        envelope_wf(env),
        env.payload.len() <= u32::MAX,
        env.magic == tagged.spec_magic_u32(),
        tagged != network,
    ensures
        spec_validate_reply(spec_encode_envelope(env), network) == Err::<(), HandshakeError>(
            HandshakeError::MagicMismatch,
        ),
{
    lemma_envelope_round_trip(env);
    lemma_magic_distinct(tagged, network);
}

/// The version payload's byte count: the 85 fixed bytes plus the user
/// agent's length prefix and bytes. With a well-formed session it fits the
/// envelope's 32-bit length field.
pub proof fn lemma_version_payload_len(v: VersionMessageView)
    requires
        version_wf(v),
    ensures
        spec_encode_version(v).len() == 85 + spec_write_varint(v.user_agent.len() as u64).len()
            + v.user_agent.len(),
{
    lemma_auto_spec_u64_to_from_le_bytes();
    assert(spec_u64_to_le_bytes(v.services).len() == 8);
    assert(spec_u64_to_le_bytes(v.nonce).len() == 8);
    lemma_i32_le_bytes_round_trip(v.version);
    lemma_i32_le_bytes_round_trip(v.start_height);
    lemma_i64_le_bytes_round_trip(v.timestamp);
    assert(spec_encode_address(v.receiver).len() == 26);
    assert(spec_encode_address(v.sender).len() == 26);
}

} // verus!
