//! Canonical events and the session error taxonomy.
//!
//! Every inbound packet kind has several wire shapes across protocol
//! versions; the codec boundary normalizes them to one canonical value per
//! kind before this library sees them, and turns canonical outbound events
//! back into the version's wire shape.

use vstd::prelude::*;
use crate::step::StepViolation;

verus! {

/// A session identity wire value: either the textual or the binary encoding,
/// depending on protocol version.  It is normalized to the canonical
/// identity of `crate::ident` on login.
#[derive(Debug)]
pub enum UuidWire {
    Text(String),
    Bits(u64, u64),
}

/// A channel reference carried by the mod-list exchange: a channel name and
/// its version marker.  Echoed verbatim in the reply.
#[derive(Debug)]
pub struct ChannelRef {
    pub name: String,
    pub marker: String,
}

/// One decoded message of the nested mod-handshake sub-protocol.
#[derive(Debug)]
pub enum FmlMessage {
    ModList {
        mod_names: Vec<String>,
        channels: Vec<ChannelRef>,
        registries: Vec<String>,
    },
    ServerRegistry {
        name: String,
    },
    ConfigurationData {
        filename: String,
        contents: Vec<u8>,
    },
    /// A decoded inner kind outside the closed handled set.
    Unknown,
}

/// A reply of the nested mod-handshake sub-protocol.
#[derive(Debug)]
pub enum FmlReply {
    ModListReply {
        mod_names: Vec<String>,
        channels: Vec<ChannelRef>,
        registries: Vec<String>,
    },
    Acknowledgement,
}

/// One canonical inbound event.
#[derive(Debug)]
pub enum InboundEvent {
    KeepAlive {
        id: i64,
    },
    ServerMessage {
        position: u8,
        primary: String,
        extras: Vec<String>,
    },
    JoinGame,
    TeleportPlayer {
        teleport_id: i32,
    },
    SetCompression {
        threshold: i32,
    },
    EncryptionRequest {
        server_id: String,
        public_key: Vec<u8>,
        verify_token: Vec<u8>,
    },
    LoginSuccess {
        username: String,
        uuid: UuidWire,
    },
    LoginDisconnect {
        reason: String,
    },
    /// The outer plugin request: the codec hands over the outer channel, the
    /// inner channel name and the decoded inner message; the decisions on
    /// all three stay here.
    LoginPluginRequest {
        message_id: i32,
        channel: String,
        inner_channel: String,
        message: FmlMessage,
    },
}

/// One canonical outbound event.
#[derive(Debug)]
pub enum OutboundEvent {
    Handshake {
        protocol_version: i32,
        host: String,
        port: u16,
        next: i32,
    },
    LoginStart {
        username: String,
    },
    /// The newer, length-prefixed encryption reply shape.
    EncryptionResponse {
        shared_secret: Vec<u8>,
        verify_token: Vec<u8>,
    },
    /// The older, fixed-width encryption reply shape.
    EncryptionResponseLegacy {
        shared_secret: Vec<u8>,
        verify_token: Vec<u8>,
    },
    /// A mod-handshake reply, correlated to the outer message id of the
    /// request that triggered it.
    TunnelReply {
        message_id: i32,
        reply: FmlReply,
    },
    KeepAliveReply {
        id: i64,
    },
    ChatMessage {
        message: String,
    },
    ClientSettings {
        locale: String,
        view_distance: u8,
        chat_mode: i32,
        chat_colors: bool,
        displayed_skin_parts: u8,
        main_hand: i32,
    },
    ClientStatus {
        action_id: i32,
    },
    TeleportConfirm {
        teleport_id: i32,
    },
}

/// The protocol-violation kinds: an event the current state does not allow,
/// an unsupported channel, or an unimplemented sub-kind.  All fatal.
#[derive(Debug)]
pub enum ProtocolViolation {
    /// An event kind the current login stage does not accept.
    UnexpectedPacket,
    /// A plugin channel (outer or inner) other than the reserved ones;
    /// carries the offending channel name.
    UnsupportedChannel(String),
    /// A tunnel protocol version the handshake does not know.
    UnsupportedTunnelVersion(i64),
    /// An inner mod-handshake kind outside the closed handled set.
    UnimplementedHandshake,
    /// A textual identity that is not a well-formed hexadecimal identifier.
    MalformedUuid,
}

/// The fatal session error taxonomy.
#[derive(Debug)]
pub enum SessionError {
    /// Connection, decode, crypto or identity-service failure; carries the
    /// reported reason.  Non-recoverable.
    Transport(String),
    /// Server-initiated termination carrying the server-supplied reason.
    Disconnect(String),
    /// An unexpected event, channel or sub-kind for the current state.
    Violation(ProtocolViolation),
    /// A double or backward milestone claim: a logic or reconnect-safety bug.
    Consistency(StepViolation),
}

} // verus!
