//! The mod-handshake tunnel: the nested sub-protocol carried over the
//! reserved login-plugin channel.
//!
//! Every reply is correlated to the outer message id of the request that
//! triggered it.  Any outer channel other than the reserved tunnel channel,
//! and any inner channel other than the reserved handshake sub-channel, is
//! a fatal protocol violation; so is an inner kind outside the closed
//! handled set.

use vstd::prelude::*;
use crate::events::{FmlMessage, FmlReply, OutboundEvent, ProtocolViolation, SessionError};
use crate::text::str_eq;

verus! {

/// The reserved tunnel login-plugin channel id.
pub open spec fn tunnel_channel_spec() -> Seq<char> {
    "fml:loginwrapper"@
}

/// The reserved tunnel login-plugin channel id.
pub fn tunnel_channel() -> (r: &'static str)
    ensures
        r@ == tunnel_channel_spec(),
{
    "fml:loginwrapper"
}

/// The reserved handshake sub-channel id nested inside the tunnel.
pub open spec fn handshake_channel_spec() -> Seq<char> {
    "fml:handshake"@
}

/// The reserved handshake sub-channel id nested inside the tunnel.
pub fn handshake_channel() -> (r: &'static str)
    ensures
        r@ == handshake_channel_spec(),
{
    "fml:handshake"
}

/// The exact relation between one login-plugin request and its outcome:
/// a wrong outer channel and a wrong inner channel are unsupported-channel
/// violations carrying the offending name; on the reserved channels a
/// mod-list is echoed back, a server registry and configuration data are
/// acknowledged, and any other inner kind is unimplemented.  Every reply is
/// correlated to the outer message id of the request.
pub open spec fn plugin_reply_spec(
    message_id: i32,
    channel: Seq<char>,
    inner_channel: Seq<char>,
    message: FmlMessage,
    r: Result<OutboundEvent, SessionError>,
) -> bool {
    if channel != tunnel_channel_spec() {
        r matches Err(
            SessionError::Violation(ProtocolViolation::UnsupportedChannel(c)),
        ) && c@ == channel
    } else if inner_channel != handshake_channel_spec() {
        r matches Err(
            SessionError::Violation(ProtocolViolation::UnsupportedChannel(c)),
        ) && c@ == inner_channel
    } else {
        match message {
            FmlMessage::ModList { mod_names, channels, registries } => r matches Ok(
                OutboundEvent::TunnelReply {
                    message_id: mid,
                    reply: FmlReply::ModListReply {
                        mod_names: rn,
                        channels: rc,
                        registries: rr,
                    },
                },
            ) && mid == message_id && rn == mod_names && rc == channels
                && rr == registries,
            FmlMessage::ServerRegistry { .. } => r matches Ok(
                OutboundEvent::TunnelReply {
                    message_id: mid,
                    reply: FmlReply::Acknowledgement,
                },
            ) && mid == message_id,
            FmlMessage::ConfigurationData { .. } => r matches Ok(
                OutboundEvent::TunnelReply {
                    message_id: mid,
                    reply: FmlReply::Acknowledgement,
                },
            ) && mid == message_id,
            FmlMessage::Unknown => r matches Err(
                SessionError::Violation(ProtocolViolation::UnimplementedHandshake),
            ),
        }
    }
}

/// Decide the reply to one login-plugin request: check the outer channel
/// against the reserved tunnel channel and the inner channel against the
/// reserved handshake sub-channel, then answer the inner message — a
/// mod-list is echoed back, a server registry and configuration data are
/// acknowledged, anything else is unimplemented.
pub fn handle_plugin_request(
    message_id: i32,
    channel: String,
    inner_channel: String,
    message: FmlMessage,
) -> (r: Result<OutboundEvent, SessionError>)
    ensures
        plugin_reply_spec(message_id, channel@, inner_channel@, message, r),
{
    if !str_eq(channel.as_str(), tunnel_channel()) {
        return Err(SessionError::Violation(ProtocolViolation::UnsupportedChannel(channel)));
    }
    if !str_eq(inner_channel.as_str(), handshake_channel()) {
        return Err(
            SessionError::Violation(ProtocolViolation::UnsupportedChannel(inner_channel)),
        );
    }
    match message {
        FmlMessage::ModList { mod_names, channels, registries } => Ok(
            OutboundEvent::TunnelReply {
                message_id,
                reply: FmlReply::ModListReply { mod_names, channels, registries },
            },
        ),
        FmlMessage::ServerRegistry { .. } => Ok(
            OutboundEvent::TunnelReply { message_id, reply: FmlReply::Acknowledgement },
        ),
        FmlMessage::ConfigurationData { .. } => Ok(
            OutboundEvent::TunnelReply { message_id, reply: FmlReply::Acknowledgement },
        ),
        FmlMessage::Unknown => Err(
            SessionError::Violation(ProtocolViolation::UnimplementedHandshake),
        ),
    }
}

} // verus!
