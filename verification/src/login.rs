//! The login state machine.
//!
//! The machine drives the handshake → login → (encryption) → (compression)
//! → play transition.  It is a pure decision core: the caller performs the
//! connection work (writes, reads, cipher activation, the session-join call)
//! and feeds every result back as an event; the machine answers with the
//! ordered actions to carry out next.  Every fatal answer leaves the machine
//! failed, and the caller must read no further.

use vstd::prelude::*;
use vstd::string::StringExecFns;
use crate::crypto::{fresh_shared_secret, rsa_encrypt};
use crate::der::rsa_key_accepts;
use crate::events::{
    FmlMessage, InboundEvent, OutboundEvent, ProtocolViolation, SessionError, UuidWire,
};
use crate::ident::{parse_uuid, uuid_of_text, uuid_text_valid, Uuid};
use crate::step::{StepSequencer, STEP_COMPRESSION_CONFIGURED, STEP_LOGIN_SUCCEEDED};
use crate::tunnel::{handle_plugin_request, plugin_reply_spec};

verus! {

/// The stage the login negotiation is in.
#[derive(Debug)]
pub enum LoginStage {
    /// LoginStart was sent; reading the server's first answers in plaintext.
    AwaitingLogin,
    /// An encryption request arrived; the session-join call is in flight.
    /// Holds the plain shared secret and the two encrypted blobs for the
    /// response.
    AwaitingJoin {
        shared_secret: Vec<u8>,
        encrypted_secret: Vec<u8>,
        encrypted_token: Vec<u8>,
    },
    /// The cipher was ordered on; reading the remaining login answers.
    EncryptedLogin,
    /// Login finished; the play phase owns the connection.
    Play { uuid: Uuid },
    /// A fatal answer was given; no further event may be fed in.
    Failed,
}

/// One action the caller must carry out, in order.
#[derive(Debug)]
pub enum LoginAction {
    /// Write one outbound event to the server.
    Send(OutboundEvent),
    /// Set the compression threshold on the single pre-split connection.
    SetThreshold { threshold: i32 },
    /// Set the compression threshold identically on both split halves.
    SetThresholdBoth { threshold: i32 },
    /// Prove possession of the shared secret to the identity provider.
    RequestJoin {
        server_id: String,
        shared_secret: Vec<u8>,
        public_key: Vec<u8>,
    },
    /// Activate the symmetric cipher with the shared secret on both halves,
    /// before either half reads or writes again.
    EnableEncryption { shared_secret: Vec<u8> },
    /// Split the connection and start the play phase with this identity.
    StartPlay { uuid: Uuid },
}

/// One event fed into the machine: a canonical inbound packet, or the
/// outcome of the session-join call it requested.
#[derive(Debug)]
pub enum LoginEvent {
    Inbound(InboundEvent),
    JoinAccepted,
    JoinFailed { reason: String },
}

/// The tunnel-tag suffix the handshake appends to the destination host for
/// a detected tunnel protocol version; no tunnel yields no suffix.
pub open spec fn tunnel_tag_spec(fml_network_version: Option<i64>) -> Seq<char> {
    match fml_network_version {
        Option::None => Seq::empty(),
        Option::Some(v) => if v == 1 {
            "\0FML\0"@
        } else if v == 2 {
            "\0FML2\0"@
        } else {
            Seq::empty()
        },
    }
}

/// Whether the machine knows the tunnel protocol version.
pub open spec fn tunnel_version_supported(fml_network_version: Option<i64>) -> bool {
    match fml_network_version {
        Option::None => true,
        Option::Some(v) => v == 1 || v == 2,
    }
}

/// The canonical identity a login-success wire value denotes, if it is
/// well formed.
pub open spec fn normalized_uuid(w: UuidWire) -> Option<Uuid> {
    match w {
        UuidWire::Bits(hi, lo) => Some(Uuid { hi, lo }),
        UuidWire::Text(s) => if uuid_text_valid(s@) {
            Some(uuid_of_text(s@))
        } else {
            Option::None
        },
    }
}

/// The login state machine.
pub struct LoginMachine {
    /// The negotiated protocol version; decides the encryption reply shape.
    pub protocol_version: i32,
    /// The agent's username, sent in LoginStart.
    pub username: String,
    /// The compression threshold, once the server configured one.
    pub threshold: Option<i32>,
    /// Whether cipher activation was ordered.
    pub encrypted: bool,
    /// The current stage.
    pub stage: LoginStage,
}

/// The fatal answer for an event the current stage does not allow.
pub open spec fn unexpected_packet(r: Result<Vec<LoginAction>, SessionError>) -> bool {
    r matches Err(SessionError::Violation(ProtocolViolation::UnexpectedPacket))
}

/// The outcome of reaching play with wire identity `uuid`: a well-formed
/// identity is normalized and ordered into play, a malformed one fails.
pub open spec fn play_outcome(
    uuid: UuidWire,
    r: Result<Vec<LoginAction>, SessionError>,
    post: LoginMachine,
) -> bool {
    match normalized_uuid(uuid) {
        Some(u) => {
            &&& (post.stage matches LoginStage::Play { uuid: pu } && pu == u)
            &&& (r matches Ok(acts) && acts@.len() == 1)
            &&& (r matches Ok(acts) ==> (acts@[0] matches LoginAction::StartPlay { uuid: au }
                && au == u))
        },
        Option::None => {
            &&& post.stage matches LoginStage::Failed
            &&& r matches Err(SessionError::Violation(ProtocolViolation::MalformedUuid))
        },
    }
}

/// The outcome of a login-plugin request at login time: the reply of
/// [`plugin_reply_spec`] is sent and the stage is kept (`encrypted_stage`
/// tells which reading stage that is), or its violation is returned and the
/// machine fails.
pub open spec fn plugin_outcome(
    message_id: i32,
    channel: Seq<char>,
    inner_channel: Seq<char>,
    message: FmlMessage,
    r: Result<Vec<LoginAction>, SessionError>,
    post: LoginMachine,
    encrypted_stage: bool,
) -> bool {
    &&& (r matches Ok(acts) ==> {
        &&& acts@.len() == 1
        &&& (acts@[0] matches LoginAction::Send(rep) && plugin_reply_spec(
            message_id,
            channel,
            inner_channel,
            message,
            Ok(rep),
        ))
        &&& (encrypted_stage ==> post.stage matches LoginStage::EncryptedLogin)
        &&& (!encrypted_stage ==> post.stage matches LoginStage::AwaitingLogin)
    })
    &&& (r matches Err(e) ==> {
        &&& plugin_reply_spec(message_id, channel, inner_channel, message, Err(e))
        &&& post.stage matches LoginStage::Failed
    })
}

/// A fresh byte-for-byte copy.
fn copy_bytes(v: &Vec<u8>) -> (r: Vec<u8>)
    ensures
        r@ == v@,
{
    let mut r: Vec<u8> = Vec::new();
    let mut i: usize = 0;
    while i < v.len()
        invariant
            i <= v@.len(),
            r@ == v@.subrange(0, i as int),
        decreases v@.len() - i,
    {
        r.push(v[i]);
        proof {
            assert(r@ =~= v@.subrange(0, i + 1));
        }
        i += 1;
    }
    proof {
        assert(v@.subrange(0, v@.len() as int) =~= v@);
    }
    r
}

impl LoginMachine {
    /// The machine still negotiates: it has neither reached play nor failed.
    pub open spec fn in_progress(&self) -> bool {
        ||| self.stage matches LoginStage::AwaitingLogin
        ||| self.stage matches LoginStage::AwaitingJoin { .. }
        ||| self.stage matches LoginStage::EncryptedLogin
    }

    /// A fresh machine: plaintext, no threshold, awaiting the first answer.
    pub fn new(protocol_version: i32, username: String) -> (m: Self)
        ensures
            m.protocol_version == protocol_version,
            m.username == username,
            m.threshold is None,
            !m.encrypted,
            m.stage matches LoginStage::AwaitingLogin,
    {
        LoginMachine {
            protocol_version,
            username,
            threshold: None,
            encrypted: false,
            stage: LoginStage::AwaitingLogin,
        }
    }

    /// The opening actions: the handshake naming the destination host with
    /// the tunnel-tag suffix, the declared version and the login intent,
    /// then LoginStart with the username.  An unknown tunnel protocol
    /// version is a violation and nothing is sent.
    pub fn start(&self, host: String, port: u16, fml_network_version: Option<i64>) -> (r:
        Result<Vec<LoginAction>, SessionError>)
        ensures
            r is Ok <==> tunnel_version_supported(fml_network_version),
            r matches Ok(acts) ==> {
                &&& acts@.len() == 2
                &&& (acts@[0] matches LoginAction::Send(OutboundEvent::Handshake {
                    protocol_version,
                    host: h,
                    port: p,
                    next,
                }) && protocol_version == self.protocol_version
                    && h@ == host@ + tunnel_tag_spec(fml_network_version) && p == port
                    && next == 2)
                &&& (acts@[1] matches LoginAction::Send(OutboundEvent::LoginStart {
                    username,
                }) && username@ == self.username@)
            },
            r matches Err(e) ==> (e matches SessionError::Violation(
                ProtocolViolation::UnsupportedTunnelVersion(v),
            ) && Some(v) == fml_network_version),
    {
        let tag: &str = match fml_network_version {
            Option::None => {
                proof {
                    reveal_strlit("");
                    assert(""@ =~= Seq::<char>::empty());
                }
                ""
            },
            Option::Some(1) => "\0FML\0",
            Option::Some(2) => "\0FML2\0",
            Option::Some(v) => {
                return Err(
                    SessionError::Violation(ProtocolViolation::UnsupportedTunnelVersion(v)),
                );
            },
        };
        let tagged_host = host.concat(tag);
        let mut acts: Vec<LoginAction> = Vec::new();
        acts.push(
            LoginAction::Send(
                OutboundEvent::Handshake {
                    protocol_version: self.protocol_version,
                    host: tagged_host,
                    port,
                    next: 2,
                },
            ),
        );
        acts.push(
            LoginAction::Send(OutboundEvent::LoginStart { username: self.username.clone() }),
        );
        Ok(acts)
    }

    /// Reach the play stage with the given wire identity: normalize it and
    /// order the split into play, or fail on a malformed identity.  The
    /// stage must already have been taken out by the caller.
    fn finish_play(&mut self, uuid: UuidWire) -> (r: Result<Vec<LoginAction>, SessionError>)
        ensures
            final(self).protocol_version == old(self).protocol_version,
            final(self).username == old(self).username,
            final(self).threshold == old(self).threshold,
            final(self).encrypted == old(self).encrypted,
            match normalized_uuid(uuid) {
                Some(u) => {
                    &&& final(self).stage matches LoginStage::Play { uuid: pu } && pu == u
                    &&& r matches Ok(acts) && acts@.len() == 1
                    &&& (r matches Ok(acts) ==> acts@[0] matches LoginAction::StartPlay {
                        uuid: au,
                    } && au == u)
                },
                Option::None => {
                    &&& final(self).stage matches LoginStage::Failed
                    &&& r matches Err(SessionError::Violation(
                        ProtocolViolation::MalformedUuid,
                    ))
                },
            },
    {
        let u: Uuid = match uuid {
            UuidWire::Bits(hi, lo) => Uuid { hi, lo },
            UuidWire::Text(s) => match parse_uuid(s.as_str()) {
                Some(u) => u,
                Option::None => {
                    self.stage = LoginStage::Failed;
                    return Err(SessionError::Violation(ProtocolViolation::MalformedUuid));
                },
            },
        };
        let mut acts: Vec<LoginAction> = Vec::new();
        acts.push(LoginAction::StartPlay { uuid: u });
        self.stage = LoginStage::Play { uuid: u };
        Ok(acts)
    }

    /// Feed one event into the machine and get the ordered actions to carry
    /// out, or the fatal error ending the session.
    ///
    /// In plaintext reading, compression is configured on the single
    /// connection, an encryption request starts the exchange — after the
    /// server's public key passes the verified well-formedness check, a key
    /// that fails it being a transport error — and a direct
    /// login success reaches play without any cipher and without claiming
    /// any encryption milestone.  After the cipher is ordered, compression
    /// and login success each claim their milestone, strictly in order.  A
    /// disconnect carries the server's reason; a plugin request is answered
    /// through the tunnel; anything else is an unexpected packet.  Every
    /// error leaves the machine failed and no further event may be fed.
    pub fn handle_event(&mut self, steps: &mut StepSequencer, ev: LoginEvent) -> (r: Result<
        Vec<LoginAction>,
        SessionError,
    >)
        requires
            old(self).in_progress(),
        ensures
            final(self).protocol_version == old(self).protocol_version,
            final(self).username == old(self).username,
            r is Err ==> final(self).stage matches LoginStage::Failed,
            match ev {
                LoginEvent::JoinAccepted => match old(self).stage {
                    LoginStage::AwaitingJoin {
                        shared_secret,
                        encrypted_secret,
                        encrypted_token,
                    } => {
                        &&& final(steps).current_spec() == old(steps).current_spec()
                        &&& final(self).threshold == old(self).threshold
                        &&& final(self).encrypted
                        &&& final(self).stage matches LoginStage::EncryptedLogin
                        &&& (r matches Ok(acts) && acts@.len() == 2)
                        &&& (r matches Ok(acts) ==> {
                            &&& (old(self).protocol_version >= 47 ==> (acts@[0]
                                matches LoginAction::Send(OutboundEvent::EncryptionResponse {
                                    shared_secret: s,
                                    verify_token: t,
                                }) && s == encrypted_secret && t == encrypted_token))
                            &&& (old(self).protocol_version < 47 ==> (acts@[0]
                                matches LoginAction::Send(
                                    OutboundEvent::EncryptionResponseLegacy {
                                        shared_secret: s,
                                        verify_token: t,
                                    },
                                ) && s == encrypted_secret && t == encrypted_token))
                            &&& (acts@[1] matches LoginAction::EnableEncryption {
                                shared_secret: s,
                            } && s == shared_secret)
                        })
                    },
                    _ => {
                        &&& unexpected_packet(r)
                        &&& final(steps).current_spec() == old(steps).current_spec()
                    },
                },
                LoginEvent::JoinFailed { reason } => match old(self).stage {
                    LoginStage::AwaitingJoin { .. } => {
                        &&& (r matches Err(SessionError::Transport(m)) && m@ == reason@)
                        &&& final(steps).current_spec() == old(steps).current_spec()
                    },
                    _ => {
                        &&& unexpected_packet(r)
                        &&& final(steps).current_spec() == old(steps).current_spec()
                    },
                },
                LoginEvent::Inbound(iev) => match iev {
                    InboundEvent::SetCompression { threshold } => match old(self).stage {
                        LoginStage::AwaitingLogin => {
                            &&& final(self).stage matches LoginStage::AwaitingLogin
                            &&& final(self).threshold == Some(threshold)
                            &&& final(self).encrypted == old(self).encrypted
                            &&& final(steps).current_spec() == old(steps).current_spec()
                            &&& (r matches Ok(acts) && acts@.len() == 1)
                            &&& (r matches Ok(acts) ==> (acts@[0]
                                matches LoginAction::SetThreshold { threshold: t }
                                && t == threshold))
                        },
                        LoginStage::EncryptedLogin => if STEP_COMPRESSION_CONFIGURED > old(
                            steps,
                        ).current_spec() {
                            &&& final(steps).current_spec() == STEP_COMPRESSION_CONFIGURED
                            &&& final(self).stage matches LoginStage::EncryptedLogin
                            &&& final(self).threshold == Some(threshold)
                            &&& final(self).encrypted == old(self).encrypted
                            &&& (r matches Ok(acts) && acts@.len() == 1)
                            &&& (r matches Ok(acts) ==> (acts@[0]
                                matches LoginAction::SetThresholdBoth { threshold: t }
                                && t == threshold))
                        } else {
                            &&& final(steps).current_spec() == old(steps).current_spec()
                            &&& (r matches Err(SessionError::Consistency(v))
                                && v.attempted == STEP_COMPRESSION_CONFIGURED
                                && v.current == old(steps).current_spec())
                        },
                        _ => {
                            &&& unexpected_packet(r)
                            &&& final(steps).current_spec() == old(steps).current_spec()
                        },
                    },
                    InboundEvent::EncryptionRequest {
                        server_id,
                        public_key,
                        verify_token,
                    } => match old(self).stage {
                        LoginStage::AwaitingLogin => {
                            &&& final(steps).current_spec() == old(steps).current_spec()
                            &&& final(self).threshold == old(self).threshold
                            &&& final(self).encrypted == old(self).encrypted
                            &&& ((!crate::der::rsa_key_fits(public_key@, 16)
                                || !crate::der::rsa_key_fits(
                                public_key@,
                                verify_token@.len() as int,
                            )) ==> r is Err)
                            &&& (r is Ok ==> crate::der::rsa_key_fits(public_key@, 16)
                                && crate::der::rsa_key_fits(
                                public_key@,
                                verify_token@.len() as int,
                            ))
                            &&& (r matches Ok(acts) ==> {
                                &&& acts@.len() == 1
                                &&& (acts@[0] matches LoginAction::RequestJoin {
                                    server_id: sid,
                                    shared_secret: ss,
                                    public_key: pk,
                                } && sid == server_id && pk == public_key && ss@.len() == 16
                                    && (final(self).stage matches LoginStage::AwaitingJoin {
                                        shared_secret: ms,
                                        ..
                                    } && ms@ == ss@))
                            })
                            &&& (r matches Err(e) ==> e matches SessionError::Transport(_))
                        },
                        _ => {
                            &&& unexpected_packet(r)
                            &&& final(steps).current_spec() == old(steps).current_spec()
                        },
                    },
                    InboundEvent::LoginSuccess { username: _, uuid } => match old(
                        self,
                    ).stage {
                        LoginStage::AwaitingLogin => {
                            &&& final(steps).current_spec() == old(steps).current_spec()
                            &&& final(self).threshold == old(self).threshold
                            &&& final(self).encrypted == old(self).encrypted
                            &&& play_outcome(uuid, r, *final(self))
                        },
                        LoginStage::EncryptedLogin => if STEP_LOGIN_SUCCEEDED > old(
                            steps,
                        ).current_spec() {
                            &&& final(steps).current_spec() == STEP_LOGIN_SUCCEEDED
                            &&& final(self).threshold == old(self).threshold
                            &&& final(self).encrypted == old(self).encrypted
                            &&& play_outcome(uuid, r, *final(self))
                        } else {
                            &&& final(steps).current_spec() == old(steps).current_spec()
                            &&& (r matches Err(SessionError::Consistency(v))
                                && v.attempted == STEP_LOGIN_SUCCEEDED
                                && v.current == old(steps).current_spec())
                        },
                        _ => {
                            &&& unexpected_packet(r)
                            &&& final(steps).current_spec() == old(steps).current_spec()
                        },
                    },
                    InboundEvent::LoginDisconnect { reason } => match old(self).stage {
                        LoginStage::AwaitingJoin { .. } => {
                            &&& unexpected_packet(r)
                            &&& final(steps).current_spec() == old(steps).current_spec()
                        },
                        LoginStage::Play { .. } => true,
                        LoginStage::Failed => true,
                        _ => {
                            &&& (r matches Err(SessionError::Disconnect(m)) && m@ == reason@)
                            &&& final(steps).current_spec() == old(steps).current_spec()
                        },
                    },
                    InboundEvent::LoginPluginRequest {
                        message_id,
                        channel,
                        inner_channel,
                        message,
                    } => match old(self).stage {
                        LoginStage::AwaitingLogin => {
                            &&& final(steps).current_spec() == old(steps).current_spec()
                            &&& final(self).threshold == old(self).threshold
                            &&& final(self).encrypted == old(self).encrypted
                            &&& plugin_outcome(
                                message_id,
                                channel@,
                                inner_channel@,
                                message,
                                r,
                                *final(self),
                                false,
                            )
                        },
                        LoginStage::EncryptedLogin => {
                            &&& final(steps).current_spec() == old(steps).current_spec()
                            &&& final(self).threshold == old(self).threshold
                            &&& final(self).encrypted == old(self).encrypted
                            &&& plugin_outcome(
                                message_id,
                                channel@,
                                inner_channel@,
                                message,
                                r,
                                *final(self),
                                true,
                            )
                        },
                        _ => {
                            &&& unexpected_packet(r)
                            &&& final(steps).current_spec() == old(steps).current_spec()
                        },
                    },
                    _ => {
                        &&& unexpected_packet(r)
                        &&& final(steps).current_spec() == old(steps).current_spec()
                    },
                },
            },
    {
        let mut stage = LoginStage::Failed;
        core::mem::swap(&mut self.stage, &mut stage);
        match ev {
            LoginEvent::JoinAccepted => match stage {
                LoginStage::AwaitingJoin { shared_secret, encrypted_secret, encrypted_token } => {
                    let mut acts: Vec<LoginAction> = Vec::new();
                    if self.protocol_version >= 47 {
                        acts.push(
                            LoginAction::Send(
                                OutboundEvent::EncryptionResponse {
                                    shared_secret: encrypted_secret,
                                    verify_token: encrypted_token,
                                },
                            ),
                        );
                    } else {
                        acts.push(
                            LoginAction::Send(
                                OutboundEvent::EncryptionResponseLegacy {
                                    shared_secret: encrypted_secret,
                                    verify_token: encrypted_token,
                                },
                            ),
                        );
                    }
                    acts.push(LoginAction::EnableEncryption { shared_secret });
                    self.encrypted = true;
                    self.stage = LoginStage::EncryptedLogin;
                    Ok(acts)
                },
                _ => Err(SessionError::Violation(ProtocolViolation::UnexpectedPacket)),
            },
            LoginEvent::JoinFailed { reason } => match stage {
                LoginStage::AwaitingJoin { .. } => Err(SessionError::Transport(reason)),
                _ => Err(SessionError::Violation(ProtocolViolation::UnexpectedPacket)),
            },
            LoginEvent::Inbound(iev) => match iev {
                InboundEvent::SetCompression { threshold } => match stage {
                    LoginStage::AwaitingLogin => {
                        self.threshold = Some(threshold);
                        self.stage = LoginStage::AwaitingLogin;
                        let mut acts: Vec<LoginAction> = Vec::new();
                        acts.push(LoginAction::SetThreshold { threshold });
                        Ok(acts)
                    },
                    LoginStage::EncryptedLogin => match steps.claim(
                        STEP_COMPRESSION_CONFIGURED,
                    ) {
                        Ok(()) => {
                            self.threshold = Some(threshold);
                            self.stage = LoginStage::EncryptedLogin;
                            let mut acts: Vec<LoginAction> = Vec::new();
                            acts.push(LoginAction::SetThresholdBoth { threshold });
                            Ok(acts)
                        },
                        Err(v) => Err(SessionError::Consistency(v)),
                    },
                    _ => Err(SessionError::Violation(ProtocolViolation::UnexpectedPacket)),
                },
                InboundEvent::EncryptionRequest { server_id, public_key, verify_token } => match stage {
                    LoginStage::AwaitingLogin => {
                        if !rsa_key_accepts(&public_key, 16) || !rsa_key_accepts(
                            &public_key,
                            verify_token.len(),
                        ) {
                            return Err(
                                SessionError::Transport(
                                    String::from_str("server public key refused"),
                                ),
                            );
                        }
                        let shared_secret = fresh_shared_secret();
                        let encrypted_secret = match rsa_encrypt(&public_key, &shared_secret) {
                            Ok(b) => b,
                            Err(m) => {
                                return Err(SessionError::Transport(m));
                            },
                        };
                        let encrypted_token = match rsa_encrypt(&public_key, &verify_token) {
                            Ok(b) => b,
                            Err(m) => {
                                return Err(SessionError::Transport(m));
                            },
                        };
                        let secret_copy = copy_bytes(&shared_secret);
                        let mut acts: Vec<LoginAction> = Vec::new();
                        acts.push(
                            LoginAction::RequestJoin {
                                server_id,
                                shared_secret: secret_copy,
                                public_key,
                            },
                        );
                        self.stage = LoginStage::AwaitingJoin {
                            shared_secret,
                            encrypted_secret,
                            encrypted_token,
                        };
                        Ok(acts)
                    },
                    _ => Err(SessionError::Violation(ProtocolViolation::UnexpectedPacket)),
                },
                InboundEvent::LoginSuccess { username: _, uuid } => match stage {
                    LoginStage::AwaitingLogin => self.finish_play(uuid),
                    LoginStage::EncryptedLogin => match steps.claim(STEP_LOGIN_SUCCEEDED) {
                        Ok(()) => self.finish_play(uuid),
                        Err(v) => Err(SessionError::Consistency(v)),
                    },
                    _ => Err(SessionError::Violation(ProtocolViolation::UnexpectedPacket)),
                },
                InboundEvent::LoginDisconnect { reason } => match stage {
                    LoginStage::AwaitingLogin => Err(SessionError::Disconnect(reason)),
                    LoginStage::EncryptedLogin => Err(SessionError::Disconnect(reason)),
                    _ => Err(SessionError::Violation(ProtocolViolation::UnexpectedPacket)),
                },
                InboundEvent::LoginPluginRequest {
                    message_id,
                    channel,
                    inner_channel,
                    message,
                } => match stage {
                    LoginStage::AwaitingLogin => {
                        match handle_plugin_request(message_id, channel, inner_channel, message) {
                            Ok(rep) => {
                                self.stage = LoginStage::AwaitingLogin;
                                let mut acts: Vec<LoginAction> = Vec::new();
                                acts.push(LoginAction::Send(rep));
                                Ok(acts)
                            },
                            Err(e) => Err(e),
                        }
                    },
                    LoginStage::EncryptedLogin => {
                        match handle_plugin_request(message_id, channel, inner_channel, message) {
                            Ok(rep) => {
                                self.stage = LoginStage::EncryptedLogin;
                                let mut acts: Vec<LoginAction> = Vec::new();
                                acts.push(LoginAction::Send(rep));
                                Ok(acts)
                            },
                            Err(e) => Err(e),
                        }
                    },
                    _ => Err(SessionError::Violation(ProtocolViolation::UnexpectedPacket)),
                },
                _ => Err(SessionError::Violation(ProtocolViolation::UnexpectedPacket)),
            },
        }
    }
}

} // verus!
