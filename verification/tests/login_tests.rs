use mesagisto::events::{
    FmlMessage, InboundEvent, OutboundEvent, ProtocolViolation, SessionError, UuidWire,
};
use mesagisto::ident::{parse_uuid, Uuid};
use mesagisto::login::{LoginAction, LoginEvent, LoginMachine, LoginStage};
use mesagisto::negotiate::{resolve_probe, ProbeOutcome};
use mesagisto::step::StepSequencer;

fn inbound(ev: InboundEvent) -> LoginEvent {
    LoginEvent::Inbound(ev)
}

/// A DER public key the PKCS#1 encryption accepts: a bit string wrapping a
/// sequence of a 256-bit odd modulus and the exponent 65537.
fn test_der_key() -> Vec<u8> {
    let mut inner = vec![0x30, 0x28, 0x02, 0x21, 0x00, 0x80];
    inner.extend(vec![0u8; 30]);
    inner.push(0x01);
    inner.extend(vec![0x02, 0x03, 0x01, 0x00, 0x01]);
    let mut der = vec![0x03, 0x2B, 0x00];
    der.extend(inner);
    der
}

#[test]
fn start_without_tunnel_keeps_host() {
    let m = LoginMachine::new(340, "bot".to_string());
    let acts = m.start("example.org".to_string(), 25565, None).unwrap();
    assert_eq!(acts.len(), 2);
    match &acts[0] {
        LoginAction::Send(OutboundEvent::Handshake { protocol_version, host, port, next }) => {
            assert_eq!(*protocol_version, 340);
            assert_eq!(host, "example.org");
            assert_eq!(*port, 25565);
            assert_eq!(*next, 2);
        }
        other => panic!("expected handshake, got {:?}", action_name(other)),
    }
    match &acts[1] {
        LoginAction::Send(OutboundEvent::LoginStart { username }) => {
            assert_eq!(username, "bot");
        }
        other => panic!("expected login start, got {:?}", action_name(other)),
    }
}

#[test]
fn start_appends_tunnel_tags() {
    let m = LoginMachine::new(340, "bot".to_string());
    let acts = m.start("h".to_string(), 1, Some(1)).unwrap();
    match &acts[0] {
        LoginAction::Send(OutboundEvent::Handshake { host, .. }) => {
            assert_eq!(host, "h\0FML\0");
        }
        _ => panic!("expected handshake"),
    }
    let acts = m.start("h".to_string(), 1, Some(2)).unwrap();
    match &acts[0] {
        LoginAction::Send(OutboundEvent::Handshake { host, .. }) => {
            assert_eq!(host, "h\0FML2\0");
        }
        _ => panic!("expected handshake"),
    }
}

#[test]
fn start_rejects_unknown_tunnel_version() {
    let m = LoginMachine::new(340, "bot".to_string());
    let err = m.start("h".to_string(), 1, Some(3)).unwrap_err();
    assert!(matches!(
        err,
        SessionError::Violation(ProtocolViolation::UnsupportedTunnelVersion(3))
    ));
}

#[test]
fn offline_login_reaches_play_without_cipher_or_claims() {
    let mut steps = StepSequencer::new();
    let mut m = LoginMachine::new(340, "bot".to_string());
    let acts = m
        .handle_event(
            &mut steps,
            inbound(InboundEvent::LoginSuccess {
                username: "bot".to_string(),
                uuid: UuidWire::Text("00000000-0000-0000-0000-00000000002a".to_string()),
            }),
        )
        .unwrap();
    assert_eq!(acts.len(), 1);
    match &acts[0] {
        LoginAction::StartPlay { uuid } => {
            assert_eq!(*uuid, Uuid { hi: 0, lo: 0x2a });
        }
        other => panic!("expected start-play, got {:?}", action_name(other)),
    }
    assert!(matches!(m.stage, LoginStage::Play { .. }));
    assert!(!m.encrypted);
    assert_eq!(steps.current(), 0);
}

#[test]
fn pre_encryption_compression_configures_single_connection() {
    let mut steps = StepSequencer::new();
    let mut m = LoginMachine::new(340, "bot".to_string());
    let acts = m
        .handle_event(&mut steps, inbound(InboundEvent::SetCompression { threshold: 128 }))
        .unwrap();
    assert_eq!(acts.len(), 1);
    assert!(matches!(acts[0], LoginAction::SetThreshold { threshold: 128 }));
    assert_eq!(m.threshold, Some(128));
    assert_eq!(steps.current(), 0);
}

#[test]
fn encrypted_login_path_orders_cipher_before_further_traffic() {
    let mut steps = StepSequencer::new();
    let mut m = LoginMachine::new(340, "bot".to_string());

    let acts = m
        .handle_event(
            &mut steps,
            inbound(InboundEvent::EncryptionRequest {
                server_id: "srv".to_string(),
                public_key: test_der_key(),
                verify_token: vec![9, 8, 7, 6],
            }),
        )
        .unwrap();
    assert_eq!(acts.len(), 1);
    let secret = match &acts[0] {
        LoginAction::RequestJoin { server_id, shared_secret, public_key } => {
            assert_eq!(server_id, "srv");
            assert_eq!(shared_secret.len(), 16);
            assert_eq!(public_key, &test_der_key());
            shared_secret.clone()
        }
        other => panic!("expected join request, got {:?}", action_name(other)),
    };

    let acts = m.handle_event(&mut steps, LoginEvent::JoinAccepted).unwrap();
    assert_eq!(acts.len(), 2);
    match &acts[0] {
        LoginAction::Send(OutboundEvent::EncryptionResponse { shared_secret, verify_token }) => {
            assert!(!shared_secret.is_empty());
            assert!(!verify_token.is_empty());
        }
        other => panic!("expected modern encryption response, got {:?}", action_name(other)),
    }
    match &acts[1] {
        LoginAction::EnableEncryption { shared_secret } => {
            assert_eq!(shared_secret, &secret);
        }
        other => panic!("expected cipher activation, got {:?}", action_name(other)),
    }
    assert!(m.encrypted);

    let acts = m
        .handle_event(&mut steps, inbound(InboundEvent::SetCompression { threshold: 256 }))
        .unwrap();
    assert_eq!(acts.len(), 1);
    assert!(matches!(acts[0], LoginAction::SetThresholdBoth { threshold: 256 }));
    assert_eq!(m.threshold, Some(256));
    assert_eq!(steps.current(), 8);

    let acts = m
        .handle_event(
            &mut steps,
            inbound(InboundEvent::LoginSuccess {
                username: "bot".to_string(),
                uuid: UuidWire::Bits(5, 6),
            }),
        )
        .unwrap();
    assert_eq!(steps.current(), 9);
    assert_eq!(acts.len(), 1);
    assert!(matches!(acts[0], LoginAction::StartPlay { uuid: Uuid { hi: 5, lo: 6 } }));
    assert!(matches!(m.stage, LoginStage::Play { .. }));
}

#[test]
fn legacy_encryption_response_below_version_threshold() {
    let mut steps = StepSequencer::new();
    let mut m = LoginMachine::new(46, "bot".to_string());
    m.handle_event(
        &mut steps,
        inbound(InboundEvent::EncryptionRequest {
            server_id: "s".to_string(),
            public_key: test_der_key(),
            verify_token: vec![1, 2, 3, 4],
        }),
    )
    .unwrap();
    let acts = m.handle_event(&mut steps, LoginEvent::JoinAccepted).unwrap();
    assert!(matches!(
        acts[0],
        LoginAction::Send(OutboundEvent::EncryptionResponseLegacy { .. })
    ));
}

#[test]
fn join_failure_is_fatal() {
    let mut steps = StepSequencer::new();
    let mut m = LoginMachine::new(340, "bot".to_string());
    m.handle_event(
        &mut steps,
        inbound(InboundEvent::EncryptionRequest {
            server_id: "s".to_string(),
            public_key: test_der_key(),
            verify_token: vec![1, 2, 3, 4],
        }),
    )
    .unwrap();
    let err = m
        .handle_event(&mut steps, LoginEvent::JoinFailed { reason: "denied".to_string() })
        .unwrap_err();
    match err {
        SessionError::Transport(reason) => assert_eq!(reason, "denied"),
        _ => panic!("expected transport error"),
    }
    assert!(matches!(m.stage, LoginStage::Failed));
}

#[test]
fn malformed_public_key_is_fatal() {
    let mut steps = StepSequencer::new();
    let mut m = LoginMachine::new(340, "bot".to_string());
    let err = m
        .handle_event(
            &mut steps,
            inbound(InboundEvent::EncryptionRequest {
                server_id: "s".to_string(),
                public_key: Vec::new(),
                verify_token: vec![1, 2, 3, 4],
            }),
        )
        .unwrap_err();
    assert!(matches!(err, SessionError::Transport(_)));
    assert!(matches!(m.stage, LoginStage::Failed));
}

/// A well-formed key whose modulus is far too short for any message: the
/// shape check must refuse it before the encryption call.
fn tiny_modulus_key() -> Vec<u8> {
    let mut der = vec![0x03, 0x0B, 0x00];
    der.extend(vec![0x30, 0x08, 0x02, 0x01, 0x03, 0x02, 0x03, 0x01, 0x00, 0x01]);
    der
}

/// The test key wrapped the standard way: an outer sequence holding the
/// algorithm identifier sequence and then the bit string.
fn wrapped_test_key() -> Vec<u8> {
    let mut der = vec![0x30, 0x3C];
    der.extend(vec![
        0x30, 0x0D, 0x06, 0x09, 0x2A, 0x86, 0x48, 0x86, 0xF7, 0x0D, 0x01, 0x01, 0x01, 0x05,
        0x00,
    ]);
    der.extend(test_der_key());
    der
}

/// A key whose exponent integer is negative: refused by the shape check.
fn negative_exponent_key() -> Vec<u8> {
    let mut inner = vec![0x30, 0x26, 0x02, 0x21, 0x00, 0x80];
    inner.extend(vec![0u8; 30]);
    inner.push(0x01);
    inner.extend(vec![0x02, 0x01, 0x81]);
    let mut der = vec![0x03, 0x29, 0x00];
    der.extend(inner);
    der
}

#[test]
fn key_capacity_is_modulus_bytes_minus_framing() {
    let key = test_der_key();
    assert!(mesagisto::der::rsa_key_accepts(&key, 21));
    assert!(!mesagisto::der::rsa_key_accepts(&key, 22));
    assert!(mesagisto::der::rsa_key_accepts(&wrapped_test_key(), 16));
    assert!(!mesagisto::der::rsa_key_accepts(&tiny_modulus_key(), 16));
    assert!(!mesagisto::der::rsa_key_accepts(&negative_exponent_key(), 16));
    assert!(!mesagisto::der::rsa_key_accepts(&Vec::new(), 16));
}

#[test]
fn undersized_public_key_is_refused_not_a_crash() {
    let mut steps = StepSequencer::new();
    let mut m = LoginMachine::new(340, "bot".to_string());
    let err = m
        .handle_event(
            &mut steps,
            inbound(InboundEvent::EncryptionRequest {
                server_id: "s".to_string(),
                public_key: tiny_modulus_key(),
                verify_token: vec![1, 2, 3, 4],
            }),
        )
        .unwrap_err();
    assert!(matches!(err, SessionError::Transport(_)));
    assert!(matches!(m.stage, LoginStage::Failed));
}

#[test]
fn negative_exponent_key_is_refused() {
    let mut steps = StepSequencer::new();
    let mut m = LoginMachine::new(340, "bot".to_string());
    let err = m
        .handle_event(
            &mut steps,
            inbound(InboundEvent::EncryptionRequest {
                server_id: "s".to_string(),
                public_key: negative_exponent_key(),
                verify_token: vec![1, 2, 3, 4],
            }),
        )
        .unwrap_err();
    assert!(matches!(err, SessionError::Transport(_)));
}

#[test]
fn wrapped_key_is_found_through_nested_sequences() {
    let mut steps = StepSequencer::new();
    let mut m = LoginMachine::new(340, "bot".to_string());
    let acts = m
        .handle_event(
            &mut steps,
            inbound(InboundEvent::EncryptionRequest {
                server_id: "s".to_string(),
                public_key: wrapped_test_key(),
                verify_token: vec![1, 2, 3, 4],
            }),
        )
        .unwrap();
    assert!(matches!(acts[0], LoginAction::RequestJoin { .. }));
}

#[test]
fn disconnect_carries_server_reason() {
    let mut steps = StepSequencer::new();
    let mut m = LoginMachine::new(340, "bot".to_string());
    let err = m
        .handle_event(
            &mut steps,
            inbound(InboundEvent::LoginDisconnect { reason: "full".to_string() }),
        )
        .unwrap_err();
    match err {
        SessionError::Disconnect(reason) => assert_eq!(reason, "full"),
        _ => panic!("expected disconnect"),
    }
}

#[test]
fn unexpected_packet_at_login_is_fatal() {
    let mut steps = StepSequencer::new();
    let mut m = LoginMachine::new(340, "bot".to_string());
    let err = m
        .handle_event(&mut steps, inbound(InboundEvent::KeepAlive { id: 1 }))
        .unwrap_err();
    assert!(matches!(
        err,
        SessionError::Violation(ProtocolViolation::UnexpectedPacket)
    ));
    assert!(matches!(m.stage, LoginStage::Failed));
}

#[test]
fn plugin_request_on_foreign_channel_is_fatal() {
    let mut steps = StepSequencer::new();
    let mut m = LoginMachine::new(340, "bot".to_string());
    let err = m
        .handle_event(
            &mut steps,
            inbound(InboundEvent::LoginPluginRequest {
                message_id: 7,
                channel: "custom:thing".to_string(),
                inner_channel: String::new(),
                message: FmlMessage::Unknown,
            }),
        )
        .unwrap_err();
    match err {
        SessionError::Violation(ProtocolViolation::UnsupportedChannel(c)) => {
            assert_eq!(c, "custom:thing");
        }
        _ => panic!("expected unsupported channel"),
    }
    assert!(matches!(m.stage, LoginStage::Failed));
}

#[test]
fn plugin_request_on_foreign_inner_channel_is_fatal() {
    let mut steps = StepSequencer::new();
    let mut m = LoginMachine::new(340, "bot".to_string());
    let err = m
        .handle_event(
            &mut steps,
            inbound(InboundEvent::LoginPluginRequest {
                message_id: 7,
                channel: "fml:loginwrapper".to_string(),
                inner_channel: "fml:play".to_string(),
                message: FmlMessage::Unknown,
            }),
        )
        .unwrap_err();
    match err {
        SessionError::Violation(ProtocolViolation::UnsupportedChannel(c)) => {
            assert_eq!(c, "fml:play");
        }
        _ => panic!("expected unsupported channel"),
    }
}

#[test]
fn mod_list_is_echoed_with_same_message_id() {
    let mut steps = StepSequencer::new();
    let mut m = LoginMachine::new(340, "bot".to_string());
    let acts = m
        .handle_event(
            &mut steps,
            inbound(InboundEvent::LoginPluginRequest {
                message_id: 42,
                channel: "fml:loginwrapper".to_string(),
                inner_channel: "fml:handshake".to_string(),
                message: FmlMessage::ModList {
                    mod_names: vec!["alpha".to_string(), "beta".to_string()],
                    channels: Vec::new(),
                    registries: vec!["blocks".to_string()],
                },
            }),
        )
        .unwrap();
    assert_eq!(acts.len(), 1);
    match &acts[0] {
        LoginAction::Send(OutboundEvent::TunnelReply { message_id, reply }) => {
            assert_eq!(*message_id, 42);
            match reply {
                mesagisto::events::FmlReply::ModListReply { mod_names, channels, registries } => {
                    assert_eq!(mod_names, &vec!["alpha".to_string(), "beta".to_string()]);
                    assert!(channels.is_empty());
                    assert_eq!(registries, &vec!["blocks".to_string()]);
                }
                _ => panic!("expected mod-list reply"),
            }
        }
        other => panic!("expected tunnel reply, got {:?}", action_name(other)),
    }
    assert!(matches!(m.stage, LoginStage::AwaitingLogin));
}

#[test]
fn registry_and_configuration_are_acknowledged() {
    let mut steps = StepSequencer::new();
    let mut m = LoginMachine::new(340, "bot".to_string());
    for (mid, message) in [
        (1, FmlMessage::ServerRegistry { name: "minecraft:block".to_string() }),
        (2, FmlMessage::ConfigurationData {
            filename: "common.toml".to_string(),
            contents: vec![1, 2],
        }),
    ] {
        let acts = m
            .handle_event(
                &mut steps,
                inbound(InboundEvent::LoginPluginRequest {
                    message_id: mid,
                    channel: "fml:loginwrapper".to_string(),
                    inner_channel: "fml:handshake".to_string(),
                    message,
                }),
            )
            .unwrap();
        match &acts[0] {
            LoginAction::Send(OutboundEvent::TunnelReply { message_id, reply }) => {
                assert_eq!(*message_id, mid);
                assert!(matches!(reply, mesagisto::events::FmlReply::Acknowledgement));
            }
            _ => panic!("expected tunnel reply"),
        }
    }
}

#[test]
fn unknown_inner_kind_is_unimplemented() {
    let mut steps = StepSequencer::new();
    let mut m = LoginMachine::new(340, "bot".to_string());
    let err = m
        .handle_event(
            &mut steps,
            inbound(InboundEvent::LoginPluginRequest {
                message_id: 3,
                channel: "fml:loginwrapper".to_string(),
                inner_channel: "fml:handshake".to_string(),
                message: FmlMessage::Unknown,
            }),
        )
        .unwrap_err();
    assert!(matches!(
        err,
        SessionError::Violation(ProtocolViolation::UnimplementedHandshake)
    ));
}

#[test]
fn malformed_uuid_text_is_fatal() {
    let mut steps = StepSequencer::new();
    let mut m = LoginMachine::new(340, "bot".to_string());
    let err = m
        .handle_event(
            &mut steps,
            inbound(InboundEvent::LoginSuccess {
                username: "bot".to_string(),
                uuid: UuidWire::Text("not-a-uuid".to_string()),
            }),
        )
        .unwrap_err();
    assert!(matches!(
        err,
        SessionError::Violation(ProtocolViolation::MalformedUuid)
    ));
}

#[test]
fn uuid_parsing_accepts_both_textual_forms() {
    let dashed = parse_uuid("12345678-9abc-def0-1122-334455667788").unwrap();
    let plain = parse_uuid("123456789abcdef01122334455667788").unwrap();
    assert_eq!(dashed, plain);
    assert_eq!(dashed.hi, 0x123456789abcdef0);
    assert_eq!(dashed.lo, 0x1122334455667788);
    let upper = parse_uuid("123456789ABCDEF01122334455667788").unwrap();
    assert_eq!(upper, plain);
    assert!(parse_uuid("123456789abcdef0112233445566778").is_none());
    assert!(parse_uuid("123456789abcdef0112233445566778g").is_none());
    assert!(parse_uuid("").is_none());
}

#[test]
fn probe_success_is_taken_as_it_came() {
    let r = resolve_probe(
        Some(ProbeOutcome {
            protocol_version: 754,
            forge_mods: vec!["m".to_string()],
            fml_network_version: Some(2),
        }),
        340,
    );
    assert_eq!(r.protocol_version, 754);
    assert_eq!(r.forge_mods, vec!["m".to_string()]);
    assert_eq!(r.fml_network_version, Some(2));
}

#[test]
fn probe_failure_degrades_to_fallback() {
    let r = resolve_probe(None, 340);
    assert_eq!(r.protocol_version, 340);
    assert!(r.forge_mods.is_empty());
    assert_eq!(r.fml_network_version, None);
}

fn action_name(a: &LoginAction) -> &'static str {
    match a {
        LoginAction::Send(_) => "send",
        LoginAction::SetThreshold { .. } => "set-threshold",
        LoginAction::SetThresholdBoth { .. } => "set-threshold-both",
        LoginAction::RequestJoin { .. } => "request-join",
        LoginAction::EnableEncryption { .. } => "enable-encryption",
        LoginAction::StartPlay { .. } => "start-play",
    }
}
