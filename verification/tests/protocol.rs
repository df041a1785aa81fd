use muxdeck::primitives::{base64_decode, base64_encode};
use std::collections::HashSet;

use muxdeck::protocol::envelope::{Envelope, ErrorCode, KnownOp, MessageType, Op};
use muxdeck::protocol::input::{Key, MediaCommand};
use muxdeck::protocol::session::{HelloRequest, Platform};
use muxdeck::protocol::signing::{
    pair_proof_message, session_auth_message, NONCE_LEN, PAIR_DOMAIN, PUBKEY_LEN, SESSION_DOMAIN,
};

#[test]
fn the_key_list_is_complete_and_has_no_repeats() {
    let all = Key::all();
    assert_eq!(all.len(), 112);

    let unique: HashSet<_> = all.iter().collect();
    assert_eq!(unique.len(), all.len(), "a key is listed twice");
}

#[test]
fn the_media_list_is_complete_and_has_no_repeats() {
    let all = MediaCommand::all();
    assert_eq!(all.len(), 7);
    let unique: HashSet<_> = all.iter().collect();
    assert_eq!(unique.len(), all.len());
}

#[test]
fn exactly_four_keys_are_modifiers() {
    let all = Key::all();
    let modifiers: Vec<_> = all.iter().filter(|k| k.is_modifier()).collect();
    assert_eq!(modifiers.len(), 4, "found {modifiers:?}");
}

#[test]
fn domain_separator_lengths_match_the_spec() {
    assert_eq!(SESSION_DOMAIN.len(), 18);
    assert_eq!(PAIR_DOMAIN.len(), 15);
}

#[test]
fn session_message_is_a_plain_concatenation() {
    let msg = session_auth_message(&[0xAB; NONCE_LEN], "d_0000000000000001", "h_0000000000000002");
    assert_eq!(msg.len(), 18 + 32 + 18 + 18);
    assert!(msg.starts_with(SESSION_DOMAIN.as_bytes()));
    assert!(msg.ends_with(b"h_0000000000000002"));
}

#[test]
fn pair_message_is_a_plain_concatenation() {
    let msg = pair_proof_message("402913", &[0xCD; PUBKEY_LEN]);
    assert_eq!(msg.len(), 15 + 6 + 32);
    assert!(msg.starts_with(PAIR_DOMAIN.as_bytes()));
    assert!(msg.ends_with(&[0xCD; PUBKEY_LEN]));
}

#[test]
fn session_message_layout_is_domain_nonce_device_host() {
    let nonce = [7u8; NONCE_LEN];
    let msg = session_auth_message(&nonce, "d_1", "h_2");
    let mut expected = b"muxdeck-session-v1".to_vec();
    expected.extend_from_slice(&nonce);
    expected.extend_from_slice(b"d_1h_2");
    assert_eq!(msg, expected);
}

#[test]
fn an_unsupported_version_is_rejected() {
    let envelope = Envelope {
        v: 2,
        t: MessageType::Req,
        id: Some("x".to_string()),
        op: Op::parse("system.ping"),
        d: (),
    };
    let err = envelope.validate().expect_err("v=2 must not validate");
    assert_eq!(err.code, ErrorCode::UnsupportedVersion);
}

#[test]
fn an_unknown_op_parses_into_a_rejectable_variant_rather_than_failing() {
    let op = Op::parse("input.telepathy");
    assert_eq!(op, Op::Unknown("input.telepathy".to_string()));
    assert!(op.known().is_none());
    assert_eq!(op.as_str(), "input.telepathy");
}

#[test]
fn a_known_op_parses_to_its_variant_and_prints_back() {
    for op in KnownOp::all() {
        let parsed = Op::parse(op.as_str());
        assert_eq!(parsed, Op::Known(op));
        assert_eq!(parsed.as_str(), op.as_str());
    }
}

#[test]
fn an_event_carrying_a_correlation_id_is_rejected() {
    let envelope = Envelope {
        v: 1,
        t: MessageType::Evt,
        id: Some("x".to_string()),
        op: Op::parse("engine.shutdown"),
        d: (),
    };
    let err = envelope.validate().expect_err("an evt with an id must not validate");
    assert_eq!(err.code, ErrorCode::BadRequest);
}

#[test]
fn a_request_without_a_correlation_id_is_rejected() {
    let envelope = Envelope { v: 1, t: MessageType::Req, id: None, op: Op::parse("system.ping"), d: () };
    assert_eq!(envelope.validate().expect_err("a req needs an id").code, ErrorCode::BadRequest);
    let event = Envelope { v: 1, t: MessageType::Evt, id: None, op: Op::parse("engine.shutdown"), d: () };
    assert!(event.validate().is_ok());
}

#[test]
fn hello_requires_exactly_one_of_device_id_and_admin_token() {
    let both = HelloRequest {
        device_id: Some("d_1".into()),
        admin_token: Some("t".into()),
        client_version: "0.1.0".into(),
        platform: Platform::Windows,
    };
    assert_eq!(both.validate().expect_err("both must fail").code, ErrorCode::BadRequest);

    let neither = HelloRequest {
        device_id: None,
        admin_token: None,
        client_version: "0.1.0".into(),
        platform: Platform::Windows,
    };
    assert_eq!(neither.validate().expect_err("neither must fail").code, ErrorCode::BadRequest);

    let one = HelloRequest {
        device_id: Some("d_1".into()),
        admin_token: None,
        client_version: "0.1.0".into(),
        platform: Platform::Ios,
    };
    assert!(one.validate().is_ok());
}

#[test]
fn base64_is_the_padded_standard_alphabet() {
    assert_eq!(base64_encode(b""), "");
    assert_eq!(base64_encode(b"f"), "Zg==");
    assert_eq!(base64_encode(b"fo"), "Zm8=");
    assert_eq!(base64_encode(b"foo"), "Zm9v");
    assert_eq!(base64_encode(b"foobar"), "Zm9vYmFy");
    assert_eq!(base64_encode(&[0xfb, 0xff]), "+/8=");
}

#[test]
fn base64_decoding_accepts_only_canonical_padded_text() {
    assert_eq!(base64_decode("Zg==").expect("canonical"), vec![102u8]);
    assert_eq!(base64_decode("Zm9vYmFy").expect("canonical"), b"foobar".to_vec());
    assert!(base64_decode("Zg").is_err(), "padding is required");
    assert!(base64_decode("Zh==").is_err(), "stray bits in the last digit are refused");
    assert!(base64_decode("Zm9v YmFy").is_err());
}
