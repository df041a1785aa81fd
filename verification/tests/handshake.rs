use base64::engine::general_purpose::STANDARD as BASE64;
use base64::Engine as _;
use ed25519_dalek::{Signer, SigningKey};

use muxdeck::engine::dispatch::{access_for, authorize, Access};
use muxdeck::engine::identity::{
    der_from_pem, fingerprint_from_der, fingerprint_from_pem, generate_otp, id_from_pubkey_bytes, otp_from_sample,
    Identity,
};
use muxdeck::engine::pairing::{constant_time_eq, verify_pair_request, verify_pair_request_with, PairingWindow};
use muxdeck::engine::registry::Registry;
use muxdeck::engine::session::{HandshakeContext, IpAddress, PeerAddr, Session};
use muxdeck::protocol::envelope::{ErrorCode, KnownOp, Op};
use muxdeck::protocol::pairing::PairRequest;
use muxdeck::protocol::session::{
    AuthRequest, Capabilities, HelloRequest, HelloResponse, HostPlatform, Platform, Role,
};
use muxdeck::protocol::signing::{pair_proof_message, session_auth_message};

const CERT_DER: &[u8] = b"a stand-in for a certificate's DER bytes";

fn cert_pem() -> String {
    format!("-----BEGIN CERTIFICATE-----\r\n{}\r\n-----END CERTIFICATE-----\r\n", BASE64.encode(CERT_DER))
}

struct Fixture {
    identity: Identity,
    registry: Registry,
    device_key: SigningKey,
    device_id: String,
}

fn fixture() -> Fixture {
    let identity = Identity::from_parts(vec![5u8; 32], cert_pem(), "key".to_string(), "the-admin-token".to_string())
        .expect("identity");
    let device_key = SigningKey::from_bytes(&[11u8; 32]);
    let mut registry = Registry::new();
    let device_id = registry
        .insert(&device_key.verifying_key().to_bytes(), "Test deck".into(), Platform::Android)
        .expect("insert");
    Fixture { identity, registry, device_key, device_id }
}

fn context(f: &Fixture) -> HandshakeContext<'_> {
    HandshakeContext {
        identity: &f.identity,
        registry: &f.registry,
        host_name: "ENIGMA-ENTROPY",
        engine_version: "0.1.0",
        active_profile_id: "p_default",
        host_platform: HostPlatform::Linux,
        capabilities: Capabilities { text_unicode: true, media_keys: true, mouse: true, shell_actions: false },
    }
}

fn loopback() -> PeerAddr {
    PeerAddr { ip: IpAddress::V4([127, 0, 0, 1]), port: 50000 }
}

fn remote() -> PeerAddr {
    PeerAddr { ip: IpAddress::V4([192, 168, 1, 50]), port: 50000 }
}

fn deck_hello(device_id: &str) -> HelloRequest {
    HelloRequest {
        device_id: Some(device_id.to_string()),
        admin_token: None,
        client_version: "0.1.0".into(),
        platform: Platform::Android,
    }
}

fn admin_hello(token: &str) -> HelloRequest {
    HelloRequest {
        device_id: None,
        admin_token: Some(token.to_string()),
        client_version: "0.1.0".into(),
        platform: Platform::Windows,
    }
}

fn ready_deck(f: &Fixture) -> Session {
    let ctx = context(f);
    let mut session = Session::new(remote());
    let challenge = match session.handle_hello(&deck_hello(&f.device_id), &ctx).expect("hello") {
        HelloResponse::Challenge(c) => c,
        HelloResponse::Ready(_) => panic!("a deck is challenged"),
    };
    let nonce = BASE64.decode(&challenge.nonce).expect("nonce");
    let message = session_auth_message(&nonce, &f.device_id, f.identity.host_id());
    let signature = f.device_key.sign(&message);
    session.handle_auth(&AuthRequest { signature: BASE64.encode(signature.to_bytes()) }, &ctx).expect("auth");
    session
}

fn ready_admin(f: &Fixture) -> Session {
    let ctx = context(f);
    let mut session = Session::new(loopback());
    session.handle_hello(&admin_hello(f.identity.admin_token()), &ctx).expect("hello");
    session
}

// --- the deck path ------------------------------------------------------------------------

#[test]
fn deck_happy_path_reaches_ready() {
    let f = fixture();
    let ctx = context(&f);
    let mut session = Session::new(remote());

    let response = session.handle_hello(&deck_hello(&f.device_id), &ctx).expect("hello");
    let challenge = match response {
        HelloResponse::Challenge(c) => c,
        HelloResponse::Ready(_) => panic!("a deck must be challenged, never made ready"),
    };
    assert_eq!(challenge.host_id, f.identity.host_id());
    assert!(!session.is_ready(), "a challenge is not authentication");

    let nonce = BASE64.decode(&challenge.nonce).expect("nonce");
    assert_eq!(nonce.len(), 32);
    let message = session_auth_message(&nonce, &f.device_id, f.identity.host_id());
    let signature = f.device_key.sign(&message);

    let ready = session
        .handle_auth(&AuthRequest { signature: BASE64.encode(signature.to_bytes()) }, &ctx)
        .expect("auth");

    assert_eq!(ready.role, Role::Deck);
    assert!(session.is_ready());
    assert_eq!(session.device_id(), Some(f.device_id.as_str()));
}

#[test]
fn a_signature_over_a_different_nonce_is_rejected() {
    let f = fixture();
    let ctx = context(&f);
    let mut session = Session::new(remote());
    session.handle_hello(&deck_hello(&f.device_id), &ctx).expect("hello");

    let message = session_auth_message(&[0u8; 32], &f.device_id, f.identity.host_id());
    let signature = f.device_key.sign(&message);

    let err = session
        .handle_auth(&AuthRequest { signature: BASE64.encode(signature.to_bytes()) }, &ctx)
        .expect_err("wrong nonce");
    assert_eq!(err.to_payload().code, ErrorCode::BadSignature);
    assert!(!session.is_ready());
}

#[test]
fn a_signature_bound_to_another_host_is_rejected() {
    let f = fixture();
    let ctx = context(&f);
    let mut session = Session::new(remote());
    let challenge = match session.handle_hello(&deck_hello(&f.device_id), &ctx).expect("hello") {
        HelloResponse::Challenge(c) => c,
        _ => unreachable!(),
    };

    let nonce = BASE64.decode(&challenge.nonce).expect("nonce");
    let message = session_auth_message(&nonce, &f.device_id, "h_0000000000000000");
    let signature = f.device_key.sign(&message);

    let err = session
        .handle_auth(&AuthRequest { signature: BASE64.encode(signature.to_bytes()) }, &ctx)
        .expect_err("wrong host");
    assert_eq!(err.to_payload().code, ErrorCode::BadSignature);
}

#[test]
fn an_unknown_device_is_rejected_before_any_challenge_is_issued() {
    let f = fixture();
    let ctx = context(&f);
    let mut session = Session::new(remote());

    let err = session.handle_hello(&deck_hello("d_0000000000000000"), &ctx).expect_err("unknown device");
    assert_eq!(err.to_payload().code, ErrorCode::UnknownDevice);
    assert!(session.device_id().is_none(), "no state may be retained for an unknown device");
}

#[test]
fn auth_without_a_prior_challenge_is_rejected() {
    let f = fixture();
    let ctx = context(&f);
    let mut session = Session::new(remote());

    let err = session
        .handle_auth(&AuthRequest { signature: BASE64.encode([0u8; 64]) }, &ctx)
        .expect_err("no challenge");
    assert_eq!(err.to_payload().code, ErrorCode::NotAuthenticated);
}

// --- the admin path -----------------------------------------------------------------------

#[test]
fn admin_over_loopback_with_the_token_is_ready_immediately() {
    let f = fixture();
    let ctx = context(&f);
    let mut session = Session::new(loopback());

    let response = session.handle_hello(&admin_hello(f.identity.admin_token()), &ctx).expect("hello");
    match response {
        HelloResponse::Ready(ready) => assert_eq!(ready.role, Role::Admin),
        HelloResponse::Challenge(_) => panic!("the panel must not be challenged"),
    }
    assert!(session.is_ready());
    assert_eq!(session.device_id(), None, "the panel has no device identity");
}

#[test]
fn a_valid_admin_token_from_a_remote_peer_grants_nothing() {
    let f = fixture();
    let ctx = context(&f);
    let mut session = Session::new(remote());

    let err = session.handle_hello(&admin_hello(f.identity.admin_token()), &ctx).expect_err("remote admin");
    assert_eq!(err.to_payload().code, ErrorCode::NotAuthorized);
    assert!(session.role().is_none());
}

#[test]
fn loopback_with_the_wrong_token_grants_nothing() {
    let f = fixture();
    let ctx = context(&f);
    let mut session = Session::new(loopback());

    let err = session.handle_hello(&admin_hello("not-the-token"), &ctx).expect_err("wrong token");
    assert_eq!(err.to_payload().code, ErrorCode::NotAuthorized);
    assert!(session.role().is_none());
}

#[test]
fn ipv6_loopback_counts_as_loopback() {
    let f = fixture();
    let ctx = context(&f);
    let mut session = Session::new(PeerAddr { ip: IpAddress::V6([0, 0, 0, 0, 0, 0, 0, 1]), port: 1 });
    session.handle_hello(&admin_hello(f.identity.admin_token()), &ctx).expect("loopback admin");
    assert_eq!(session.role(), Some(Role::Admin));
}

// --- malformed hellos ---------------------------------------------------------------------

#[test]
fn a_hello_with_both_credentials_is_bad_request() {
    let f = fixture();
    let ctx = context(&f);
    let mut session = Session::new(loopback());

    let request = HelloRequest {
        device_id: Some(f.device_id.clone()),
        admin_token: Some(f.identity.admin_token().to_string()),
        client_version: "0.1.0".into(),
        platform: Platform::Windows,
    };
    let err = session.handle_hello(&request, &ctx).expect_err("both");
    assert_eq!(err.to_payload().code, ErrorCode::BadRequest);
}

#[test]
fn a_hello_with_neither_credential_is_bad_request() {
    let f = fixture();
    let ctx = context(&f);
    let mut session = Session::new(loopback());

    let request = HelloRequest { device_id: None, admin_token: None, client_version: "0.1.0".into(), platform: Platform::Windows };
    let err = session.handle_hello(&request, &ctx).expect_err("neither");
    assert_eq!(err.to_payload().code, ErrorCode::BadRequest);
}

#[test]
fn a_second_hello_after_ready_is_rejected() {
    let f = fixture();
    let ctx = context(&f);
    let mut session = Session::new(loopback());
    session.handle_hello(&admin_hello(f.identity.admin_token()), &ctx).expect("first hello");

    let err = session.handle_hello(&admin_hello(f.identity.admin_token()), &ctx).expect_err("second hello");
    assert_eq!(err.to_payload().code, ErrorCode::BadRequest);
}

// --- the capability matrix ----------------------------------------------------------------

const MATRIX: &[(KnownOp, Access)] = &[
    (KnownOp::SessionHello, Access::PreAuth),
    (KnownOp::SessionAuth, Access::PreAuth),
    (KnownOp::PairRequest, Access::PreAuth),
    (KnownOp::PairBegin, Access::AdminOnly),
    (KnownOp::PairCancel, Access::AdminOnly),
    (KnownOp::PairListDevices, Access::AdminOnly),
    (KnownOp::PairRevoke, Access::AdminOnly),
    (KnownOp::SystemPing, Access::Authenticated),
    (KnownOp::InputKeyCombo, Access::Authenticated),
    (KnownOp::InputKeySequence, Access::Authenticated),
    (KnownOp::InputText, Access::Authenticated),
    (KnownOp::InputMedia, Access::Authenticated),
    (KnownOp::InputMouse, Access::Authenticated),
    (KnownOp::ActionRun, Access::Authenticated),
    (KnownOp::ActionList, Access::Authenticated),
    (KnownOp::ActionSet, Access::AdminOnly),
    (KnownOp::ActionDelete, Access::AdminOnly),
    (KnownOp::ProfileGet, Access::Authenticated),
    (KnownOp::ProfileList, Access::Authenticated),
    (KnownOp::ProfileSubscribe, Access::Authenticated),
    (KnownOp::TelemetrySubscribe, Access::Authenticated),
    (KnownOp::ProfileSet, Access::AdminOnly),
    (KnownOp::ProfileActivate, Access::Authenticated),
    (KnownOp::ProfileDelete, Access::AdminOnly),
    (KnownOp::SettingsGet, Access::AdminOnly),
    (KnownOp::SettingsSet, Access::AdminOnly),
    (KnownOp::ProfileChanged, Access::EventOnly),
    (KnownOp::TelemetryUpdate, Access::EventOnly),
    (KnownOp::DeviceChanged, Access::EventOnly),
    (KnownOp::PairingState, Access::EventOnly),
    (KnownOp::EngineShutdown, Access::EventOnly),
];

#[test]
fn the_matrix_covers_every_op_exactly_once() {
    let all = KnownOp::all();
    assert_eq!(MATRIX.len(), all.len(), "the matrix must list every op exactly once");
    for op in &all {
        let rows = MATRIX.iter().filter(|(candidate, _)| candidate == op).count();
        assert_eq!(rows, 1, "{} appears {rows} times in the matrix", op.as_str());
    }
}

#[test]
fn access_matches_the_specification() {
    for (op, expected) in MATRIX {
        assert_eq!(access_for(*op), *expected, "{} has the wrong access level", op.as_str());
    }
}

#[test]
fn an_unauthenticated_socket_may_send_only_pre_auth_ops() {
    let session = Session::new(remote());
    for (op, access) in MATRIX {
        let result = authorize(&Op::of(*op), &session);
        match access {
            Access::PreAuth => assert!(result.is_ok(), "{} must be allowed", op.as_str()),
            _ => {
                let code = result.expect_err("must be refused").to_payload().code;
                let expected = if *access == Access::EventOnly { ErrorCode::UnknownOp } else { ErrorCode::NotAuthenticated };
                assert_eq!(code, expected, "{} gave the wrong error", op.as_str());
            }
        }
    }
}

#[test]
fn a_deck_may_not_touch_admin_ops() {
    let f = fixture();
    let session = ready_deck(&f);
    for (op, access) in MATRIX {
        let result = authorize(&Op::of(*op), &session);
        match access {
            Access::Authenticated => assert!(result.is_ok(), "{} must be allowed to a deck", op.as_str()),
            Access::AdminOnly => assert_eq!(
                result.expect_err("refused").to_payload().code,
                ErrorCode::NotAuthorized,
                "{} must be refused to a deck",
                op.as_str()
            ),
            Access::PreAuth => assert_eq!(
                result.expect_err("refused").to_payload().code,
                ErrorCode::BadRequest,
                "{} must not be repeatable after the handshake",
                op.as_str()
            ),
            Access::EventOnly => assert_eq!(result.expect_err("refused").to_payload().code, ErrorCode::UnknownOp),
        }
    }
}

#[test]
fn an_admin_may_touch_everything_except_events_and_handshake_ops() {
    let f = fixture();
    let session = ready_admin(&f);
    for (op, access) in MATRIX {
        let result = authorize(&Op::of(*op), &session);
        match access {
            Access::Authenticated | Access::AdminOnly => {
                assert!(result.is_ok(), "{} must be allowed to admin", op.as_str())
            }
            Access::PreAuth => assert!(result.is_err(), "{} must not repeat", op.as_str()),
            Access::EventOnly => assert!(result.is_err(), "{} is outbound", op.as_str()),
        }
    }
}

#[test]
fn an_unknown_op_is_unknown_op_not_a_panic() {
    let f = fixture();
    let session = ready_admin(&f);
    let err = authorize(&Op::parse("input.telepathy"), &session).expect_err("unknown");
    assert_eq!(err.to_payload().code, ErrorCode::UnknownOp);
}

// --- pairing ------------------------------------------------------------------------------

fn signing_key() -> SigningKey {
    SigningKey::from_bytes(&[42u8; 32])
}

fn request_for(code: &str) -> PairRequest {
    let key = signing_key();
    let pubkey = key.verifying_key().to_bytes();
    let proof = key.sign(&pair_proof_message(code, &pubkey));
    PairRequest {
        code: code.to_string(),
        device_pubkey: BASE64.encode(pubkey),
        device_name: "Cipher's iPad".into(),
        platform: Platform::Ios,
        proof: BASE64.encode(proof.to_bytes()),
    }
}

#[test]
fn a_correct_request_verifies() {
    let window = PairingWindow::open(Some(120)).expect("open");
    let request = request_for(window.code());
    let pubkey = verify_pair_request(Some(&window), &request).expect("verify");
    assert_eq!(pubkey, signing_key().verifying_key().to_bytes());
}

#[test]
fn a_wrong_code_is_rejected() {
    let window = PairingWindow::open(Some(120)).expect("open");
    let wrong = if window.code() == "000000" { "111111" } else { "000000" };
    let request = request_for(wrong);
    let err = verify_pair_request(Some(&window), &request).expect_err("wrong code");
    assert_eq!(err.to_payload().code, ErrorCode::BadCode);
}

#[test]
fn a_proof_signed_over_a_different_code_is_rejected() {
    let window = PairingWindow::open(Some(120)).expect("open");
    let mut request = request_for(window.code());
    let key = signing_key();
    let pubkey = key.verifying_key().to_bytes();
    let stale = if window.code() == "999999" { "888888" } else { "999999" };
    request.proof = BASE64.encode(key.sign(&pair_proof_message(stale, &pubkey)).to_bytes());
    let err = verify_pair_request(Some(&window), &request).expect_err("stale proof");
    assert_eq!(err.to_payload().code, ErrorCode::BadSignature);
}

#[test]
fn a_proof_by_a_key_the_sender_does_not_hold_is_rejected() {
    let window = PairingWindow::open(Some(120)).expect("open");
    let mut request = request_for(window.code());
    let impostor = SigningKey::from_bytes(&[7u8; 32]);
    request.device_pubkey = BASE64.encode(impostor.verifying_key().to_bytes());
    let err = verify_pair_request(Some(&window), &request).expect_err("mismatched key");
    assert_eq!(err.to_payload().code, ErrorCode::BadSignature);
}

#[test]
fn no_window_means_pairing_closed() {
    let window = PairingWindow::open(Some(120)).expect("open");
    let request = request_for(window.code());
    let err = verify_pair_request(None, &request).expect_err("no window");
    assert_eq!(err.to_payload().code, ErrorCode::PairingClosed);
}

#[test]
fn an_expired_window_means_pairing_closed() {
    // An expired window is judged exactly as an absent one: without a code to compare against.
    let request = request_for("123456");
    let err = verify_pair_request_with(None, &request).expect_err("expired");
    assert_eq!(err.to_payload().code, ErrorCode::PairingClosed);
    assert!(verify_pair_request_with(Some("123456"), &request).is_ok());
}

#[test]
fn a_wrong_length_key_is_bad_request_not_bad_signature() {
    let window = PairingWindow::open(Some(120)).expect("open");
    let mut request = request_for(window.code());
    request.device_pubkey = BASE64.encode([1u8; 16]);
    let err = verify_pair_request(Some(&window), &request).expect_err("short key");
    assert_eq!(err.to_payload().code, ErrorCode::BadRequest, "a malformed field is not a failed verification");
}

#[test]
fn the_qr_payload_has_the_documented_parameter_order() {
    let window = PairingWindow::open(Some(120)).expect("open");
    let payload = window.qr_payload("192.168.1.42:47654", "h_a91c4d2e8f019b37", "abc123");

    assert!(payload.starts_with("muxdeck://pair?addr="));
    let addr = payload.find("addr=").expect("addr");
    let host = payload.find("host=").expect("host");
    let fp = payload.find("fp=").expect("fp");
    let code = payload.find("code=").expect("code");
    assert!(addr < host && host < fp && fp < code, "order is addr, host, fp, code");
    assert!(payload.ends_with(window.code()));
}

#[test]
fn constant_time_eq_still_compares_correctly() {
    assert!(constant_time_eq(b"402913", b"402913"));
    assert!(!constant_time_eq(b"402913", b"402914"));
    assert!(!constant_time_eq(b"402913", b"40291"));
}

// --- identity -----------------------------------------------------------------------------

#[test]
fn otp_is_always_six_digits() {
    for _ in 0..256 {
        let otp = generate_otp().expect("otp");
        assert_eq!(otp.len(), 6);
        assert!(otp.chars().all(|c| c.is_ascii_digit()));
    }
}

#[test]
fn a_sample_becomes_its_last_six_digits_or_is_drawn_again() {
    assert_eq!(otp_from_sample(42).as_deref(), Some("000042"));
    assert_eq!(otp_from_sample(4_293_999_999).as_deref(), Some("999999"));
    assert_eq!(otp_from_sample(4_294_000_000), None);
}

#[test]
fn id_derivation_matches_the_spec_example_shape() {
    let id = id_from_pubkey_bytes("d_", &[0u8; 32]);
    assert_eq!(id.len(), 18);
    assert!(id.starts_with("d_"));
    // SHA-256 of 32 zero bytes begins 66687aadf862bd77.
    assert_eq!(id, "d_66687aadf862bd77");
}

#[test]
fn ids_and_fingerprints_have_the_documented_shape() {
    let f = fixture();
    let host_id = f.identity.host_id();
    assert_eq!(host_id.len(), 18, "host_id is `h_` plus 16 hex characters");
    assert!(host_id.starts_with("h_"));
    assert!(host_id[2..].chars().all(|c| c.is_ascii_hexdigit() && !c.is_uppercase()));

    let fp = f.identity.fingerprint();
    assert_eq!(fp.len(), 64, "a SHA-256 in hex is 64 characters");
    assert!(fp.chars().all(|c| c.is_ascii_hexdigit() && !c.is_uppercase()));
}

#[test]
fn the_fingerprint_is_over_the_der_not_the_pem() {
    let pem = cert_pem();
    assert_eq!(der_from_pem(&pem).expect("der"), CERT_DER);
    assert_eq!(fingerprint_from_pem(&pem).expect("fp"), fingerprint_from_der(CERT_DER));
    assert_ne!(fingerprint_from_der(CERT_DER), fingerprint_from_der(pem.as_bytes()));
}

#[test]
fn a_pem_that_is_not_base64_is_a_certificate_error() {
    let err = der_from_pem("-----BEGIN CERTIFICATE-----\nnot*base64\n-----END CERTIFICATE-----\n").expect_err("bad");
    assert!(format!("{err:?}").contains("certificate is not valid PEM: "));
}

#[test]
fn a_stored_identity_trims_its_token_and_refuses_a_short_key() {
    let id = Identity::load_from(vec![5u8; 32], cert_pem(), "key".into(), "  the-admin-token\n").expect("load");
    assert_eq!(id.admin_token(), "the-admin-token");
    let f = fixture();
    assert_eq!(id.host_id(), f.identity.host_id());
    assert!(Identity::load_from(vec![5u8; 31], cert_pem(), "key".into(), "t").is_err());
}

#[test]
fn the_host_id_is_derived_from_the_public_half_of_the_key() {
    let f = fixture();
    let public = SigningKey::from_bytes(&[5u8; 32]).verifying_key().to_bytes();
    assert_eq!(f.identity.verifying_key(), public);
    assert_eq!(f.identity.host_id(), id_from_pubkey_bytes("h_", &public));
    assert_eq!(f.identity.secret_key(), &[5u8; 32]);
}

#[test]
fn a_paired_key_is_stored_in_base64_and_read_back_whole() {
    let f = fixture();
    let device = f.registry.get(&f.device_id).expect("stored");
    let public = f.device_key.verifying_key().to_bytes();
    assert_eq!(device.pubkey, BASE64.encode(public));
    assert_eq!(device.verifying_key().expect("decodes"), public);
    assert_eq!(f.device_id, id_from_pubkey_bytes("d_", &public));
}

#[test]
fn a_window_is_open_for_exactly_its_time_to_live() {
    let window = PairingWindow::open(Some(30)).expect("open");
    assert!(window.is_open());
    assert!(window.is_open_after(29));
    assert!(!window.is_open_after(30));
    assert_eq!(window.code().len(), 6);
}

#[test]
fn a_window_expires_its_time_to_live_after_the_wall_clock_reading() {
    let window = PairingWindow::open_at("123456".to_string(), std::time::Instant::now(), 1_700_000_000, None);
    assert_eq!(window.code(), "123456");
    assert_eq!(window.expires_at(), 1_700_000_120);
    assert!(window.is_open());
    let late = PairingWindow::open_at("654321".to_string(), std::time::Instant::now(), i64::MAX - 10, Some(30));
    assert_eq!(late.expires_at(), i64::MAX);
}

#[test]
fn every_op_name_parses_back_to_its_op() {
    for op in KnownOp::all() {
        assert_eq!(Op::parse(op.as_str()).known(), Some(op));
    }
    assert_eq!(Op::parse("input.telepathy").known(), None);
}
