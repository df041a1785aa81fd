use base64::engine::general_purpose::STANDARD as BASE64;
use base64::Engine as _;
use ed25519_dalek::{Signer, SigningKey};

use muxdeck::engine::actions::ActionStore;
use muxdeck::engine::config::default_settings;
use muxdeck::engine::engine::Engine;
use muxdeck::engine::error::EngineError;
use muxdeck::engine::identity::Identity;
use muxdeck::engine::registry::Registry;
use muxdeck::engine::server::{handle_envelope, Event, EventAudience, HostEnv, Outcome, Payload, Reply, Request};
use muxdeck::engine::session::{IpAddress, PeerAddr, Session};
use muxdeck::engine::store::Store;
use muxdeck::input::BackendCapabilities;
use muxdeck::protocol::action::ActionRunRequest;
use muxdeck::protocol::envelope::{Envelope, ErrorCode, KnownOp, MessageType, Op};
use muxdeck::protocol::pairing::{PairBeginRequest, PairRequest, PairRevokeRequest};
use muxdeck::protocol::profile::{Button, Grid, Haptic, Page, Position, Profile, ProfileGetRequest, ProfileWrapper};
use muxdeck::protocol::session::{AuthRequest, HelloRequest, HelloResponse, HostPlatform, Platform, Role};
use muxdeck::protocol::settings::SettingsPatch;
use muxdeck::protocol::signing::{pair_proof_message, session_auth_message};
use muxdeck::protocol::telemetry::PingRequest;

const TOKEN: &str = "local-admin-token";

fn engine() -> Engine {
    let pem = format!("-----BEGIN CERTIFICATE-----\n{}\n-----END CERTIFICATE-----\n", BASE64.encode(b"der"));
    let identity = Identity::from_parts(vec![3u8; 32], pem, "key".into(), TOKEN.into()).expect("identity");
    Engine::new(
        identity,
        default_settings("ENIGMA-ENTROPY".to_string()),
        Registry::new(),
        Store::fresh(),
        ActionStore::new(),
        "0.1.0".to_string(),
        HostPlatform::Linux,
    )
}

fn env() -> HostEnv {
    HostEnv {
        usable: true,
        backend: BackendCapabilities { text_unicode: false, media_keys: true, mouse: false },
        advertised_addr: "192.168.1.42:47654".to_string(),
    }
}

fn req(op: KnownOp, d: Payload) -> Envelope<Payload> {
    Envelope { v: 1, t: MessageType::Req, id: Some("1".to_string()), op: Op::of(op), d }
}

fn send(engine: &mut Engine, session: &mut Session, op: KnownOp, request: Request) -> Outcome {
    handle_envelope(engine, session, req(op, Payload::Parsed(request)), &env())
}

fn code(outcome: &Outcome) -> ErrorCode {
    match &outcome.reply {
        Err(e) => e.to_payload().code,
        Ok(_) => panic!("expected a refusal"),
    }
}

fn admin(engine: &mut Engine) -> Session {
    let mut session = Session::new(PeerAddr { ip: IpAddress::V4([127, 0, 0, 1]), port: 40000 });
    let hello = HelloRequest { device_id: None, admin_token: Some(TOKEN.into()), client_version: "0.1.0".into(), platform: Platform::Linux };
    let out = send(engine, &mut session, KnownOp::SessionHello, Request::Hello(hello));
    assert!(matches!(out.reply, Ok(Reply::Hello(HelloResponse::Ready(_)))));
    session
}

fn deck_key() -> SigningKey {
    SigningKey::from_bytes(&[21u8; 32])
}

/// Pairs the deck key through an admin-opened window and returns its device id.
fn pair(engine: &mut Engine, admin_session: &mut Session) -> String {
    let begun = send(engine, admin_session, KnownOp::PairBegin, Request::PairBegin(PairBeginRequest { ttl_seconds: Some(120) }));
    let code = match begun.reply {
        Ok(Reply::PairBegun(r)) => r.code,
        _ => panic!("pair.begin must succeed for the panel"),
    };
    assert!(matches!(begun.events.as_slice(), [Event::PairingState(s)] if s.active));

    let key = deck_key();
    let pubkey = key.verifying_key().to_bytes();
    let request = PairRequest {
        code: code.clone(),
        device_pubkey: BASE64.encode(pubkey),
        device_name: "Phone".into(),
        platform: Platform::Android,
        proof: BASE64.encode(key.sign(&pair_proof_message(&code, &pubkey)).to_bytes()),
    };
    let mut newcomer = Session::new(PeerAddr { ip: IpAddress::V4([192, 168, 1, 9]), port: 1 });
    let paired = send(engine, &mut newcomer, KnownOp::PairRequest, Request::Pair(request));
    match paired.reply {
        Ok(Reply::Paired(r)) => {
            assert!(paired.saves.devices);
            assert!(paired.events.iter().any(|e| matches!(e, Event::DeviceChanged(_))));
            assert!(paired.events.iter().any(|e| matches!(e, Event::PairingState(s) if !s.active)));
            r.device_id
        }
        _ => panic!("pairing with the window's code must succeed"),
    }
}

fn deck(engine: &mut Engine, device_id: &str) -> Session {
    let mut session = Session::new(PeerAddr { ip: IpAddress::V4([192, 168, 1, 9]), port: 2 });
    let hello = HelloRequest { device_id: Some(device_id.into()), admin_token: None, client_version: "0.1.0".into(), platform: Platform::Android };
    let challenge = match send(engine, &mut session, KnownOp::SessionHello, Request::Hello(hello)).reply {
        Ok(Reply::Hello(HelloResponse::Challenge(c))) => c,
        _ => panic!("a deck is challenged"),
    };
    let nonce = BASE64.decode(&challenge.nonce).expect("nonce");
    let message = session_auth_message(&nonce, device_id, engine.identity().host_id());
    let signature = BASE64.encode(deck_key().sign(&message).to_bytes());
    let out = send(engine, &mut session, KnownOp::SessionAuth, Request::Auth(AuthRequest { signature }));
    assert!(matches!(out.reply, Ok(Reply::Ready(ref r)) if r.role == Role::Deck));
    assert!(engine.list_devices().iter().any(|d| d.device_id == device_id && d.connected));
    session
}

#[test]
fn pair_authenticate_and_ping() {
    let mut engine = engine();
    let mut panel = admin(&mut engine);
    let device_id = pair(&mut engine, &mut panel);
    let mut phone = deck(&mut engine, &device_id);
    let out = send(&mut engine, &mut phone, KnownOp::SystemPing, Request::Ping(PingRequest { t_client: 1234 }));
    match out.reply {
        Ok(Reply::Pong(p)) => assert_eq!(p.t_client, 1234),
        _ => panic!("ping must be answered"),
    }
}

#[test]
fn an_op_before_authentication_is_refused() {
    let mut engine = engine();
    let mut session = Session::new(PeerAddr { ip: IpAddress::V4([10, 0, 0, 2]), port: 3 });
    let out = send(&mut engine, &mut session, KnownOp::SystemPing, Request::Ping(PingRequest { t_client: 1 }));
    assert_eq!(code(&out), ErrorCode::NotAuthenticated);
}

#[test]
fn a_deck_may_not_open_a_pairing_window() {
    let mut engine = engine();
    let mut panel = admin(&mut engine);
    let device_id = pair(&mut engine, &mut panel);
    let mut phone = deck(&mut engine, &device_id);
    let out = send(&mut engine, &mut phone, KnownOp::PairBegin, Request::PairBegin(PairBeginRequest { ttl_seconds: None }));
    assert_eq!(code(&out), ErrorCode::NotAuthorized);
    assert!(engine.pairing_window().is_none());
}

#[test]
fn a_revoked_device_can_no_longer_authenticate() {
    let mut engine = engine();
    let mut panel = admin(&mut engine);
    let device_id = pair(&mut engine, &mut panel);
    let out = send(&mut engine, &mut panel, KnownOp::PairRevoke, Request::PairRevoke(PairRevokeRequest { device_id: device_id.clone() }));
    assert!(out.reply.is_ok());
    assert!(out.saves.devices);

    let mut session = Session::new(PeerAddr { ip: IpAddress::V4([192, 168, 1, 9]), port: 4 });
    let hello = HelloRequest { device_id: Some(device_id), admin_token: None, client_version: "0.1.0".into(), platform: Platform::Android };
    let out = send(&mut engine, &mut session, KnownOp::SessionHello, Request::Hello(hello));
    assert_eq!(code(&out), ErrorCode::UnknownDevice);
}

#[test]
fn a_pairing_window_closes_after_one_device() {
    let mut engine = engine();
    let mut panel = admin(&mut engine);
    pair(&mut engine, &mut panel);
    assert!(engine.pairing_window().is_none());
}

#[test]
fn an_unsupported_protocol_version_is_refused() {
    let mut engine = engine();
    let mut session = Session::new(PeerAddr { ip: IpAddress::V4([127, 0, 0, 1]), port: 5 });
    let mut envelope = req(KnownOp::SystemPing, Payload::Parsed(Request::Ping(PingRequest { t_client: 1 })));
    envelope.v = 2;
    let out = handle_envelope(&mut engine, &mut session, envelope, &env());
    assert_eq!(code(&out), ErrorCode::UnsupportedVersion);
}

#[test]
fn a_malformed_payload_is_bad_request() {
    let mut engine = engine();
    let mut panel = admin(&mut engine);
    let out = handle_envelope(&mut engine, &mut panel, req(KnownOp::ProfileGet, Payload::Malformed("missing field `profile_id`".into())), &env());
    match out.reply {
        Err(EngineError::Wire(p)) => {
            assert_eq!(p.code, ErrorCode::BadRequest);
            assert_eq!(p.message, "malformed payload: missing field `profile_id`");
        }
        _ => panic!("expected BAD_REQUEST"),
    }
}

#[test]
fn an_admin_socket_receives_events_a_deck_does_not() {
    let mut engine = engine();
    let panel = admin(&mut engine);
    assert!(panel.wants(EventAudience::AdminOnly));
    let mut panel = panel;
    let device_id = pair(&mut engine, &mut panel);
    let phone = deck(&mut engine, &device_id);
    assert!(!phone.wants(EventAudience::AdminOnly));
    assert!(phone.wants(EventAudience::AllAuthenticated));
}

#[test]
fn an_unsubscribed_deck_receives_no_layout_events() {
    let mut engine = engine();
    let mut panel = admin(&mut engine);
    let device_id = pair(&mut engine, &mut panel);
    let mut phone = deck(&mut engine, &device_id);
    assert!(!phone.wants(EventAudience::ProfileSubscribers));
    let out = handle_envelope(&mut engine, &mut phone, req(KnownOp::ProfileSubscribe, Payload::Absent), &env());
    assert!(out.reply.is_ok());
    assert!(phone.wants(EventAudience::ProfileSubscribers));
}

#[test]
fn a_deck_may_activate_a_profile_but_not_edit_one() {
    let mut engine = engine();
    let mut panel = admin(&mut engine);
    let device_id = pair(&mut engine, &mut panel);
    let mut phone = deck(&mut engine, &device_id);

    let default = match send(&mut engine, &mut phone, KnownOp::ProfileGet, Request::ProfileGet(ProfileGetRequest { profile_id: "p_default".into() })).reply {
        Ok(Reply::Profile(w)) => w.profile,
        _ => panic!("the default profile is served"),
    };
    let out = send(&mut engine, &mut phone, KnownOp::ProfileSet, Request::ProfileSet(ProfileWrapper { profile: default }));
    assert_eq!(code(&out), ErrorCode::NotAuthorized);

    let out = send(
        &mut engine,
        &mut phone,
        KnownOp::ProfileActivate,
        Request::ProfileActivate(muxdeck::protocol::profile::ProfileActivateRequest { profile_id: "p_default".into() }),
    );
    assert!(out.reply.is_ok());
    assert!(out.events.iter().any(|e| matches!(e, Event::ProfileChanged(_))));
}

#[test]
fn a_fresh_engine_serves_a_usable_default_layout() {
    let mut engine = engine();
    let mut panel = admin(&mut engine);
    let out = send(&mut engine, &mut panel, KnownOp::ProfileGet, Request::ProfileGet(ProfileGetRequest { profile_id: "p_default".into() }));
    match out.reply {
        Ok(Reply::Profile(w)) => assert_eq!(w.profile.pages[0].buttons.len(), 15),
        _ => panic!("the default profile is served"),
    }
}

#[test]
fn shell_actions_are_refused_while_switched_off() {
    let mut engine = engine();
    let mut panel = admin(&mut engine);
    let out = send(&mut engine, &mut panel, KnownOp::ActionRun, Request::ActionRun(ActionRunRequest { action_id: "a_x".into() }));
    assert_eq!(code(&out), ErrorCode::Disabled);

    let patch = SettingsPatch { port: None, host_name: None, shell_actions_enabled: Some(true), telemetry_enabled: None, telemetry_interval_ms: None, autostart: None };
    let out = send(&mut engine, &mut panel, KnownOp::SettingsSet, Request::SettingsSet(patch));
    match out.reply {
        Ok(Reply::SettingsSet(r)) => assert!(!r.restart_required),
        _ => panic!("settings.set must succeed"),
    }
    assert!(out.saves.settings);
    assert!(engine.settings().shell_actions_enabled);
    let out = send(&mut engine, &mut panel, KnownOp::ActionRun, Request::ActionRun(ActionRunRequest { action_id: "a_x".into() }));
    assert_eq!(code(&out), ErrorCode::NotFound);
}

#[test]
fn changing_the_port_requires_a_restart() {
    let mut engine = engine();
    let mut panel = admin(&mut engine);
    let patch = SettingsPatch { port: Some(50000), host_name: None, shell_actions_enabled: None, telemetry_enabled: None, telemetry_interval_ms: None, autostart: None };
    match send(&mut engine, &mut panel, KnownOp::SettingsSet, Request::SettingsSet(patch)).reply {
        Ok(Reply::SettingsSet(r)) => assert!(r.restart_required),
        _ => panic!("settings.set must succeed"),
    }
    assert_eq!(engine.settings().port, 50000);
}

#[test]
fn an_edit_reaches_a_subscribed_deck() {
    let mut engine = engine();
    let mut panel = admin(&mut engine);
    let device_id = pair(&mut engine, &mut panel);
    let mut phone = deck(&mut engine, &device_id);
    let out = handle_envelope(&mut engine, &mut phone, req(KnownOp::ProfileSubscribe, Payload::Absent), &env());
    assert!(out.reply.is_ok());

    let mut profile = match send(&mut engine, &mut panel, KnownOp::ProfileGet, Request::ProfileGet(ProfileGetRequest { profile_id: "p_default".into() })).reply {
        Ok(Reply::Profile(w)) => w.profile,
        _ => panic!("the default profile is served"),
    };
    profile.name = "Renamed by the editor".to_string();
    let out = send(&mut engine, &mut panel, KnownOp::ProfileSet, Request::ProfileSet(ProfileWrapper { profile }));
    assert!(out.reply.is_ok());
    assert!(out.saves.profiles);
    let changed: Vec<&Event> = out.events.iter().filter(|e| matches!(e, Event::ProfileChanged(_))).collect();
    assert_eq!(changed.len(), 1);
    assert!(phone.wants(changed[0].audience()), "a subscribed deck must receive profile.changed");
    match changed[0] {
        Event::ProfileChanged(w) => assert_eq!(w.profile.name, "Renamed by the editor", "the event carries the edited profile"),
        _ => unreachable!(),
    }
}

#[test]
fn a_deck_never_receives_device_events() {
    let mut engine = engine();
    let mut panel = admin(&mut engine);
    let device_id = pair(&mut engine, &mut panel);
    let mut phone = deck(&mut engine, &device_id);
    let out = handle_envelope(&mut engine, &mut phone, req(KnownOp::ProfileSubscribe, Payload::Absent), &env());
    assert!(out.reply.is_ok());
    let out = handle_envelope(&mut engine, &mut phone, req(KnownOp::TelemetrySubscribe, Payload::Absent), &env());
    assert!(out.reply.is_ok());
    assert!(!phone.wants(EventAudience::for_op(KnownOp::DeviceChanged)), "a deck must never learn about other devices");
    assert!(!phone.wants(EventAudience::for_op(KnownOp::PairingState)));
    assert!(panel.wants(EventAudience::for_op(KnownOp::DeviceChanged)));
}

#[test]
fn an_invalid_profile_is_refused_with_a_specific_message() {
    let mut engine = engine();
    let mut panel = admin(&mut engine);
    let profile = Profile {
        id: "p_bad".into(),
        name: "Out of bounds".into(),
        grid: Grid { cols: 2, rows: 2 },
        pages: vec![Page {
            id: "pg_1".into(),
            name: "Main".into(),
            buttons: vec![Button {
                id: "b_1".into(),
                pos: Position { col: 9, row: 9 },
                label: "Nowhere".into(),
                icon: "circle".into(),
                color: "#000000".into(),
                haptic: Haptic::Off,
                on_tap: None,
                on_long_press: None,
            }],
        }],
    };
    let out = send(&mut engine, &mut panel, KnownOp::ProfileSet, Request::ProfileSet(ProfileWrapper { profile }));
    match out.reply {
        Err(e) => {
            let payload = e.to_payload();
            assert_eq!(payload.code, ErrorCode::BadRequest);
            assert!(payload.message.contains("outside"), "the message must say what is wrong: {}", payload.message);
        }
        Ok(_) => panic!("a button outside the grid must be refused"),
    }
    assert!(!out.saves.profiles);
    assert!(out.events.is_empty());
}

#[test]
fn an_unauthenticated_socket_is_closed_after_the_timeout() {
    let mut engine = engine();
    let mut session = Session::new(PeerAddr { ip: IpAddress::V4([10, 0, 0, 3]), port: 6 });
    let out = send(&mut engine, &mut session, KnownOp::SystemPing, Request::Ping(PingRequest { t_client: 1 }));
    assert_eq!(code(&out), ErrorCode::NotAuthenticated);
    assert_eq!(muxdeck::engine::session::AUTH_TIMEOUT_SECONDS, 10);
}

#[test]
fn a_held_window_lasts_exactly_its_time_to_live() {
    let mut engine = engine();
    assert!(engine.pairing_window_after(0).is_none());
    let window = engine.open_pairing(Some(60)).expect("window");
    let held = engine.pairing_window_after(59).expect("still open");
    assert_eq!(held.code(), window.code());
    assert_eq!(held.expires_at(), window.expires_at());
    assert!(engine.pairing_window_after(60).is_none());
    assert!(engine.pairing_window().is_some());
    engine.close_pairing();
    assert!(engine.pairing_window().is_none());
}

#[test]
fn the_window_stays_closed_across_other_requests_until_the_next_begin() {
    let mut engine = engine();
    let mut panel = admin(&mut engine);
    pair(&mut engine, &mut panel);
    let ping = send(&mut engine, &mut panel, KnownOp::SystemPing, Request::Ping(PingRequest { t_client: 7 }));
    assert!(ping.reply.is_ok());
    let key = deck_key();
    let pubkey = key.verifying_key().to_bytes();
    let request = PairRequest {
        code: "123456".into(),
        device_pubkey: BASE64.encode(pubkey),
        device_name: "Tablet".into(),
        platform: Platform::Android,
        proof: BASE64.encode(key.sign(&pair_proof_message("123456", &pubkey)).to_bytes()),
    };
    let mut newcomer = Session::new(PeerAddr { ip: IpAddress::V4([192, 168, 1, 10]), port: 3 });
    let out = send(&mut engine, &mut newcomer, KnownOp::PairRequest, Request::Pair(request));
    assert_eq!(code(&out), ErrorCode::PairingClosed);
    assert!(engine.pairing_window().is_none());
    pair(&mut engine, &mut panel);
}
