//! Request handling for one socket: the envelope checks, the capability check, and what each
//! op does to the engine and the session. The socket loop itself, the JSON on the wire and the
//! files on disk are the caller's part: it parses a frame, hands the payload here already
//! typed, writes back the files the outcome names, publishes its events and sends its reply.
use vstd::prelude::*;

use crate::engine::actions::{actions_delete_contract, actions_set_contract, is_action_listing};
use crate::engine::dispatch::{answers, authorize, authorize_spec};
use crate::engine::engine::{
    handshake_facts, window_view, Engine, EngineView, WindowView,
};
use crate::engine::error::{is_wire_error, EngineError};
use crate::engine::pairing::{
    answers_verdict, pair_request_verdict, pairing_closed_message, qr_payload_spec, verify_pair_request,
};
use crate::engine::registry::{is_device_listing, registry_insert_contract, registry_touch_contract};
use crate::engine::session::{
    auth_contract, hello_contract, is_ready_state, role_of, wants_spec, HandshakeContext, Session,
    SessionState, SessionView,
};
use crate::engine::store::{
    active_spec, is_profile_listing, store_activate_contract, store_delete_contract,
    store_set_contract,
};
use crate::input::BackendCapabilities;
use crate::primitives::unix_now_millis;
use crate::protocol::action::{
    Action, ActionDeleteRequest, ActionListResponse, ActionRunRequest, ActionSetRequest,
};
use crate::protocol::envelope::{version_message, Envelope, ErrorCode, KnownOp, Op, PROTOCOL_VERSION};
use crate::protocol::pairing::{
    ttl_range_message, PairBeginRequest, PairBeginResponse, PairListDevicesResponse, PairRequest,
    PairResponse, PairRevokeRequest, PairingState, TTL_MAX_SECONDS, TTL_MIN_SECONDS,
};
use crate::protocol::profile::{
    ProfileActivateRequest, ProfileDeleteRequest, ProfileGetRequest, ProfileListResponse,
    ProfileWrapper,
};
use crate::protocol::session::{AuthRequest, HelloRequest, HelloResponse, Ready, Role};
use crate::protocol::settings::{apply_patch, Settings, SettingsPatch, SettingsSetResponse};
use crate::protocol::telemetry::{DeviceChangedEvent, PingRequest, PingResponse};
use crate::text::{concat2, decimal, owned};

verus! {

/// Who an event is for: the "Delivered to" column of the protocol's event table. Every event is
/// routed by one of these rather than by an ad-hoc check at the send site.
#[derive(Debug, Clone, Copy, PartialEq, Eq, Structural)]
pub enum EventAudience {
    /// Sockets that called `profile.subscribe`, whatever their role. Deliberately not
    /// admin-only: an edit on the desktop reaching the tablet *is* a `profile.changed`
    /// reaching a deck.
    ProfileSubscribers,
    /// Sockets that called `telemetry.subscribe`, whatever their role.
    TelemetrySubscribers,
    /// `admin` only: device and pairing state are not a deck's business.
    AdminOnly,
    /// Every authenticated socket, subscribed or not.
    AllAuthenticated,
}

pub open spec fn audience_for_op(op: KnownOp) -> EventAudience {
    match op {
        KnownOp::ProfileChanged => EventAudience::ProfileSubscribers,
        KnownOp::TelemetryUpdate => EventAudience::TelemetrySubscribers,
        KnownOp::DeviceChanged | KnownOp::PairingState => EventAudience::AdminOnly,
        KnownOp::EngineShutdown => EventAudience::AllAuthenticated,
        // Not an event; nothing is ever published under it.
        _ => EventAudience::AdminOnly,
    }
}

impl EventAudience {
    /// The audience for an event op.
    pub fn for_op(op: KnownOp) -> (r: Self)
        ensures
            r == audience_for_op(op),
    {
        match op {
            KnownOp::ProfileChanged => EventAudience::ProfileSubscribers,
            KnownOp::TelemetryUpdate => EventAudience::TelemetrySubscribers,
            KnownOp::DeviceChanged | KnownOp::PairingState => EventAudience::AdminOnly,
            KnownOp::EngineShutdown => EventAudience::AllAuthenticated,
            _ => EventAudience::AdminOnly,
        }
    }
}

/// A request's payload, typed by the caller according to its op.
pub enum Request {
    Hello(HelloRequest),
    Auth(AuthRequest),
    Pair(PairRequest),
    PairBegin(PairBeginRequest),
    PairRevoke(PairRevokeRequest),
    Ping(PingRequest),
    ProfileGet(ProfileGetRequest),
    ProfileSet(ProfileWrapper),
    ProfileActivate(ProfileActivateRequest),
    ProfileDelete(ProfileDeleteRequest),
    ActionRun(ActionRunRequest),
    ActionSet(ActionSetRequest),
    ActionDelete(ActionDeleteRequest),
    SettingsSet(SettingsPatch),
}

/// What the caller made of the `d` field.
pub enum Payload {
    /// Parsed into the request type of the op.
    Parsed(Request),
    /// The op's request type could not be parsed from it; the parser's description.
    Malformed(String),
    /// Not read: the op takes no payload.
    Absent,
}

/// The message a payload the op cannot use is refused with.
pub open spec fn payload_message(p: Payload) -> Seq<char> {
    match p {
        Payload::Malformed(m) => "malformed payload: "@ + m@,
        _ => "malformed payload: not the payload of this op"@,
    }
}

fn malformed(p: &Payload) -> (e: EngineError)
    ensures
        is_wire_error(e, ErrorCode::BadRequest, payload_message(*p)),
{
    match p {
        Payload::Malformed(m) => EngineError::wire(ErrorCode::BadRequest, concat2("malformed payload: ", m.as_str())),
        _ => EngineError::wire(
            ErrorCode::BadRequest,
            String::from_str("malformed payload: not the payload of this op"),
        ),
    }
}

/// What a request is answered with.
pub enum Reply {
    Hello(HelloResponse),
    Ready(Ready),
    Paired(PairResponse),
    PairBegun(PairBeginResponse),
    Devices(PairListDevicesResponse),
    Pong(PingResponse),
    Profile(ProfileWrapper),
    Profiles(ProfileListResponse),
    Actions(ActionListResponse),
    Settings(Settings),
    SettingsSet(SettingsSetResponse),
    /// Run this action, then answer `{}`, or `INJECTION_FAILED` if it could not be started.
    Run(Action),
    /// `{}`.
    Empty,
}

/// An event to publish, addressed by its op's audience.
pub enum Event {
    PairingState(PairingState),
    DeviceChanged(DeviceChangedEvent),
    ProfileChanged(ProfileWrapper),
}

impl Event {
    pub open spec fn op_spec(&self) -> KnownOp {
        match self {
            Event::PairingState(_) => KnownOp::PairingState,
            Event::DeviceChanged(_) => KnownOp::DeviceChanged,
            Event::ProfileChanged(_) => KnownOp::ProfileChanged,
        }
    }

    pub fn op(&self) -> (r: KnownOp)
        ensures
            r == self.op_spec(),
    {
        match self {
            Event::PairingState(_) => KnownOp::PairingState,
            Event::DeviceChanged(_) => KnownOp::DeviceChanged,
            Event::ProfileChanged(_) => KnownOp::ProfileChanged,
        }
    }

    /// Who receives this event.
    pub fn audience(&self) -> (r: EventAudience)
        ensures
            r == audience_for_op(self.op_spec()),
    {
        EventAudience::for_op(self.op())
    }
}

/// The files a handled request changed, for the caller to write back.
#[derive(Debug, Clone, Copy, PartialEq, Eq, Structural)]
pub struct Saves {
    pub devices: bool,
    pub profiles: bool,
    pub actions: bool,
    pub settings: bool,
}

pub open spec fn no_saves() -> Saves {
    Saves { devices: false, profiles: false, actions: false, settings: false }
}

fn nothing_to_save() -> (r: Saves)
    ensures
        r == no_saves(),
{
    Saves { devices: false, profiles: false, actions: false, settings: false }
}

/// The result of handling one request.
pub struct Outcome {
    pub reply: Result<Reply, EngineError>,
    pub events: Vec<Event>,
    pub saves: Saves,
}

/// What the caller knows of the host right now: whether the input backend passes its
/// preflight, what it claims to support, and the address a phone should dial.
pub struct HostEnv {
    pub usable: bool,
    pub backend: BackendCapabilities,
    pub advertised_addr: String,
}

/// The five `input.*` ops, which the caller runs itself because injection waits.
pub open spec fn is_input_op(op: KnownOp) -> bool {
    match op {
        KnownOp::InputKeyCombo
        | KnownOp::InputKeySequence
        | KnownOp::InputText
        | KnownOp::InputMedia
        | KnownOp::InputMouse => true,
        _ => false,
    }
}

pub fn is_input(op: KnownOp) -> (r: bool)
    ensures
        r == is_input_op(op),
{
    match op {
        KnownOp::InputKeyCombo
        | KnownOp::InputKeySequence
        | KnownOp::InputText
        | KnownOp::InputMedia
        | KnownOp::InputMouse => true,
        _ => false,
    }
}

/// The checks every request passes before its payload is looked at: the protocol version,
/// then the capability matrix.
pub open spec fn entry_verdict(v: u8, op: Op, s: SessionView) -> Result<KnownOp, (ErrorCode, Seq<char>)> {
    if v != PROTOCOL_VERSION {
        Err((ErrorCode::UnsupportedVersion, version_message(v)))
    } else {
        authorize_spec(op, s.state is Ready, role_of(s.state))
    }
}

/// Checks the version and the capability matrix, before any payload is looked at.
pub fn check_entry(v: u8, op: &Op, session: &Session) -> (r: Result<KnownOp, EngineError>)
    ensures
        answers(r, entry_verdict(v, *op, session@)),
{
    if v != PROTOCOL_VERSION {
        let mut m = String::from_str("protocol version ");
        m.append(decimal(v as u64).as_str());
        m.append(" is not supported");
        return Err(EngineError::wire(ErrorCode::UnsupportedVersion, m));
    }
    authorize(op, session)
}

/// `out` answers `code` and `message` and changes and publishes nothing.
pub open spec fn refused(out: Outcome, code: ErrorCode, message: Seq<char>) -> bool {
    &&& out.reply matches Err(e) && is_wire_error(e, code, message)
    &&& out.events@.len() == 0
    &&& out.saves == no_saves()
}

/// `out` carries no events and names no file.
pub open spec fn quiet(out: Outcome) -> bool {
    out.events@.len() == 0 && out.saves == no_saves()
}

fn refuse(e: EngineError) -> (out: Outcome)
    ensures
        out.reply == Err::<Reply, EngineError>(e),
        quiet(out),
{
    Outcome { reply: Err(e), events: Vec::new(), saves: nothing_to_save() }
}

fn answer(reply: Reply) -> (out: Outcome)
    ensures
        out.reply == Ok::<Reply, EngineError>(reply),
        quiet(out),
{
    Outcome { reply: Ok(reply), events: Vec::new(), saves: nothing_to_save() }
}

// ---------------------------------------------------------------------------------------------
// The session ops.
// ---------------------------------------------------------------------------------------------

/// `out` answers a payload the op cannot use, and nothing changes.
pub open spec fn payload_refused(
    b: EngineView,
    a: EngineView,
    s0: SessionView,
    s1: SessionView,
    p: Payload,
    out: Outcome,
) -> bool {
    refused(out, ErrorCode::BadRequest, payload_message(p)) && a == b && s1 == s0
}

/// `session.hello`: the handshake state machine's answer; the engine is untouched.
pub open spec fn hello_outcome(
    b: EngineView,
    a: EngineView,
    s0: SessionView,
    s1: SessionView,
    p: Payload,
    env: HostEnv,
    out: Outcome,
) -> bool {
    match p {
        Payload::Parsed(Request::Hello(req)) => {
            let f = handshake_facts(b, env.usable, env.backend);
            &&& a == b
            &&& quiet(out)
            &&& match out.reply {
                Ok(Reply::Hello(h)) => hello_contract(s0, s1, req, f, Ok(h)),
                Err(e) => hello_contract(s0, s1, req, f, Err(e)),
                _ => false,
            }
        },
        _ => payload_refused(b, a, s0, s1, p, out),
    }
}

/// `session.auth`: the handshake state machine's answer. On success the device is marked
/// connected and seen, and admins hear of it.
pub open spec fn auth_outcome(
    b: EngineView,
    a: EngineView,
    s0: SessionView,
    s1: SessionView,
    p: Payload,
    env: HostEnv,
    out: Outcome,
) -> bool {
    match p {
        Payload::Parsed(Request::Auth(req)) => {
            let f = handshake_facts(b, env.usable, env.backend);
            match out.reply {
                Err(e) => auth_contract(s0, s1, req.signature@, f, Err(e)) && a == b && quiet(out),
                Ok(Reply::Ready(r)) => {
                    &&& auth_contract(s0, s1, req.signature@, f, Ok(r))
                    &&& s1.state matches SessionState::Ready { device_id: Some(id), .. } && {
                        &&& exists|touched: bool|
                            #[trigger] registry_touch_contract(b.devices, a.devices, id, touched)
                                && out.saves == (Saves { devices: touched, ..no_saves() })
                        &&& a == (EngineView {
                            devices: a.devices,
                            connected: b.connected.insert(id),
                            ..b
                        })
                    }
                    &&& out.events@.len() == 1
                    &&& out.events@[0] matches Event::DeviceChanged(ev) && is_device_listing(
                        ev.devices@,
                        a.devices,
                        a.connected,
                    )
                },
                _ => false,
            }
        },
        _ => payload_refused(b, a, s0, s1, p, out),
    }
}

fn op_hello(engine: &mut Engine, session: &mut Session, p: Payload, env: &HostEnv) -> (out: Outcome)
    ensures
        hello_outcome(old(engine)@, final(engine)@, old(session)@, final(session)@, p, *env, out),
{
    let request = match p {
        Payload::Parsed(Request::Hello(r)) => r,
        _ => {
            return refuse(malformed(&p));
        },
    };
    let host_name = engine.host_name();
    let active = engine.active_profile_id();
    let ctx = HandshakeContext {
        identity: engine.identity(),
        registry: engine.registry(),
        host_name: host_name.as_str(),
        engine_version: engine.engine_version(),
        active_profile_id: active.as_str(),
        host_platform: engine.host_platform(),
        capabilities: engine.capabilities(env.usable, env.backend),
    };
    assert(ctx.facts() == handshake_facts(engine@, env.usable, env.backend));
    match session.handle_hello(&request, &ctx) {
        Ok(h) => answer(Reply::Hello(h)),
        Err(e) => refuse(e),
    }
}

fn op_auth(engine: &mut Engine, session: &mut Session, p: Payload, env: &HostEnv) -> (out: Outcome)
    ensures
        auth_outcome(old(engine)@, final(engine)@, old(session)@, final(session)@, p, *env, out),
{
    let request = match p {
        Payload::Parsed(Request::Auth(r)) => r,
        _ => {
            return refuse(malformed(&p));
        },
    };
    let host_name = engine.host_name();
    let active = engine.active_profile_id();
    let ready = {
        let ctx = HandshakeContext {
            identity: engine.identity(),
            registry: engine.registry(),
            host_name: host_name.as_str(),
            engine_version: engine.engine_version(),
            active_profile_id: active.as_str(),
            host_platform: engine.host_platform(),
            capabilities: engine.capabilities(env.usable, env.backend),
        };
        assert(ctx.facts() == handshake_facts(engine@, env.usable, env.backend));
        match session.handle_auth(&request, &ctx) {
            Ok(r) => r,
            Err(e) => {
                return refuse(e);
            },
        }
    };
    let ghost b = engine@;
    let device_id = match session.device_id() {
        Some(d) => owned(d),
        None => {
            // A completed deck handshake always names its device.
            return answer(Reply::Ready(ready));
        },
    };
    engine.mark_connected(device_id.as_str());
    let ghost mid = engine@;
    let touched = engine.touch_device(device_id.as_str());
    let devices = engine.list_devices();
    let mut events: Vec<Event> = Vec::new();
    events.push(Event::DeviceChanged(DeviceChangedEvent { devices }));
    proof {
        assert(registry_touch_contract(b.devices, engine@.devices, device_id@, touched));
    }
    Outcome {
        reply: Ok(Reply::Ready(ready)),
        events,
        saves: Saves { devices: touched, profiles: false, actions: false, settings: false },
    }
}

// ---------------------------------------------------------------------------------------------
// The pairing ops.
// ---------------------------------------------------------------------------------------------

pub open spec fn no_such_device_message() -> Seq<char> {
    "no such paired device"@
}

/// The window a `pair.request` may be checked against: none, or the one held. Which one it is
/// depends on the monotonic clock, since an expired window counts as closed.
pub open spec fn window_case(b: EngineView, open: Option<Seq<char>>) -> bool {
    open is None || (b.pairing matches Some(w) && open == Some(w.code))
}

/// `pair.request` against the window `open`: refused with the verdict's error and nothing
/// changed, or the device registered, the window closed (one device per window: leaving it open
/// would let anyone who saw the QR pair a second device), and admins told of both.
pub open spec fn pair_request_outcome(
    b: EngineView,
    a: EngineView,
    req: PairRequest,
    open: Option<Seq<char>>,
    out: Outcome,
) -> bool {
    match pair_request_verdict(open, req) {
        Err((code, message)) => refused(out, code, message) && a == b,
        Ok(key) => {
            &&& out.reply matches Ok(Reply::Paired(resp)) && {
                &&& registry_insert_contract(
                    b.devices,
                    a.devices,
                    key,
                    req.device_name@,
                    req.platform,
                    Ok(resp.device_id),
                )
                &&& resp.host_id@ == b.identity.host_id_spec()
                &&& resp.host_name@ == b.settings.host_name
            }
            &&& a == (EngineView { devices: a.devices, pairing: None, ..b })
            &&& out.saves == (Saves { devices: true, ..no_saves() })
            &&& out.events@.len() == 2
            &&& out.events@[0] matches Event::PairingState(s) && !s.active && s.expires_at == 0
            &&& out.events@[1] matches Event::DeviceChanged(ev) && is_device_listing(
                ev.devices@,
                a.devices,
                a.connected,
            )
        },
    }
}

pub open spec fn pair_outcome(
    b: EngineView,
    a: EngineView,
    s0: SessionView,
    s1: SessionView,
    p: Payload,
    out: Outcome,
) -> bool {
    match p {
        Payload::Parsed(Request::Pair(req)) => s1 == s0 && exists|open: Option<Seq<char>>|
            #[trigger] window_case(b, open) && pair_request_outcome(b, a, req, open, out),
        _ => payload_refused(b, a, s0, s1, p, out),
    }
}

/// The window `pair.begin` opened: a six-digit code, the asked-for length, the QR payload
/// naming this host, and admins told the window is open.
pub open spec fn pair_begun(
    b: EngineView,
    a: EngineView,
    req: PairBeginRequest,
    env: HostEnv,
    w: WindowView,
    out: Outcome,
) -> bool {
    &&& w.code.len() == 6
    &&& w.ttl == match req.ttl_seconds {
        Some(t) => t,
        None => crate::protocol::pairing::DEFAULT_TTL_SECONDS,
    }
    &&& a == (EngineView { pairing: Some(w), ..b })
    &&& out.reply matches Ok(Reply::PairBegun(r)) && r.code@ == w.code && r.expires_at
        == w.expires_at && r.qr_payload@ == qr_payload_spec(
        env.advertised_addr@,
        b.identity.host_id_spec(),
        b.identity.fingerprint_spec(),
        w.code,
    )
    &&& out.saves == no_saves()
    &&& out.events@.len() == 1
    &&& out.events@[0] matches Event::PairingState(s) && s.active && s.expires_at == w.expires_at
}

/// `pair.begin`: a `ttl_seconds` outside `30..=300` is refused, never coerced; otherwise a new
/// window replaces any open one, unless the entropy source fails.
pub open spec fn pair_begin_outcome(
    b: EngineView,
    a: EngineView,
    s0: SessionView,
    s1: SessionView,
    p: Payload,
    env: HostEnv,
    out: Outcome,
) -> bool {
    match p {
        Payload::Parsed(Request::PairBegin(req)) => s1 == s0 && match req.ttl_seconds {
            Some(ttl) if !(TTL_MIN_SECONDS <= ttl <= TTL_MAX_SECONDS) => refused(
                out,
                ErrorCode::BadRequest,
                ttl_range_message(ttl),
            ) && a == b,
            _ => (out.reply matches Err(e) && e is Entropy && quiet(out) && a == b) || exists|w: WindowView|
                #[trigger] pair_begun(b, a, req, env, w, out),
        },
        _ => payload_refused(b, a, s0, s1, p, out),
    }
}

/// `pair.cancel`: the window closes and admins are told.
pub open spec fn pair_cancel_outcome(
    b: EngineView,
    a: EngineView,
    s0: SessionView,
    s1: SessionView,
    out: Outcome,
) -> bool {
    &&& s1 == s0
    &&& a == (EngineView { pairing: None, ..b })
    &&& out.reply matches Ok(Reply::Empty)
    &&& out.saves == no_saves()
    &&& out.events@.len() == 1
    &&& out.events@[0] matches Event::PairingState(s) && !s.active && s.expires_at == 0
}

/// `pair.list_devices`: every paired device, with its live flag.
pub open spec fn list_devices_outcome(
    b: EngineView,
    a: EngineView,
    s0: SessionView,
    s1: SessionView,
    out: Outcome,
) -> bool {
    &&& s1 == s0
    &&& a == b
    &&& quiet(out)
    &&& out.reply matches Ok(Reply::Devices(r)) && is_device_listing(r.devices@, b.devices, b.connected)
}

/// `pair.revoke`: a paired device is removed at once and its connection forgotten, and admins
/// are told; an unknown ID is `UNKNOWN_DEVICE`. Closing the device's live socket is the
/// caller's part.
pub open spec fn revoke_outcome(
    b: EngineView,
    a: EngineView,
    s0: SessionView,
    s1: SessionView,
    p: Payload,
    out: Outcome,
) -> bool {
    match p {
        Payload::Parsed(Request::PairRevoke(req)) => s1 == s0 && if b.devices.dom().contains(
            req.device_id@,
        ) {
            &&& a == (EngineView {
                devices: b.devices.remove(req.device_id@),
                connected: b.connected.remove(req.device_id@),
                ..b
            })
            &&& out.reply matches Ok(Reply::Empty)
            &&& out.saves == (Saves { devices: true, ..no_saves() })
            &&& out.events@.len() == 1
            &&& out.events@[0] matches Event::DeviceChanged(ev) && is_device_listing(
                ev.devices@,
                a.devices,
                a.connected,
            )
        } else {
            refused(out, ErrorCode::UnknownDevice, no_such_device_message()) && a == b
        },
        _ => payload_refused(b, a, s0, s1, p, out),
    }
}

fn closed_event() -> (e: Event)
    ensures
        e matches Event::PairingState(s) && !s.active && s.expires_at == 0,
{
    Event::PairingState(PairingState { active: false, expires_at: 0 })
}

fn op_pair(engine: &mut Engine, session: &mut Session, p: Payload) -> (out: Outcome)
    ensures
        pair_outcome(old(engine)@, final(engine)@, old(session)@, final(session)@, p, out),
{
    let request = match p {
        Payload::Parsed(Request::Pair(r)) => r,
        _ => {
            return refuse(malformed(&p));
        },
    };
    let ghost b = engine@;
    let window = engine.pairing_window();
    let ghost open: Option<Seq<char>> = if window is Some {
        Some(window->Some_0.code_spec())
    } else {
        None
    };
    let verified = match &window {
        Some(w) => verify_pair_request(Some(w), &request),
        None => verify_pair_request(None, &request),
    };
    let ghost case = if answers_verdict(verified, pair_request_verdict(open, request)) {
        open
    } else {
        None
    };
    assert(window_case(b, case));
    assert(answers_verdict(verified, pair_request_verdict(case, request)));
    let pubkey = match verified {
        Ok(k) => k,
        Err(e) => {
            return refuse(e);
        },
    };
    let name = request.device_name.clone();
    let device_id = match engine.insert_device(pubkey.as_slice(), name, request.platform) {
        Ok(id) => id,
        Err(e) => {
            return refuse(e);
        },
    };
    let ghost ins = engine@.devices;
    engine.close_pairing();
    let devices = engine.list_devices();
    let mut events: Vec<Event> = Vec::new();
    events.push(closed_event());
    events.push(Event::DeviceChanged(DeviceChangedEvent { devices }));
    let reply = Reply::Paired(
        PairResponse {
            device_id,
            host_id: owned(engine.identity().host_id()),
            host_name: engine.host_name(),
        },
    );
    proof {
        assert(pair_request_outcome(b, engine@, request, case, Outcome {
            reply: Ok(reply),
            events,
            saves: Saves { devices: true, profiles: false, actions: false, settings: false },
        }));
    }
    Outcome {
        reply: Ok(reply),
        events,
        saves: Saves { devices: true, profiles: false, actions: false, settings: false },
    }
}

fn op_pair_begin(engine: &mut Engine, session: &mut Session, p: Payload, env: &HostEnv) -> (out:
    Outcome)
    ensures
        pair_begin_outcome(
            old(engine)@,
            final(engine)@,
            old(session)@,
            final(session)@,
            p,
            *env,
            out,
        ),
{
    let request = match p {
        Payload::Parsed(Request::PairBegin(r)) => r,
        _ => {
            return refuse(malformed(&p));
        },
    };
    match request.validate() {
        Ok(()) => {},
        Err(payload) => {
            return refuse(EngineError::Wire(payload));
        },
    }
    let ghost b = engine@;
    let window = match engine.open_pairing(request.ttl_seconds) {
        Ok(w) => w,
        Err(e) => {
            return refuse(e);
        },
    };
    let qr_payload = window.qr_payload(
        env.advertised_addr.as_str(),
        engine.identity().host_id(),
        engine.identity().fingerprint(),
    );
    let mut events: Vec<Event> = Vec::new();
    events.push(Event::PairingState(PairingState { active: true, expires_at: window.expires_at() }));
    let reply = Reply::PairBegun(
        PairBeginResponse {
            code: owned(window.code()),
            expires_at: window.expires_at(),
            qr_payload,
        },
    );
    let out = Outcome { reply: Ok(reply), events, saves: nothing_to_save() };
    proof {
        assert(pair_begun(b, engine@, request, *env, window_view(window), out));
    }
    out
}

fn op_pair_cancel(engine: &mut Engine, session: &mut Session) -> (out: Outcome)
    ensures
        pair_cancel_outcome(old(engine)@, final(engine)@, old(session)@, final(session)@, out),
{
    engine.close_pairing();
    let mut events: Vec<Event> = Vec::new();
    events.push(closed_event());
    Outcome { reply: Ok(Reply::Empty), events, saves: nothing_to_save() }
}

fn op_list_devices(engine: &mut Engine, session: &mut Session) -> (out: Outcome)
    ensures
        list_devices_outcome(old(engine)@, final(engine)@, old(session)@, final(session)@, out),
{
    answer(Reply::Devices(PairListDevicesResponse { devices: engine.list_devices() }))
}

fn op_revoke(engine: &mut Engine, session: &mut Session, p: Payload) -> (out: Outcome)
    ensures
        revoke_outcome(old(engine)@, final(engine)@, old(session)@, final(session)@, p, out),
{
    let request = match p {
        Payload::Parsed(Request::PairRevoke(r)) => r,
        _ => {
            return refuse(malformed(&p));
        },
    };
    let ghost b = engine@;
    let existed = engine.revoke_device(request.device_id.as_str());
    if !existed {
        proof {
            assert(engine@.devices =~= b.devices);
        }
        return refuse(
            EngineError::wire(ErrorCode::UnknownDevice, String::from_str("no such paired device")),
        );
    }
    engine.mark_disconnected(request.device_id.as_str());
    let devices = engine.list_devices();
    let mut events: Vec<Event> = Vec::new();
    events.push(Event::DeviceChanged(DeviceChangedEvent { devices }));
    Outcome {
        reply: Ok(Reply::Empty),
        events,
        saves: Saves { devices: true, profiles: false, actions: false, settings: false },
    }
}

// ---------------------------------------------------------------------------------------------
// Ping, layouts and subscriptions.
// ---------------------------------------------------------------------------------------------

/// `system.ping`: `t_client` echoed verbatim beside the engine's own clock.
pub open spec fn ping_outcome(
    b: EngineView,
    a: EngineView,
    s0: SessionView,
    s1: SessionView,
    p: Payload,
    out: Outcome,
) -> bool {
    match p {
        Payload::Parsed(Request::Ping(req)) => {
            &&& a == b
            &&& s1 == s0
            &&& quiet(out)
            &&& out.reply matches Ok(Reply::Pong(r)) && r.t_client == req.t_client
        },
        _ => payload_refused(b, a, s0, s1, p, out),
    }
}

/// `profile.get`: the stored profile, or `NOT_FOUND`.
pub open spec fn profile_get_outcome(
    b: EngineView,
    a: EngineView,
    s0: SessionView,
    s1: SessionView,
    p: Payload,
    out: Outcome,
) -> bool {
    match p {
        Payload::Parsed(Request::ProfileGet(req)) => a == b && s1 == s0 && if b.store.profiles.dom().contains(
            req.profile_id@,
        ) {
            &&& quiet(out)
            &&& out.reply matches Ok(Reply::Profile(w)) && w.profile@
                == b.store.profiles[req.profile_id@]
        } else {
            refused(out, ErrorCode::NotFound, crate::engine::store::no_such_profile_message())
        },
        _ => payload_refused(b, a, s0, s1, p, out),
    }
}

/// `profile.list`: every profile, the active one flagged.
pub open spec fn profile_list_outcome(
    b: EngineView,
    a: EngineView,
    s0: SessionView,
    s1: SessionView,
    out: Outcome,
) -> bool {
    &&& a == b
    &&& s1 == s0
    &&& quiet(out)
    &&& out.reply matches Ok(Reply::Profiles(r)) && is_profile_listing(r.profiles@, b.store)
}

/// `profile.subscribe` and `telemetry.subscribe`: explicit opt-in, since the engine pushes
/// nothing unasked.
pub open spec fn subscribe_outcome(
    b: EngineView,
    a: EngineView,
    s0: SessionView,
    s1: SessionView,
    profile: bool,
    out: Outcome,
) -> bool {
    &&& a == b
    &&& s1 == if profile {
        SessionView { profile_subscribed: true, ..s0 }
    } else {
        SessionView { telemetry_subscribed: true, ..s0 }
    }
    &&& quiet(out)
    &&& out.reply matches Ok(Reply::Empty)
}

/// The layout change every subscribed deck hears of: exactly one `profile.changed` carrying `v`.
pub open spec fn announces_profile(out: Outcome, v: crate::protocol::profile::ProfileView) -> bool {
    &&& out.events@.len() == 1
    &&& out.events@[0] matches Event::ProfileChanged(w) && w.profile@ == v
}

/// The role a submitted layout is checked against: the socket's, `deck` if it somehow has none.
pub open spec fn submitting_role(s: SessionView) -> Role {
    match role_of(s.state) {
        Some(r) => r,
        None => Role::Deck,
    }
}

/// `profile.set`: validated against the submitting role and stored, and the new layout goes to
/// every subscribed deck, which is what makes the editor live.
pub open spec fn profile_set_outcome(
    b: EngineView,
    a: EngineView,
    s0: SessionView,
    s1: SessionView,
    p: Payload,
    out: Outcome,
) -> bool {
    match p {
        Payload::Parsed(Request::ProfileSet(w)) => {
            &&& s1 == s0
            &&& a == (EngineView { store: a.store, ..b })
            &&& match out.reply {
                Ok(Reply::Empty) => {
                    &&& store_set_contract(b.store, a.store, w.profile@, submitting_role(s0), Ok(()))
                    &&& out.saves == (Saves { profiles: true, ..no_saves() })
                    &&& announces_profile(out, w.profile@)
                },
                Err(e) => store_set_contract(
                    b.store,
                    a.store,
                    w.profile@,
                    submitting_role(s0),
                    Err(e),
                ) && quiet(out),
                _ => false,
            }
        },
        _ => payload_refused(b, a, s0, s1, p, out),
    }
}

/// After `profile.activate` or `profile.delete` succeeds, the layout now active goes out the
/// same way an edit does.
pub open spec fn announces_active(out: Outcome, a: EngineView) -> bool {
    match active_spec(a.store) {
        Some(v) => announces_profile(out, v),
        None => out.events@.len() == 0,
    }
}

/// `profile.activate`: the pointer moves, and every subscribed deck is sent the new layout.
pub open spec fn profile_activate_outcome(
    b: EngineView,
    a: EngineView,
    s0: SessionView,
    s1: SessionView,
    p: Payload,
    out: Outcome,
) -> bool {
    match p {
        Payload::Parsed(Request::ProfileActivate(req)) => {
            &&& s1 == s0
            &&& a == (EngineView { store: a.store, ..b })
            &&& match out.reply {
                Ok(Reply::Empty) => {
                    &&& store_activate_contract(b.store, a.store, req.profile_id@, Ok(()))
                    &&& out.saves == (Saves { profiles: true, ..no_saves() })
                    &&& announces_active(out, a)
                },
                Err(e) => store_activate_contract(b.store, a.store, req.profile_id@, Err(e))
                    && quiet(out),
                _ => false,
            }
        },
        _ => payload_refused(b, a, s0, s1, p, out),
    }
}

/// `profile.delete`: the profile goes, and every subscribed deck is sent the layout now active.
pub open spec fn profile_delete_outcome(
    b: EngineView,
    a: EngineView,
    s0: SessionView,
    s1: SessionView,
    p: Payload,
    out: Outcome,
) -> bool {
    match p {
        Payload::Parsed(Request::ProfileDelete(req)) => {
            &&& s1 == s0
            &&& a == (EngineView { store: a.store, ..b })
            &&& match out.reply {
                Ok(Reply::Empty) => {
                    &&& store_delete_contract(b.store, a.store, req.profile_id@, Ok(()))
                    &&& out.saves == (Saves { profiles: true, ..no_saves() })
                    &&& announces_active(out, a)
                },
                Err(e) => store_delete_contract(b.store, a.store, req.profile_id@, Err(e))
                    && quiet(out),
                _ => false,
            }
        },
        _ => payload_refused(b, a, s0, s1, p, out),
    }
}

fn op_ping(engine: &mut Engine, session: &mut Session, p: Payload) -> (out: Outcome)
    ensures
        ping_outcome(old(engine)@, final(engine)@, old(session)@, final(session)@, p, out),
{
    let request = match p {
        Payload::Parsed(Request::Ping(r)) => r,
        _ => {
            return refuse(malformed(&p));
        },
    };
    answer(Reply::Pong(PingResponse { t_client: request.t_client, t_engine: unix_now_millis() }))
}

fn op_profile_get(engine: &mut Engine, session: &mut Session, p: Payload) -> (out: Outcome)
    ensures
        profile_get_outcome(old(engine)@, final(engine)@, old(session)@, final(session)@, p, out),
{
    let request = match p {
        Payload::Parsed(Request::ProfileGet(r)) => r,
        _ => {
            return refuse(malformed(&p));
        },
    };
    match engine.store().get(request.profile_id.as_str()) {
        Some(profile) => answer(Reply::Profile(ProfileWrapper { profile: profile.clone() })),
        None => refuse(EngineError::wire(ErrorCode::NotFound, String::from_str("no such profile"))),
    }
}

fn op_profile_list(engine: &mut Engine, session: &mut Session) -> (out: Outcome)
    ensures
        profile_list_outcome(old(engine)@, final(engine)@, old(session)@, final(session)@, out),
{
    answer(Reply::Profiles(ProfileListResponse { profiles: engine.store().list() }))
}

fn op_subscribe(engine: &mut Engine, session: &mut Session, profile: bool) -> (out: Outcome)
    ensures
        subscribe_outcome(
            old(engine)@,
            final(engine)@,
            old(session)@,
            final(session)@,
            profile,
            out,
        ),
{
    if profile {
        session.subscribe_profile();
    } else {
        session.subscribe_telemetry();
    }
    answer(Reply::Empty)
}

/// The event announcing the active layout, if there is one.
fn active_events(engine: &Engine) -> (r: Vec<Event>)
    ensures
        announces_active(
            Outcome { reply: Ok(Reply::Empty), events: r, saves: no_saves() },
            engine@,
        ),
{
    let mut events: Vec<Event> = Vec::new();
    match engine.store().active() {
        Some(profile) => {
            events.push(Event::ProfileChanged(ProfileWrapper { profile: profile.clone() }));
        },
        None => {},
    }
    events
}

fn op_profile_set(engine: &mut Engine, session: &mut Session, p: Payload) -> (out: Outcome)
    ensures
        profile_set_outcome(old(engine)@, final(engine)@, old(session)@, final(session)@, p, out),
{
    let request = match p {
        Payload::Parsed(Request::ProfileSet(r)) => r,
        _ => {
            return refuse(malformed(&p));
        },
    };
    let role = match session.role() {
        Some(r) => r,
        None => Role::Deck,
    };
    let profile = request.profile;
    match engine.set_profile(profile.clone(), role) {
        Ok(()) => {},
        Err(e) => {
            return refuse(e);
        },
    }
    let mut events: Vec<Event> = Vec::new();
    events.push(Event::ProfileChanged(ProfileWrapper { profile }));
    Outcome {
        reply: Ok(Reply::Empty),
        events,
        saves: Saves { devices: false, profiles: true, actions: false, settings: false },
    }
}

fn op_profile_activate(engine: &mut Engine, session: &mut Session, p: Payload) -> (out: Outcome)
    ensures
        profile_activate_outcome(
            old(engine)@,
            final(engine)@,
            old(session)@,
            final(session)@,
            p,
            out,
        ),
{
    let request = match p {
        Payload::Parsed(Request::ProfileActivate(r)) => r,
        _ => {
            return refuse(malformed(&p));
        },
    };
    match engine.activate_profile(request.profile_id.as_str()) {
        Ok(()) => {},
        Err(e) => {
            return refuse(e);
        },
    }
    let events = active_events(engine);
    Outcome {
        reply: Ok(Reply::Empty),
        events,
        saves: Saves { devices: false, profiles: true, actions: false, settings: false },
    }
}

fn op_profile_delete(engine: &mut Engine, session: &mut Session, p: Payload) -> (out: Outcome)
    ensures
        profile_delete_outcome(
            old(engine)@,
            final(engine)@,
            old(session)@,
            final(session)@,
            p,
            out,
        ),
{
    let request = match p {
        Payload::Parsed(Request::ProfileDelete(r)) => r,
        _ => {
            return refuse(malformed(&p));
        },
    };
    match engine.delete_profile(request.profile_id.as_str()) {
        Ok(()) => {},
        Err(e) => {
            return refuse(e);
        },
    }
    let events = active_events(engine);
    Outcome {
        reply: Ok(Reply::Empty),
        events,
        saves: Saves { devices: false, profiles: true, actions: false, settings: false },
    }
}

// ---------------------------------------------------------------------------------------------
// Named actions and settings.
// ---------------------------------------------------------------------------------------------

pub open spec fn shell_off_message() -> Seq<char> {
    "shell actions are switched off. Enable them in the MuxDeck control panel; any paired device will then be able to run every defined action."@
}

/// Refuses the op unless shell actions are switched on.
fn require_shell_actions(engine: &Engine) -> (r: Result<(), EngineError>)
    ensures
        engine@.settings.shell_actions_enabled ==> r is Ok,
        !engine@.settings.shell_actions_enabled ==> (r matches Err(e) && is_wire_error(
            e,
            ErrorCode::Disabled,
            shell_off_message(),
        )),
{
    if engine.settings().shell_actions_enabled {
        Ok(())
    } else {
        Err(
            EngineError::wire(
                ErrorCode::Disabled,
                String::from_str(
                    "shell actions are switched off. Enable them in the MuxDeck control panel; any paired device will then be able to run every defined action.",
                ),
            ),
        )
    }
}

/// `action.run`: with shell actions on, the defined action to start; the client sends a name,
/// never a command. `DISABLED` when they are off, `NOT_FOUND` for an unknown name.
pub open spec fn action_run_outcome(
    b: EngineView,
    a: EngineView,
    s0: SessionView,
    s1: SessionView,
    p: Payload,
    out: Outcome,
) -> bool {
    match p {
        Payload::Parsed(Request::ActionRun(req)) => a == b && s1 == s0 && if !b.settings.shell_actions_enabled {
            refused(out, ErrorCode::Disabled, shell_off_message())
        } else if !b.actions.dom().contains(req.action_id@) {
            refused(out, ErrorCode::NotFound, crate::engine::actions::no_such_action_message())
        } else {
            &&& quiet(out)
            &&& out.reply matches Ok(Reply::Run(action)) && action@ == b.actions[req.action_id@]
        },
        _ => payload_refused(b, a, s0, s1, p, out),
    }
}

/// `action.list`: every defined action, or none at all while shell actions are off, so a
/// client can call it unconditionally at startup.
pub open spec fn action_list_outcome(
    b: EngineView,
    a: EngineView,
    s0: SessionView,
    s1: SessionView,
    out: Outcome,
) -> bool {
    &&& a == b
    &&& s1 == s0
    &&& quiet(out)
    &&& out.reply matches Ok(Reply::Actions(r)) && if b.settings.shell_actions_enabled {
        is_action_listing(r.actions@, b.actions)
    } else {
        r.actions@.len() == 0
    }
}

/// `action.set`: defining an action needs shell actions on, checked before the payload is
/// read: staging a command while the switch is off would make it runnable the instant anyone
/// flips it.
pub open spec fn action_set_outcome(
    b: EngineView,
    a: EngineView,
    s0: SessionView,
    s1: SessionView,
    p: Payload,
    out: Outcome,
) -> bool {
    if !b.settings.shell_actions_enabled {
        refused(out, ErrorCode::Disabled, shell_off_message()) && a == b && s1 == s0
    } else {
        match p {
            Payload::Parsed(Request::ActionSet(req)) => {
                &&& s1 == s0
                &&& a == (EngineView { actions: a.actions, ..b })
                &&& out.events@.len() == 0
                &&& match out.reply {
                    Ok(Reply::Empty) => actions_set_contract(b.actions, a.actions, req.action@, Ok(()))
                        && out.saves == (Saves { actions: true, ..no_saves() }),
                    Err(e) => actions_set_contract(b.actions, a.actions, req.action@, Err(e))
                        && out.saves == no_saves(),
                    _ => false,
                }
            },
            _ => payload_refused(b, a, s0, s1, p, out),
        }
    }
}

/// `action.delete`: like `action.set`, only with shell actions on.
pub open spec fn action_delete_outcome(
    b: EngineView,
    a: EngineView,
    s0: SessionView,
    s1: SessionView,
    p: Payload,
    out: Outcome,
) -> bool {
    if !b.settings.shell_actions_enabled {
        refused(out, ErrorCode::Disabled, shell_off_message()) && a == b && s1 == s0
    } else {
        match p {
            Payload::Parsed(Request::ActionDelete(req)) => {
                &&& s1 == s0
                &&& a == (EngineView { actions: a.actions, ..b })
                &&& out.events@.len() == 0
                &&& match out.reply {
                    Ok(Reply::Empty) => actions_delete_contract(
                        b.actions,
                        a.actions,
                        req.action_id@,
                        Ok(()),
                    ) && out.saves == (Saves { actions: true, ..no_saves() }),
                    Err(e) => actions_delete_contract(b.actions, a.actions, req.action_id@, Err(e))
                        && out.saves == no_saves(),
                    _ => false,
                }
            },
            _ => payload_refused(b, a, s0, s1, p, out),
        }
    }
}

/// `settings.get`: the full settings.
pub open spec fn settings_get_outcome(
    b: EngineView,
    a: EngineView,
    s0: SessionView,
    s1: SessionView,
    out: Outcome,
) -> bool {
    &&& a == b
    &&& s1 == s0
    &&& quiet(out)
    &&& out.reply matches Ok(Reply::Settings(s)) && s@ == b.settings
}

/// `settings.set`: present keys replaced, absent keys untouched; a new port needs a restart.
pub open spec fn settings_set_outcome(
    b: EngineView,
    a: EngineView,
    s0: SessionView,
    s1: SessionView,
    p: Payload,
    out: Outcome,
) -> bool {
    match p {
        Payload::Parsed(Request::SettingsSet(patch)) => {
            &&& s1 == s0
            &&& a == (EngineView { settings: apply_patch(patch, b.settings), ..b })
            &&& out.reply matches Ok(Reply::SettingsSet(r)) && r.restart_required == patch.port is Some
            &&& out.events@.len() == 0
            &&& out.saves == (Saves { settings: true, ..no_saves() })
        },
        _ => payload_refused(b, a, s0, s1, p, out),
    }
}

fn op_action_run(engine: &mut Engine, session: &mut Session, p: Payload) -> (out: Outcome)
    ensures
        action_run_outcome(old(engine)@, final(engine)@, old(session)@, final(session)@, p, out),
{
    let request = match p {
        Payload::Parsed(Request::ActionRun(r)) => r,
        _ => {
            return refuse(malformed(&p));
        },
    };
    match require_shell_actions(engine) {
        Ok(()) => {},
        Err(e) => {
            return refuse(e);
        },
    }
    match engine.actions().get(request.action_id.as_str()) {
        Some(action) => answer(Reply::Run(action.clone())),
        None => refuse(EngineError::wire(ErrorCode::NotFound, String::from_str("no such action"))),
    }
}

fn op_action_list(engine: &mut Engine, session: &mut Session) -> (out: Outcome)
    ensures
        action_list_outcome(old(engine)@, final(engine)@, old(session)@, final(session)@, out),
{
    let actions = if engine.settings().shell_actions_enabled {
        engine.actions().list()
    } else {
        Vec::new()
    };
    answer(Reply::Actions(ActionListResponse { actions }))
}

fn op_action_set(engine: &mut Engine, session: &mut Session, p: Payload) -> (out: Outcome)
    ensures
        action_set_outcome(old(engine)@, final(engine)@, old(session)@, final(session)@, p, out),
{
    match require_shell_actions(engine) {
        Ok(()) => {},
        Err(e) => {
            return refuse(e);
        },
    }
    let request = match p {
        Payload::Parsed(Request::ActionSet(r)) => r,
        _ => {
            return refuse(malformed(&p));
        },
    };
    match engine.set_action(request.action) {
        Ok(()) => Outcome {
            reply: Ok(Reply::Empty),
            events: Vec::new(),
            saves: Saves { devices: false, profiles: false, actions: true, settings: false },
        },
        Err(e) => refuse(e),
    }
}

fn op_action_delete(engine: &mut Engine, session: &mut Session, p: Payload) -> (out: Outcome)
    ensures
        action_delete_outcome(
            old(engine)@,
            final(engine)@,
            old(session)@,
            final(session)@,
            p,
            out,
        ),
{
    match require_shell_actions(engine) {
        Ok(()) => {},
        Err(e) => {
            return refuse(e);
        },
    }
    let request = match p {
        Payload::Parsed(Request::ActionDelete(r)) => r,
        _ => {
            return refuse(malformed(&p));
        },
    };
    match engine.delete_action(request.action_id.as_str()) {
        Ok(()) => Outcome {
            reply: Ok(Reply::Empty),
            events: Vec::new(),
            saves: Saves { devices: false, profiles: false, actions: true, settings: false },
        },
        Err(e) => refuse(e),
    }
}

fn op_settings_get(engine: &mut Engine, session: &mut Session) -> (out: Outcome)
    ensures
        settings_get_outcome(old(engine)@, final(engine)@, old(session)@, final(session)@, out),
{
    answer(Reply::Settings(engine.settings()))
}

fn op_settings_set(engine: &mut Engine, session: &mut Session, p: Payload) -> (out: Outcome)
    ensures
        settings_set_outcome(old(engine)@, final(engine)@, old(session)@, final(session)@, p, out),
{
    let patch = match p {
        Payload::Parsed(Request::SettingsSet(r)) => r,
        _ => {
            return refuse(malformed(&p));
        },
    };
    let restart_required = patch.requires_restart();
    engine.apply_settings(&patch);
    Outcome {
        reply: Ok(Reply::SettingsSet(SettingsSetResponse { restart_required })),
        events: Vec::new(),
        saves: Saves { devices: false, profiles: false, actions: false, settings: true },
    }
}

// ---------------------------------------------------------------------------------------------
// Routing.
// ---------------------------------------------------------------------------------------------

pub open spec fn event_not_request_message(op: KnownOp) -> Seq<char> {
    op.wire_name() + " is an event, not a request"@
}

/// What handling an admitted `op` does to the engine (`b` to `a`) and the session (`s0` to
/// `s1`), and what it answers, publishes and asks to be written.
pub open spec fn op_outcome(
    op: KnownOp,
    b: EngineView,
    a: EngineView,
    s0: SessionView,
    s1: SessionView,
    p: Payload,
    env: HostEnv,
    out: Outcome,
) -> bool {
    match op {
        KnownOp::SessionHello => hello_outcome(b, a, s0, s1, p, env, out),
        KnownOp::SessionAuth => auth_outcome(b, a, s0, s1, p, env, out),
        KnownOp::PairRequest => pair_outcome(b, a, s0, s1, p, out),
        KnownOp::PairBegin => pair_begin_outcome(b, a, s0, s1, p, env, out),
        KnownOp::PairCancel => pair_cancel_outcome(b, a, s0, s1, out),
        KnownOp::PairListDevices => list_devices_outcome(b, a, s0, s1, out),
        KnownOp::PairRevoke => revoke_outcome(b, a, s0, s1, p, out),
        KnownOp::SystemPing => ping_outcome(b, a, s0, s1, p, out),
        KnownOp::ProfileGet => profile_get_outcome(b, a, s0, s1, p, out),
        KnownOp::ProfileList => profile_list_outcome(b, a, s0, s1, out),
        KnownOp::ProfileSubscribe => subscribe_outcome(b, a, s0, s1, true, out),
        KnownOp::ProfileSet => profile_set_outcome(b, a, s0, s1, p, out),
        KnownOp::ProfileActivate => profile_activate_outcome(b, a, s0, s1, p, out),
        KnownOp::ProfileDelete => profile_delete_outcome(b, a, s0, s1, p, out),
        KnownOp::TelemetrySubscribe => subscribe_outcome(b, a, s0, s1, false, out),
        KnownOp::ActionRun => action_run_outcome(b, a, s0, s1, p, out),
        KnownOp::ActionList => action_list_outcome(b, a, s0, s1, out),
        KnownOp::ActionSet => action_set_outcome(b, a, s0, s1, p, out),
        KnownOp::ActionDelete => action_delete_outcome(b, a, s0, s1, p, out),
        KnownOp::SettingsGet => settings_get_outcome(b, a, s0, s1, out),
        KnownOp::SettingsSet => settings_set_outcome(b, a, s0, s1, p, out),
        KnownOp::InputKeyCombo
        | KnownOp::InputKeySequence
        | KnownOp::InputText
        | KnownOp::InputMedia
        | KnownOp::InputMouse => false,
        _ => refused(out, ErrorCode::UnknownOp, event_not_request_message(op)) && a == b && s1
            == s0,
    }
}

/// Handles one request that is not an `input.*` op (those the caller runs itself, since
/// injection waits): the version and capability checks come before the payload is looked at,
/// then the op does its work.
pub fn handle_envelope(
    engine: &mut Engine,
    session: &mut Session,
    envelope: Envelope<Payload>,
    env: &HostEnv,
) -> (out: Outcome)
    requires
        !(envelope.op matches Op::Known(k) && is_input_op(k)),
    ensures
        match entry_verdict(envelope.v, envelope.op, old(session)@) {
            Err((code, message)) => refused(out, code, message) && final(engine)@ == old(engine)@
                && final(session)@ == old(session)@,
            Ok(op) => op_outcome(
                op,
                old(engine)@,
                final(engine)@,
                old(session)@,
                final(session)@,
                envelope.d,
                *env,
                out,
            ),
        },
{
    // Capability check before the payload is even looked at.
    let op = match check_entry(envelope.v, &envelope.op, session) {
        Ok(op) => op,
        Err(e) => {
            return refuse(e);
        },
    };
    let p = envelope.d;
    match op {
        KnownOp::SessionHello => op_hello(engine, session, p, env),
        KnownOp::SessionAuth => op_auth(engine, session, p, env),
        KnownOp::PairRequest => op_pair(engine, session, p),
        KnownOp::PairBegin => op_pair_begin(engine, session, p, env),
        KnownOp::PairCancel => op_pair_cancel(engine, session),
        KnownOp::PairListDevices => op_list_devices(engine, session),
        KnownOp::PairRevoke => op_revoke(engine, session, p),
        KnownOp::SystemPing => op_ping(engine, session, p),
        KnownOp::ProfileGet => op_profile_get(engine, session, p),
        KnownOp::ProfileList => op_profile_list(engine, session),
        KnownOp::ProfileSubscribe => op_subscribe(engine, session, true),
        KnownOp::ProfileSet => op_profile_set(engine, session, p),
        KnownOp::ProfileActivate => op_profile_activate(engine, session, p),
        KnownOp::ProfileDelete => op_profile_delete(engine, session, p),
        KnownOp::TelemetrySubscribe => op_subscribe(engine, session, false),
        KnownOp::ActionRun => op_action_run(engine, session, p),
        KnownOp::ActionList => op_action_list(engine, session),
        KnownOp::ActionSet => op_action_set(engine, session, p),
        KnownOp::ActionDelete => op_action_delete(engine, session, p),
        KnownOp::SettingsGet => op_settings_get(engine, session),
        KnownOp::SettingsSet => op_settings_set(engine, session, p),
        _ => refuse(EngineError::wire(ErrorCode::UnknownOp, concat2(op.as_str(), " is an event, not a request"))),
    }
}

/// Who hears what: nothing reaches a socket before its handshake completes; device and pairing
/// events reach the panel only; layout events reach exactly the subscribed sockets, deck or
/// panel; and a shutdown reaches every authenticated socket.
pub proof fn law_event_delivery(v: SessionView, op: KnownOp)
    ensures
        !is_ready_state(v.state) ==> !wants_spec(v, audience_for_op(op)),
        (op == KnownOp::DeviceChanged || op == KnownOp::PairingState) ==> (wants_spec(
            v,
            audience_for_op(op),
        ) <==> is_ready_state(v.state) && role_of(v.state) == Some(Role::Admin)),
        op == KnownOp::ProfileChanged ==> (wants_spec(v, audience_for_op(op)) <==> is_ready_state(
            v.state,
        ) && v.profile_subscribed),
        op == KnownOp::TelemetryUpdate ==> (wants_spec(v, audience_for_op(op)) <==> is_ready_state(
            v.state,
        ) && v.telemetry_subscribed),
        op == KnownOp::EngineShutdown ==> (wants_spec(v, audience_for_op(op)) <==> is_ready_state(
            v.state,
        )),
{
}

/// With no window open, `pair.request` is refused with `PAIRING_CLOSED` and changes nothing,
/// whatever code it carries.
pub proof fn law_no_window_refuses_pairing(
    b: EngineView,
    a: EngineView,
    s0: SessionView,
    s1: SessionView,
    req: PairRequest,
    env: HostEnv,
    out: Outcome,
)
    requires
        b.pairing is None,
        op_outcome(KnownOp::PairRequest, b, a, s0, s1, Payload::Parsed(Request::Pair(req)), env, out),
    ensures
        refused(out, ErrorCode::PairingClosed, pairing_closed_message()),
        a == b,
        s1 == s0,
{
    let open = choose|open: Option<Seq<char>>| #[trigger] window_case(b, open) && pair_request_outcome(b, a, req, open, out);
    assert(open is None);
}

/// Once no window is open, none opens again until a `pair.begin`: every other op leaves the
/// engine without one.
pub proof fn law_window_stays_closed(
    op: KnownOp,
    b: EngineView,
    a: EngineView,
    s0: SessionView,
    s1: SessionView,
    p: Payload,
    env: HostEnv,
    out: Outcome,
)
    requires
        op != KnownOp::PairBegin,
        b.pairing is None,
        op_outcome(op, b, a, s0, s1, p, env, out),
    ensures
        a.pairing is None,
{
    if op == KnownOp::PairRequest {
        let req = p->Parsed_0->Pair_0;
        if p is Parsed && p->Parsed_0 is Pair {
            let open = choose|open: Option<Seq<char>>| #[trigger] window_case(b, open) && pair_request_outcome(b, a, req, open, out);
            assert(open is None);
        }
    }
}

/// One device per window: a `pair.request` answered with a paired device leaves no window open,
/// so every later `pair.request`, with the same code or any other, is refused with
/// `PAIRING_CLOSED` and changes nothing, until a new `pair.begin` (see
/// [`law_window_stays_closed`] for the ops in between).
pub proof fn law_one_device_per_window(
    b: EngineView,
    a: EngineView,
    s0: SessionView,
    s1: SessionView,
    p: Payload,
    env: HostEnv,
    out: Outcome,
    c: EngineView,
    s2: SessionView,
    next: PairRequest,
    out2: Outcome,
)
    requires
        op_outcome(KnownOp::PairRequest, b, a, s0, s1, p, env, out),
        out.reply matches Ok(Reply::Paired(_)),
        op_outcome(KnownOp::PairRequest, a, c, s1, s2, Payload::Parsed(Request::Pair(next)), env, out2),
    ensures
        a.pairing is None,
        refused(out2, ErrorCode::PairingClosed, pairing_closed_message()),
        c == a,
{
    let req = p->Parsed_0->Pair_0;
    let open = choose|open: Option<Seq<char>>| #[trigger] window_case(b, open) && pair_request_outcome(b, a, req, open, out);
    assert(pair_request_verdict(open, req) is Ok);
    law_no_window_refuses_pairing(a, c, s1, s2, next, env, out2);
}

} // verus!
