//! The handshake state machine and role assignment: one socket's authentication state.
//!
//! This is where a mistake is a full host compromise rather than a bug. A socket starts with
//! nothing proven; a deck reaches `deck` only by signing a fresh nonce bound to its device ID
//! and this host's ID, and `admin` is granted only to a loopback peer presenting the admin
//! token.
use vstd::prelude::*;

use crate::engine::error::{is_wire_error, EngineError};
use crate::engine::identity::Identity;
use crate::engine::pairing::{answers_decode, constant_time_eq, decode_fixed, decode_fixed_spec};
use crate::engine::registry::{
    is_corrupt_device_key, stored_key_spec, unknown_device_message, Registry, StoredDeviceView,
};
use crate::engine::server::EventAudience;
use crate::primitives::{
    base64_encode, base64_standard_encode, ed25519_strict_verifies, ed25519_verify_strict,
    random_bytes,
};
use crate::protocol::envelope::{ErrorCode, PROTOCOL_VERSION};
use crate::protocol::session::{
    both_credentials_message, neither_credential_message, AuthRequest, Capabilities, Challenge,
    HelloRequest, HelloResponse, HostPlatform, Ready, Role,
};
use crate::protocol::signing::{session_auth_layout, session_auth_message, SIGNATURE_LEN};
use crate::text::owned;

verus! {

/// How long a socket may stay unauthenticated before it is closed, in seconds.
pub const AUTH_TIMEOUT_SECONDS: u64 = 10;

/// An IP address as the operating system reports it.
#[derive(Debug, Clone, Copy, PartialEq, Eq)]
pub enum IpAddress {
    V4([u8; 4]),
    V6([u16; 8]),
}

/// The remote end of a socket.
#[derive(Debug, Clone, Copy, PartialEq, Eq)]
pub struct PeerAddr {
    pub ip: IpAddress,
    pub port: u16,
}

/// `127.0.0.0/8` or `::1`, as `std::net::IpAddr::is_loopback` defines it.
pub open spec fn is_loopback_spec(ip: IpAddress) -> bool {
    match ip {
        IpAddress::V4(o) => o@[0] == 127,
        IpAddress::V6(s) => s@[0] == 0 && s@[1] == 0 && s@[2] == 0 && s@[3] == 0 && s@[4] == 0
            && s@[5] == 0 && s@[6] == 0 && s@[7] == 1,
    }
}

impl IpAddress {
    pub fn is_loopback(&self) -> (r: bool)
        ensures
            r == is_loopback_spec(*self),
    {
        match self {
            IpAddress::V4(o) => o[0] == 127,
            IpAddress::V6(s) => s[0] == 0 && s[1] == 0 && s[2] == 0 && s[3] == 0 && s[4] == 0
                && s[5] == 0 && s[6] == 0 && s[7] == 1,
        }
    }
}

/// Everything the handshake needs to look at, borrowed for the duration of one message.
pub struct HandshakeContext<'a> {
    pub identity: &'a Identity,
    pub registry: &'a Registry,
    pub host_name: &'a str,
    pub engine_version: &'a str,
    pub active_profile_id: &'a str,
    pub host_platform: HostPlatform,
    pub capabilities: Capabilities,
}

/// What the handshake looks at, as plain values.
pub struct HandshakeFacts {
    pub host_id: Seq<char>,
    pub admin_token: Seq<char>,
    pub devices: Map<Seq<char>, StoredDeviceView>,
    pub host_name: Seq<char>,
    pub engine_version: Seq<char>,
    pub active_profile_id: Seq<char>,
    pub host_platform: HostPlatform,
    pub capabilities: Capabilities,
}

/// `r` is the `Ready` answered with for `role`.
pub open spec fn is_ready_for(f: HandshakeFacts, role: Role, r: Ready) -> bool {
    &&& r.role == role
    &&& r.protocol == PROTOCOL_VERSION
    &&& r.engine_version@ == f.engine_version
    &&& r.host_platform == f.host_platform
    &&& r.active_profile_id@ == f.active_profile_id
    &&& r.capabilities == f.capabilities
}

impl<'a> HandshakeContext<'a> {
    /// The context as plain values.
    pub open spec fn facts(&self) -> HandshakeFacts {
        HandshakeFacts {
            host_id: self.identity.host_id_spec(),
            admin_token: self.identity.admin_token_spec(),
            devices: self.registry@,
            host_name: self.host_name@,
            engine_version: self.engine_version@,
            active_profile_id: self.active_profile_id@,
            host_platform: self.host_platform,
            capabilities: self.capabilities,
        }
    }

    pub fn ready(&self, role: Role) -> (r: Ready)
        ensures
            is_ready_for(self.facts(), role, r),
    {
        Ready {
            role,
            protocol: PROTOCOL_VERSION,
            engine_version: owned(self.engine_version),
            host_platform: self.host_platform,
            active_profile_id: owned(self.active_profile_id),
            capabilities: self.capabilities,
        }
    }
}

/// A socket's authentication state, as plain values.
#[allow(inconsistent_fields)]
pub enum SessionState {
    /// Nothing has been proven. Only `session.*` and `pair.*` are accepted.
    Unauthenticated,
    /// A challenge has been issued and the signature over it is awaited.
    AwaitingAuth { device_id: Seq<char>, nonce: Seq<u8> },
    Ready { role: Role, device_id: Option<Seq<char>> },
}

/// A session as plain values.
pub struct SessionView {
    pub peer: PeerAddr,
    pub state: SessionState,
    pub profile_subscribed: bool,
    pub telemetry_subscribed: bool,
}

#[derive(Debug)]
#[allow(inconsistent_fields)]
enum State {
    Unauthenticated,
    AwaitingAuth { device_id: String, nonce: Vec<u8> },
    Ready { role: Role, device_id: Option<String> },
}

/// One socket's authentication state.
pub struct Session {
    peer: PeerAddr,
    state: State,
    profile_subscribed: bool,
    telemetry_subscribed: bool,
}

pub open spec fn already_ready_message() -> Seq<char> {
    "this session has already completed its handshake"@
}

pub open spec fn admin_refused_message() -> Seq<char> {
    "the admin role is available only to a local client presenting the admin token"@
}

pub open spec fn auth_without_challenge_message() -> Seq<char> {
    "session.auth is valid only after a session.hello challenge"@
}

pub open spec fn bad_challenge_signature_message() -> Seq<char> {
    "challenge signature did not verify"@
}

/// Whether a deck's `session.hello` gets past the registry: the device is paired and its
/// stored key is readable. Checked before any nonce is drawn.
pub open spec fn deck_known(devices: Map<Seq<char>, StoredDeviceView>, device_id: Seq<char>) -> bool {
    devices.dom().contains(device_id) && stored_key_spec(devices[device_id].pubkey) is Some
}

/// `e` is what a deck that is not [`deck_known`] is refused with: `UNKNOWN_DEVICE` for an ID the
/// registry lacks, the corrupt-key error for an unreadable stored key.
pub open spec fn deck_refusal(
    devices: Map<Seq<char>, StoredDeviceView>,
    device_id: Seq<char>,
    e: EngineError,
) -> bool {
    if !devices.dom().contains(device_id) {
        is_wire_error(e, ErrorCode::UnknownDevice, unknown_device_message())
    } else {
        is_corrupt_device_key(e)
    }
}

impl View for Session {
    type V = SessionView;

    closed spec fn view(&self) -> SessionView {
        SessionView {
            peer: self.peer,
            state: match self.state {
                State::Unauthenticated => SessionState::Unauthenticated,
                State::AwaitingAuth { device_id, nonce } => SessionState::AwaitingAuth {
                    device_id: device_id@,
                    nonce: nonce@,
                },
                State::Ready { role, device_id } => SessionState::Ready {
                    role,
                    device_id: match device_id {
                        Some(d) => Some(d@),
                        None => None,
                    },
                },
            },
            profile_subscribed: self.profile_subscribed,
            telemetry_subscribed: self.telemetry_subscribed,
        }
    }
}

/// Whether the session has finished its handshake.
pub open spec fn is_ready_state(s: SessionState) -> bool {
    s is Ready
}

/// The role granted, once ready.
pub open spec fn role_of(s: SessionState) -> Option<Role> {
    match s {
        SessionState::Ready { role, .. } => Some(role),
        _ => None,
    }
}

/// Whether a session in this state receives an event for this audience. Nothing reaches a
/// socket that has not finished its handshake.
pub open spec fn wants_spec(v: SessionView, audience: EventAudience) -> bool {
    is_ready_state(v.state) && match audience {
        EventAudience::ProfileSubscribers => v.profile_subscribed,
        EventAudience::TelemetrySubscribers => v.telemetry_subscribed,
        EventAudience::AdminOnly => role_of(v.state) == Some(Role::Admin),
        EventAudience::AllAuthenticated => true,
    }
}

impl Session {
    pub fn new(peer: PeerAddr) -> (r: Self)
        ensures
            r@.peer == peer,
            r@.state == SessionState::Unauthenticated,
            !r@.profile_subscribed,
            !r@.telemetry_subscribed,
    {
        Session {
            peer,
            state: State::Unauthenticated,
            profile_subscribed: false,
            telemetry_subscribed: false,
        }
    }

    pub fn peer(&self) -> (r: PeerAddr)
        ensures
            r == self@.peer,
    {
        self.peer
    }

    /// The role this socket has been granted, if it has finished authenticating.
    pub fn role(&self) -> (r: Option<Role>)
        ensures
            r == role_of(self@.state),
    {
        match &self.state {
            State::Ready { role, .. } => Some(*role),
            _ => None,
        }
    }

    /// The device behind this socket: the one being challenged, or the one authenticated.
    /// `None` for the admin panel, which has no device identity.
    pub fn device_id(&self) -> (r: Option<&str>)
        ensures
            match self@.state {
                SessionState::Unauthenticated => r is None,
                SessionState::AwaitingAuth { device_id, .. } => r matches Some(d) && d@
                    == device_id,
                SessionState::Ready { device_id, .. } => match device_id {
                    Some(id) => r matches Some(d) && d@ == id,
                    None => r is None,
                },
            },
    {
        match &self.state {
            State::Ready { device_id, .. } => match device_id {
                Some(d) => Some(d.as_str()),
                None => None,
            },
            State::AwaitingAuth { device_id, .. } => Some(device_id.as_str()),
            State::Unauthenticated => None,
        }
    }

    pub fn is_ready(&self) -> (r: bool)
        ensures
            r == is_ready_state(self@.state),
    {
        match self.state {
            State::Ready { .. } => true,
            _ => false,
        }
    }

    /// `profile.subscribe`: from now on this socket receives `profile.changed`.
    pub fn subscribe_profile(&mut self)
        ensures
            final(self)@ == (SessionView { profile_subscribed: true, ..old(self)@ }),
    {
        self.profile_subscribed = true;
    }

    /// `telemetry.subscribe`: from now on this socket receives `telemetry.update`.
    pub fn subscribe_telemetry(&mut self)
        ensures
            final(self)@ == (SessionView { telemetry_subscribed: true, ..old(self)@ }),
    {
        self.telemetry_subscribed = true;
    }

    /// Whether this socket receives an event addressed to `audience`.
    pub fn wants(&self, audience: EventAudience) -> (r: bool)
        ensures
            r == wants_spec(self@, audience),
    {
        if !self.is_ready() {
            return false;
        }
        match audience {
            EventAudience::ProfileSubscribers => self.profile_subscribed,
            EventAudience::TelemetrySubscribers => self.telemetry_subscribed,
            EventAudience::AdminOnly => match self.role() {
                Some(Role::Admin) => true,
                _ => false,
            },
            EventAudience::AllAuthenticated => true,
        }
    }

    /// Handles `session.hello` and returns the tagged union to send back.
    ///
    /// A completed handshake is not restarted; both credentials or neither is `BAD_REQUEST`.
    /// An admin token is checked at once; a device is challenged with a fresh random nonce,
    /// so what is promised of a challenge holds whatever the nonce drawn.
    pub fn handle_hello(&mut self, request: &HelloRequest, ctx: &HandshakeContext) -> (r: Result<
        HelloResponse,
        EngineError,
    >)
        ensures
            hello_contract(old(self)@, final(self)@, *request, ctx.facts(), r),
    {
        if self.is_ready() {
            return Err(
                EngineError::wire(
                    ErrorCode::BadRequest,
                    String::from_str("this session has already completed its handshake"),
                ),
            );
        }
        match request.validate() {
            Ok(()) => {},
            Err(payload) => {
                return Err(EngineError::Wire(payload));
            },
        }
        match (&request.device_id, &request.admin_token) {
            (None, Some(token)) => match self.hello_admin(token.as_str(), ctx) {
                Ok(ready) => Ok(HelloResponse::Ready(ready)),
                Err(e) => Err(e),
            },
            (Some(device_id), _) => self.hello_deck(device_id.as_str(), ctx),
            (None, None) => {
                // validate() refused this case above.
                Err(
                    EngineError::wire(
                        ErrorCode::BadRequest,
                        String::from_str(
                            "session.hello carries neither device_id nor admin_token; exactly one is required",
                        ),
                    ),
                )
            },
        }
    }

    /// The admin path: loopback **and** a matching token, no challenge round trip. Both halves
    /// are required: loopback alone would admit a second logged-in user on a multi-user
    /// desktop, and the token alone would be reachable from the network.
    fn hello_admin(&mut self, token: &str, ctx: &HandshakeContext) -> (r: Result<Ready, EngineError>)
        requires
            !is_ready_state(old(self)@.state),
        ensures
            answers_admin_hello(
                old(self)@,
                final(self)@,
                token@,
                ctx.facts(),
                match r {
                    Ok(ready) => Ok(HelloResponse::Ready(ready)),
                    Err(e) => Err(e),
                },
            ),
    {
        let from_loopback = self.peer.ip.is_loopback();
        let token_matches = constant_time_eq(token.as_bytes(), ctx.identity.admin_token().as_bytes());
        proof {
            vstd::utf8::encode_utf8_decode_utf8(token@);
            vstd::utf8::encode_utf8_decode_utf8(ctx.identity.admin_token_spec());
        }
        if !from_loopback || !token_matches {
            // One error for both failures on purpose: telling a remote caller that its token
            // was correct would confirm it had stolen a valid one.
            return Err(
                EngineError::wire(
                    ErrorCode::NotAuthorized,
                    String::from_str(
                        "the admin role is available only to a local client presenting the admin token",
                    ),
                ),
            );
        }
        let ready = ctx.ready(Role::Admin);
        self.state = State::Ready { role: Role::Admin, device_id: None };
        Ok(ready)
    }

    /// The deck path: look the device up now, so an unknown one fails before it has signed
    /// anything, then draw a nonce and issue the challenge.
    fn hello_deck(&mut self, device_id: &str, ctx: &HandshakeContext) -> (r: Result<
        HelloResponse,
        EngineError,
    >)
        requires
            !is_ready_state(old(self)@.state),
        ensures
            r is Err ==> final(self)@ == old(self)@,
            !deck_known(ctx.facts().devices, device_id@) ==> (r matches Err(e) && deck_refusal(
                ctx.facts().devices,
                device_id@,
                e,
            )),
            deck_known(ctx.facts().devices, device_id@) ==> ((r matches Err(e) && e is Entropy)
                || exists|nonce: Seq<u8>|
                #[trigger] answers_deck_hello(
                    old(self)@,
                    final(self)@,
                    device_id@,
                    nonce,
                    ctx.facts(),
                    r,
                )),
    {
        match ctx.registry.verifying_key(device_id) {
            Ok(_) => {},
            Err(e) => {
                return Err(e);
            },
        }
        let nonce = match random_bytes(32) {
            Ok(n) => n,
            Err(e) => {
                return Err(e);
            },
        };
        let ghost drawn = nonce@;
        let r = Ok(HelloResponse::Challenge(self.challenge_with(device_id, nonce, ctx)));
        proof {
            assert(answers_deck_hello(old(self)@, final(self)@, device_id@, drawn, ctx.facts(), r));
        }
        r
    }

    /// Issues the challenge for `device_id` over `nonce`: the session now awaits a signature
    /// over exactly that nonce.
    pub fn challenge_with(&mut self, device_id: &str, nonce: Vec<u8>, ctx: &HandshakeContext) -> (r:
        Challenge)
        requires
            nonce@.len() == 32,
        ensures
            answers_deck_hello(
                old(self)@,
                final(self)@,
                device_id@,
                nonce@,
                ctx.facts(),
                Ok(HelloResponse::Challenge(r)),
            ),
    {
        let challenge = Challenge {
            nonce: base64_encode(nonce.as_slice()),
            host_id: owned(ctx.identity.host_id()),
            host_name: owned(ctx.host_name),
        };
        self.state = State::AwaitingAuth { device_id: owned(device_id), nonce };
        challenge
    }

    /// Handles `session.auth`: valid only directly after a challenge. The device must still be
    /// paired, the signature must be 64 bytes of base64, and it must verify over
    /// `"muxdeck-session-v1" || nonce || device_id || host_id` under the device's stored key.
    /// A refused attempt leaves the challenge standing.
    pub fn handle_auth(&mut self, request: &AuthRequest, ctx: &HandshakeContext) -> (r: Result<
        Ready,
        EngineError,
    >)
        ensures
            auth_contract(old(self)@, final(self)@, request.signature@, ctx.facts(), r),
    {
        let (device_id, nonce) = match &self.state {
            State::AwaitingAuth { device_id, nonce } => (owned(device_id.as_str()), clone_bytes(nonce)),
            _ => {
                return Err(
                    EngineError::wire(
                        ErrorCode::NotAuthenticated,
                        String::from_str("session.auth is valid only after a session.hello challenge"),
                    ),
                );
            },
        };
        let key = match ctx.registry.verifying_key(device_id.as_str()) {
            Ok(k) => k,
            Err(e) => {
                return Err(e);
            },
        };
        let signature = match decode_fixed(request.signature.as_str(), "signature", SIGNATURE_LEN) {
            Ok(s) => s,
            Err(e) => {
                return Err(e);
            },
        };
        let message = session_auth_message(nonce.as_slice(), device_id.as_str(), ctx.identity.host_id());
        if !ed25519_verify_strict(key.as_slice(), message.as_slice(), signature.as_slice()) {
            return Err(
                EngineError::wire(
                    ErrorCode::BadSignature,
                    String::from_str("challenge signature did not verify"),
                ),
            );
        }
        let ready = ctx.ready(Role::Deck);
        self.state = State::Ready { role: Role::Deck, device_id: Some(device_id) };
        Ok(ready)
    }
}

/// What `session.hello` does from `before`: a completed handshake is not restarted; both
/// credentials or neither is `BAD_REQUEST`; an admin token is checked at once; a paired device
/// is challenged with a fresh nonce, so what is promised of a challenge holds whatever nonce was
/// drawn, and the only way its hello fails is the entropy source failing. A refused hello
/// changes nothing.
pub open spec fn hello_contract(
    before: SessionView,
    after: SessionView,
    request: HelloRequest,
    f: HandshakeFacts,
    r: Result<HelloResponse, EngineError>,
) -> bool {
    &&& r is Err ==> after == before
    &&& is_ready_state(before.state) ==> (r matches Err(e) && is_wire_error(
        e,
        ErrorCode::BadRequest,
        already_ready_message(),
    ))
    &&& !is_ready_state(before.state) ==> match (request.device_id, request.admin_token) {
        (Some(_), Some(_)) => r matches Err(e) && is_wire_error(
            e,
            ErrorCode::BadRequest,
            both_credentials_message(),
        ),
        (None, None) => r matches Err(e) && is_wire_error(
            e,
            ErrorCode::BadRequest,
            neither_credential_message(),
        ),
        (None, Some(token)) => answers_admin_hello(before, after, token@, f, r),
        (Some(id), None) => if deck_known(f.devices, id@) {
            (r matches Err(e) && e is Entropy) || exists|nonce: Seq<u8>|
                #[trigger] answers_deck_hello(before, after, id@, nonce, f, r)
        } else {
            r matches Err(e) && deck_refusal(f.devices, id@, e)
        },
    }
}

/// What `session.auth` with this signature does from `before`: valid only directly after a
/// challenge; a refused attempt changes nothing and leaves the challenge standing.
pub open spec fn auth_contract(
    before: SessionView,
    after: SessionView,
    signature: Seq<char>,
    f: HandshakeFacts,
    r: Result<Ready, EngineError>,
) -> bool {
    &&& r is Err ==> after == before
    &&& match before.state {
        SessionState::AwaitingAuth { device_id, nonce } => answers_auth(
            before,
            after,
            device_id,
            nonce,
            signature,
            f,
            r,
        ),
        _ => r matches Err(e) && is_wire_error(
            e,
            ErrorCode::NotAuthenticated,
            auth_without_challenge_message(),
        ),
    }
}

/// The outcome of an admin `session.hello` from `before`: `admin` with no device identity for a
/// loopback peer presenting the token, `NOT_AUTHORIZED` and no change otherwise.
pub open spec fn answers_admin_hello(
    before: SessionView,
    after: SessionView,
    token: Seq<char>,
    f: HandshakeFacts,
    r: Result<HelloResponse, EngineError>,
) -> bool {
    if is_loopback_spec(before.peer.ip) && token == f.admin_token {
        &&& r matches Ok(HelloResponse::Ready(ready)) && is_ready_for(f, Role::Admin, ready)
        &&& after == (SessionView {
            state: SessionState::Ready { role: Role::Admin, device_id: None },
            ..before
        })
    } else {
        &&& r matches Err(e) && is_wire_error(e, ErrorCode::NotAuthorized, admin_refused_message())
        &&& after == before
    }
}

/// The outcome of a deck `session.hello` that drew `nonce`: a challenge carrying the nonce in
/// base64, this host's ID and name, and a session awaiting a signature over that nonce.
pub open spec fn answers_deck_hello(
    before: SessionView,
    after: SessionView,
    device_id: Seq<char>,
    nonce: Seq<u8>,
    f: HandshakeFacts,
    r: Result<HelloResponse, EngineError>,
) -> bool {
    &&& nonce.len() == 32
    &&& r matches Ok(HelloResponse::Challenge(c)) && c.nonce@ == base64_standard_encode(nonce)
        && c.host_id@ == f.host_id && c.host_name@ == f.host_name
    &&& after == (SessionView { state: SessionState::AwaitingAuth { device_id, nonce }, ..before })
}

/// The outcome of `session.auth` while awaiting a signature over `nonce` from `device_id`.
pub open spec fn answers_auth(
    before: SessionView,
    after: SessionView,
    device_id: Seq<char>,
    nonce: Seq<u8>,
    signature: Seq<char>,
    f: HandshakeFacts,
    r: Result<Ready, EngineError>,
) -> bool {
    if !deck_known(f.devices, device_id) {
        r matches Err(e) && deck_refusal(f.devices, device_id, e)
    } else {
        {
            let key = stored_key_spec(f.devices[device_id].pubkey)->Some_0;
            match decode_fixed_spec(signature, "signature"@, SIGNATURE_LEN as nat) {
                Err(message) => r matches Err(e) && is_wire_error(
                    e,
                    ErrorCode::BadRequest,
                    message,
                ),
                Ok(sig) => if ed25519_strict_verifies(
                    key,
                    session_auth_layout(nonce, device_id, f.host_id),
                    sig,
                ) {
                    &&& r matches Ok(ready) && is_ready_for(f, Role::Deck, ready)
                    &&& after == (SessionView {
                        state: SessionState::Ready { role: Role::Deck, device_id: Some(device_id) },
                        ..before
                    })
                } else {
                    r matches Err(e) && is_wire_error(
                        e,
                        ErrorCode::BadSignature,
                        bad_challenge_signature_message(),
                    )
                },
            }
        }
    }
}

/// A copy of `bytes`.
fn clone_bytes(bytes: &Vec<u8>) -> (r: Vec<u8>)
    ensures
        r@ == bytes@,
{
    let mut out: Vec<u8> = Vec::new();
    let mut i: usize = 0;
    while i < bytes.len()
        invariant
            i <= bytes@.len(),
            out@ == bytes@.take(i as int),
        decreases bytes@.len() - i,
    {
        out.push(bytes[i]);
        assert(bytes@.take(i + 1) =~= bytes@.take(i as int).push(bytes@[i as int]));
        i = i + 1;
    }
    assert(bytes@.take(bytes@.len() as int) =~= bytes@);
    out
}

/// A challenge is answered only by a signature over its own nonce: after `session.hello`
/// challenged a paired device, a `session.auth` whose signature is 64 bytes of base64 completes
/// the handshake as that device exactly when the signature verifies under the device's key over
/// `"muxdeck-session-v1" || nonce || device_id || host_id` for the nonce sent in the challenge;
/// any other signature is `BAD_SIGNATURE`, and the challenge stands.
pub proof fn law_challenge_then_auth(
    s0: SessionView,
    s1: SessionView,
    s2: SessionView,
    hello: HelloRequest,
    signature: Seq<char>,
    f: HandshakeFacts,
    r1: Result<HelloResponse, EngineError>,
    r2: Result<Ready, EngineError>,
)
    requires
        hello_contract(s0, s1, hello, f, r1),
        r1 is Ok && r1->Ok_0 is Challenge,
        auth_contract(s1, s2, signature, f, r2),
        decode_fixed_spec(signature, "signature"@, SIGNATURE_LEN as nat) is Ok,
    ensures
        hello.device_id is Some && deck_known(f.devices, (hello.device_id->Some_0)@),
        s1.state is AwaitingAuth && s1.state->AwaitingAuth_device_id == (hello.device_id->Some_0)@,
        ({
            let d = (hello.device_id->Some_0)@;
            let nonce = s1.state->AwaitingAuth_nonce;
            let key = stored_key_spec(f.devices[d].pubkey)->Some_0;
            let sig = decode_fixed_spec(signature, "signature"@, SIGNATURE_LEN as nat)->Ok_0;
            &&& nonce.len() == 32
            &&& (r1->Ok_0)->Challenge_0.nonce@ == base64_standard_encode(nonce)
            &&& (r2 is Ok <==> ed25519_strict_verifies(key, session_auth_layout(nonce, d, f.host_id), sig))
            &&& r2 is Ok ==> is_ready_for(f, Role::Deck, r2->Ok_0) && s2 == (SessionView {
                state: SessionState::Ready { role: Role::Deck, device_id: Some(d) },
                ..s1
            })
            &&& r2 is Err ==> s2 == s1 && (r2 matches Err(e) && is_wire_error(
                e,
                ErrorCode::BadSignature,
                bad_challenge_signature_message(),
            ))
        }),
{
    let d = (hello.device_id->Some_0)@;
    let nonce = choose|nonce: Seq<u8>| #[trigger] answers_deck_hello(s0, s1, d, nonce, f, r1);
    assert(answers_deck_hello(s0, s1, d, nonce, f, r1));
}

} // verus!
