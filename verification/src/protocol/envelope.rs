//! The message envelope, operation names and error payloads.
use vstd::prelude::*;

use crate::text::{decimal, decimal_spec};

verus! {

/// The only protocol major version this build speaks. Anything else is
/// [`ErrorCode::UnsupportedVersion`].
pub const PROTOCOL_VERSION: u8 = 1;

/// Every message has this shape. `d`'s type is a function of `op` and `t` alone.
#[derive(Debug, Clone, PartialEq)]
pub struct Envelope<T> {
    /// Protocol major version. Anything but [`PROTOCOL_VERSION`] is rejected.
    pub v: u8,
    /// `req`, `res`, `err` or `evt`.
    pub t: MessageType,
    /// Correlation ID. Present on `req`, `res` and `err`; absent on `evt`.
    pub id: Option<String>,
    /// Operation name. A `res` or `err` echoes the op of the `req` it answers.
    pub op: Op,
    /// Payload. `{}` when empty, never `null`.
    pub d: T,
}

/// `r` is an error carrying exactly this code and message.
pub open spec fn is_error_with<T>(r: Result<T, ErrorPayload>, code: ErrorCode, message: Seq<char>) -> bool {
    r matches Err(e) && e.code == code && e.message@ == message
}

pub open spec fn version_message(v: u8) -> Seq<char> {
    "protocol version "@ + decimal_spec(v as nat) + " is not supported"@
}

/// The message for an `evt` that carries a correlation id.
pub open spec fn evt_with_id_message() -> Seq<char> {
    "an evt must not carry a correlation id"@
}

/// The message for a `req`, `res` or `err` without one.
pub open spec fn missing_id_message() -> Seq<char> {
    "a req, res or err must carry a correlation id"@
}

impl<T> Envelope<T> {
    /// True when `v` matches the version this build implements.
    pub fn is_supported_version(&self) -> (r: bool)
        ensures
            r == (self.v == PROTOCOL_VERSION),
    {
        self.v == PROTOCOL_VERSION
    }

    /// Checks the invariants that hold whatever the op: a supported version, and a correlation
    /// id exactly when the message is not an `evt`.
    pub fn validate(&self) -> (r: Result<(), ErrorPayload>)
        ensures
            self.v != PROTOCOL_VERSION ==> is_error_with(
                r,
                ErrorCode::UnsupportedVersion,
                version_message(self.v),
            ),
            self.v == PROTOCOL_VERSION && self.t == MessageType::Evt && self.id is Some
                ==> is_error_with(r, ErrorCode::BadRequest, evt_with_id_message()),
            self.v == PROTOCOL_VERSION && self.t != MessageType::Evt && self.id is None
                ==> is_error_with(r, ErrorCode::BadRequest, missing_id_message()),
            r is Ok <==> (self.v == PROTOCOL_VERSION && ((self.t == MessageType::Evt)
                == (self.id is None))),
    {
        if !self.is_supported_version() {
            let mut message = String::from_str("protocol version ");
            let number = decimal(self.v as u64);
            message.append(number.as_str());
            message.append(" is not supported");
            return Err(ErrorPayload::new(ErrorCode::UnsupportedVersion, message));
        }
        let is_evt = match self.t {
            MessageType::Evt => true,
            _ => false,
        };
        if is_evt {
            if self.id.is_some() {
                Err(
                    ErrorPayload::new(
                        ErrorCode::BadRequest,
                        String::from_str("an evt must not carry a correlation id"),
                    ),
                )
            } else {
                Ok(())
            }
        } else if self.id.is_none() {
            Err(
                ErrorPayload::new(
                    ErrorCode::BadRequest,
                    String::from_str("a req, res or err must carry a correlation id"),
                ),
            )
        } else {
            Ok(())
        }
    }
}

/// The `t` field.
#[derive(Debug, Clone, Copy, PartialEq, Eq, Hash, Structural)]
pub enum MessageType {
    Req,
    Res,
    Error,
    Evt,
}

/// An operation name. Unknown names are kept rather than refused, so the engine can answer
/// `UNKNOWN_OP` while still echoing what was asked for.
#[derive(Debug, Clone, PartialEq, Eq, Hash)]
pub enum Op {
    Known(KnownOp),
    Unknown(String),
}

impl Op {
    /// The wire string of this op.
    pub open spec fn wire(&self) -> Seq<char> {
        match self {
            Op::Known(op) => op.wire_name(),
            Op::Unknown(raw) => raw@,
        }
    }

    pub fn of(op: KnownOp) -> (r: Self)
        ensures
            r == Op::Known(op),
    {
        Op::Known(op)
    }

    /// Reads a wire name: the known op with that name (no two share one), otherwise the raw
    /// string.
    pub fn parse(wire: &str) -> (r: Self)
        ensures
            r.wire() == wire@,
            r is Known <==> exists|k: KnownOp| #[trigger] k.wire_name() == wire@,
            forall|k: KnownOp| #[trigger] k.wire_name() == wire@ ==> r == Op::Known(k),
    {
        let all = KnownOp::all();
        let mut i: usize = 0;
        while i < all.len()
            invariant
                all@ == all_ops_spec(),
                i <= all@.len(),
                forall|j: int| 0 <= j < i ==> (#[trigger] all@[j]).wire_name() != wire@,
            decreases all@.len() - i,
        {
            let candidate = all[i];
            if crate::text::str_eq(candidate.as_str(), wire) {
                proof {
                    assert forall|k: KnownOp| #[trigger] k.wire_name() == wire@ implies Op::Known(
                        candidate,
                    ) == Op::Known(k) by {
                        lemma_op_names_distinct(candidate, k);
                    }
                }
                return Op::Known(candidate);
            }
            i = i + 1;
        }
        proof {
            assert forall|k: KnownOp| #[trigger] k.wire_name() != wire@ by {
                lemma_op_index(k);
                let j = op_index(k) as int;
                assert(all@[j] == k);
            }
        }
        Op::Unknown(String::from_str(wire))
    }

    /// The wire string, whether or not this op is one we know.
    pub fn as_str(&self) -> (r: &str)
        ensures
            r@ == self.wire(),
    {
        match self {
            Op::Known(op) => op.as_str(),
            Op::Unknown(raw) => raw.as_str(),
        }
    }

    pub fn known(&self) -> (r: Option<KnownOp>)
        ensures
            r == (match self {
                Op::Known(op) => Some(*op),
                Op::Unknown(_) => None::<KnownOp>,
            }),
    {
        match self {
            Op::Known(op) => Some(*op),
            Op::Unknown(_) => None,
        }
    }
}

/// Every op the protocol defines, requests and events alike.
#[derive(Debug, Clone, Copy, PartialEq, Eq, Hash, Structural)]
pub enum KnownOp {
    /// `session.hello`
    SessionHello,
    /// `session.auth`
    SessionAuth,
    /// `pair.request`
    PairRequest,
    /// `pair.begin`
    PairBegin,
    /// `pair.cancel`
    PairCancel,
    /// `pair.list_devices`
    PairListDevices,
    /// `pair.revoke`
    PairRevoke,
    /// `system.ping`
    SystemPing,
    /// `input.key_combo`
    InputKeyCombo,
    /// `input.key_sequence`
    InputKeySequence,
    /// `input.text`
    InputText,
    /// `input.media`
    InputMedia,
    /// `input.mouse`
    InputMouse,
    /// `action.run`
    ActionRun,
    /// `action.list`
    ActionList,
    /// `action.set`
    ActionSet,
    /// `action.delete`
    ActionDelete,
    /// `profile.get`
    ProfileGet,
    /// `profile.list`
    ProfileList,
    /// `profile.subscribe`
    ProfileSubscribe,
    /// `profile.activate`
    ProfileActivate,
    /// `profile.set`
    ProfileSet,
    /// `profile.delete`
    ProfileDelete,
    /// `telemetry.subscribe`
    TelemetrySubscribe,
    /// `settings.get`
    SettingsGet,
    /// `settings.set`
    SettingsSet,
    /// `profile.changed`
    ProfileChanged,
    /// `telemetry.update`
    TelemetryUpdate,
    /// `device.changed`
    DeviceChanged,
    /// `pairing.state`
    PairingState,
    /// `engine.shutdown`
    EngineShutdown,
}

/// Every op, in declaration order.
pub open spec fn all_ops_spec() -> Seq<KnownOp> {
    seq![
        KnownOp::SessionHello,
        KnownOp::SessionAuth,
        KnownOp::PairRequest,
        KnownOp::PairBegin,
        KnownOp::PairCancel,
        KnownOp::PairListDevices,
        KnownOp::PairRevoke,
        KnownOp::SystemPing,
        KnownOp::InputKeyCombo,
        KnownOp::InputKeySequence,
        KnownOp::InputText,
        KnownOp::InputMedia,
        KnownOp::InputMouse,
        KnownOp::ActionRun,
        KnownOp::ActionList,
        KnownOp::ActionSet,
        KnownOp::ActionDelete,
        KnownOp::ProfileGet,
        KnownOp::ProfileList,
        KnownOp::ProfileSubscribe,
        KnownOp::ProfileActivate,
        KnownOp::ProfileSet,
        KnownOp::ProfileDelete,
        KnownOp::TelemetrySubscribe,
        KnownOp::SettingsGet,
        KnownOp::SettingsSet,
        KnownOp::ProfileChanged,
        KnownOp::TelemetryUpdate,
        KnownOp::DeviceChanged,
        KnownOp::PairingState,
        KnownOp::EngineShutdown,
    ]
}

/// The position of an op in [`all_ops_spec`].
pub open spec fn op_index(op: KnownOp) -> nat {
    match op {
        KnownOp::SessionHello => 0,
        KnownOp::SessionAuth => 1,
        KnownOp::PairRequest => 2,
        KnownOp::PairBegin => 3,
        KnownOp::PairCancel => 4,
        KnownOp::PairListDevices => 5,
        KnownOp::PairRevoke => 6,
        KnownOp::SystemPing => 7,
        KnownOp::InputKeyCombo => 8,
        KnownOp::InputKeySequence => 9,
        KnownOp::InputText => 10,
        KnownOp::InputMedia => 11,
        KnownOp::InputMouse => 12,
        KnownOp::ActionRun => 13,
        KnownOp::ActionList => 14,
        KnownOp::ActionSet => 15,
        KnownOp::ActionDelete => 16,
        KnownOp::ProfileGet => 17,
        KnownOp::ProfileList => 18,
        KnownOp::ProfileSubscribe => 19,
        KnownOp::ProfileActivate => 20,
        KnownOp::ProfileSet => 21,
        KnownOp::ProfileDelete => 22,
        KnownOp::TelemetrySubscribe => 23,
        KnownOp::SettingsGet => 24,
        KnownOp::SettingsSet => 25,
        KnownOp::ProfileChanged => 26,
        KnownOp::TelemetryUpdate => 27,
        KnownOp::DeviceChanged => 28,
        KnownOp::PairingState => 29,
        KnownOp::EngineShutdown => 30,
    }
}

/// Each op sits at its own index of the list, and the list has one entry per op.
pub proof fn lemma_op_index(op: KnownOp)
    ensures
        op_index(op) < all_ops_spec().len(),
        all_ops_spec()[op_index(op) as int] == op,
        all_ops_spec().len() == 31,
{
}

impl KnownOp {
    /// The wire name.
    pub open spec fn wire_name(self) -> Seq<char> {
        match self {
            KnownOp::SessionHello => "session.hello"@,
            KnownOp::SessionAuth => "session.auth"@,
            KnownOp::PairRequest => "pair.request"@,
            KnownOp::PairBegin => "pair.begin"@,
            KnownOp::PairCancel => "pair.cancel"@,
            KnownOp::PairListDevices => "pair.list_devices"@,
            KnownOp::PairRevoke => "pair.revoke"@,
            KnownOp::SystemPing => "system.ping"@,
            KnownOp::InputKeyCombo => "input.key_combo"@,
            KnownOp::InputKeySequence => "input.key_sequence"@,
            KnownOp::InputText => "input.text"@,
            KnownOp::InputMedia => "input.media"@,
            KnownOp::InputMouse => "input.mouse"@,
            KnownOp::ActionRun => "action.run"@,
            KnownOp::ActionList => "action.list"@,
            KnownOp::ActionSet => "action.set"@,
            KnownOp::ActionDelete => "action.delete"@,
            KnownOp::ProfileGet => "profile.get"@,
            KnownOp::ProfileList => "profile.list"@,
            KnownOp::ProfileSubscribe => "profile.subscribe"@,
            KnownOp::ProfileActivate => "profile.activate"@,
            KnownOp::ProfileSet => "profile.set"@,
            KnownOp::ProfileDelete => "profile.delete"@,
            KnownOp::TelemetrySubscribe => "telemetry.subscribe"@,
            KnownOp::SettingsGet => "settings.get"@,
            KnownOp::SettingsSet => "settings.set"@,
            KnownOp::ProfileChanged => "profile.changed"@,
            KnownOp::TelemetryUpdate => "telemetry.update"@,
            KnownOp::DeviceChanged => "device.changed"@,
            KnownOp::PairingState => "pairing.state"@,
            KnownOp::EngineShutdown => "engine.shutdown"@,
        }
    }

    pub fn as_str(&self) -> (r: &'static str)
        ensures
            r@ == self.wire_name(),
    {
        match self {
            KnownOp::SessionHello => "session.hello",
            KnownOp::SessionAuth => "session.auth",
            KnownOp::PairRequest => "pair.request",
            KnownOp::PairBegin => "pair.begin",
            KnownOp::PairCancel => "pair.cancel",
            KnownOp::PairListDevices => "pair.list_devices",
            KnownOp::PairRevoke => "pair.revoke",
            KnownOp::SystemPing => "system.ping",
            KnownOp::InputKeyCombo => "input.key_combo",
            KnownOp::InputKeySequence => "input.key_sequence",
            KnownOp::InputText => "input.text",
            KnownOp::InputMedia => "input.media",
            KnownOp::InputMouse => "input.mouse",
            KnownOp::ActionRun => "action.run",
            KnownOp::ActionList => "action.list",
            KnownOp::ActionSet => "action.set",
            KnownOp::ActionDelete => "action.delete",
            KnownOp::ProfileGet => "profile.get",
            KnownOp::ProfileList => "profile.list",
            KnownOp::ProfileSubscribe => "profile.subscribe",
            KnownOp::ProfileActivate => "profile.activate",
            KnownOp::ProfileSet => "profile.set",
            KnownOp::ProfileDelete => "profile.delete",
            KnownOp::TelemetrySubscribe => "telemetry.subscribe",
            KnownOp::SettingsGet => "settings.get",
            KnownOp::SettingsSet => "settings.set",
            KnownOp::ProfileChanged => "profile.changed",
            KnownOp::TelemetryUpdate => "telemetry.update",
            KnownOp::DeviceChanged => "device.changed",
            KnownOp::PairingState => "pairing.state",
            KnownOp::EngineShutdown => "engine.shutdown",
        }
    }

    /// The ops that only ever appear with `t: "evt"`.
    pub open spec fn is_event_spec(self) -> bool {
        match self {
            KnownOp::ProfileChanged
            | KnownOp::TelemetryUpdate
            | KnownOp::DeviceChanged
            | KnownOp::PairingState
            | KnownOp::EngineShutdown => true,
            _ => false,
        }
    }

    /// True for the five ops that only ever appear as `t: "evt"`.
    pub fn is_event(&self) -> (r: bool)
        ensures
            r == self.is_event_spec(),
    {
        match self {
            KnownOp::ProfileChanged
            | KnownOp::TelemetryUpdate
            | KnownOp::DeviceChanged
            | KnownOp::PairingState
            | KnownOp::EngineShutdown => true,
            _ => false,
        }
    }

    /// Every op, once each, in declaration order.
    pub fn all() -> (v: Vec<KnownOp>)
        ensures
            v@ == all_ops_spec(),
    {
        let mut v: Vec<KnownOp> = Vec::new();
        v.push(KnownOp::SessionHello);
        v.push(KnownOp::SessionAuth);
        v.push(KnownOp::PairRequest);
        v.push(KnownOp::PairBegin);
        v.push(KnownOp::PairCancel);
        v.push(KnownOp::PairListDevices);
        v.push(KnownOp::PairRevoke);
        v.push(KnownOp::SystemPing);
        v.push(KnownOp::InputKeyCombo);
        v.push(KnownOp::InputKeySequence);
        v.push(KnownOp::InputText);
        v.push(KnownOp::InputMedia);
        v.push(KnownOp::InputMouse);
        v.push(KnownOp::ActionRun);
        v.push(KnownOp::ActionList);
        v.push(KnownOp::ActionSet);
        v.push(KnownOp::ActionDelete);
        v.push(KnownOp::ProfileGet);
        v.push(KnownOp::ProfileList);
        v.push(KnownOp::ProfileSubscribe);
        v.push(KnownOp::ProfileActivate);
        v.push(KnownOp::ProfileSet);
        v.push(KnownOp::ProfileDelete);
        v.push(KnownOp::TelemetrySubscribe);
        v.push(KnownOp::SettingsGet);
        v.push(KnownOp::SettingsSet);
        v.push(KnownOp::ProfileChanged);
        v.push(KnownOp::TelemetryUpdate);
        v.push(KnownOp::DeviceChanged);
        v.push(KnownOp::PairingState);
        v.push(KnownOp::EngineShutdown);
        assert(v@ =~= all_ops_spec());
        v
    }
}

/// An empty payload. Serialises to `{}`.
#[derive(Debug, Clone, Copy, PartialEq, Eq, Default)]
pub struct Empty {}

/// The payload of an `err` message.
#[derive(Debug, PartialEq, Eq)]
pub struct ErrorPayload {
    pub code: ErrorCode,
    pub message: String,
}

impl Clone for ErrorPayload {
    fn clone(&self) -> (r: Self)
        ensures
            r == *self,
    {
        ErrorPayload { code: self.code, message: self.message.clone() }
    }
}

impl ErrorPayload {
    pub fn new(code: ErrorCode, message: String) -> (r: Self)
        ensures
            r.code == code,
            r.message == message,
    {
        Self { code, message }
    }
}

/// The error codes a client can receive.
#[derive(Debug, Clone, Copy, PartialEq, Eq, Hash, Structural)]
pub enum ErrorCode {
    /// Malformed envelope or payload.
    BadRequest,
    /// `v` is not 1.
    UnsupportedVersion,
    /// No such op.
    UnknownOp,
    /// Op requires a completed session handshake.
    NotAuthenticated,
    /// Role lacks capability for this op.
    NotAuthorized,
    /// Not in pairing mode, or the window expired.
    PairingClosed,
    /// Wrong one-time pairing code.
    BadCode,
    /// Device ID not in the registry.
    UnknownDevice,
    /// Challenge signature did not verify.
    BadSignature,
    /// The OS refused the input event.
    InjectionFailed,
    /// Profile or action does not exist.
    NotFound,
    /// Feature is switched off, e.g. shell execution.
    Disabled,
    /// Engine bug. Always logged with a trace ID.
    Internal,
}

impl ErrorCode {
    /// The wire string.
    pub open spec fn wire_name(self) -> Seq<char> {
        match self {
            ErrorCode::BadRequest => "BAD_REQUEST"@,
            ErrorCode::UnsupportedVersion => "UNSUPPORTED_VERSION"@,
            ErrorCode::UnknownOp => "UNKNOWN_OP"@,
            ErrorCode::NotAuthenticated => "NOT_AUTHENTICATED"@,
            ErrorCode::NotAuthorized => "NOT_AUTHORIZED"@,
            ErrorCode::PairingClosed => "PAIRING_CLOSED"@,
            ErrorCode::BadCode => "BAD_CODE"@,
            ErrorCode::UnknownDevice => "UNKNOWN_DEVICE"@,
            ErrorCode::BadSignature => "BAD_SIGNATURE"@,
            ErrorCode::InjectionFailed => "INJECTION_FAILED"@,
            ErrorCode::NotFound => "NOT_FOUND"@,
            ErrorCode::Disabled => "DISABLED"@,
            ErrorCode::Internal => "INTERNAL"@,
        }
    }

    /// The wire string, for logging and error messages.
    pub fn as_str(&self) -> (r: &'static str)
        ensures
            r@ == self.wire_name(),
    {
        match self {
            ErrorCode::BadRequest => "BAD_REQUEST",
            ErrorCode::UnsupportedVersion => "UNSUPPORTED_VERSION",
            ErrorCode::UnknownOp => "UNKNOWN_OP",
            ErrorCode::NotAuthenticated => "NOT_AUTHENTICATED",
            ErrorCode::NotAuthorized => "NOT_AUTHORIZED",
            ErrorCode::PairingClosed => "PAIRING_CLOSED",
            ErrorCode::BadCode => "BAD_CODE",
            ErrorCode::UnknownDevice => "UNKNOWN_DEVICE",
            ErrorCode::BadSignature => "BAD_SIGNATURE",
            ErrorCode::InjectionFailed => "INJECTION_FAILED",
            ErrorCode::NotFound => "NOT_FOUND",
            ErrorCode::Disabled => "DISABLED",
            ErrorCode::Internal => "INTERNAL",
        }
    }
}

/// No two operations share a wire name, so a name read off the wire names at most one op.
pub proof fn lemma_op_names_distinct(a: KnownOp, b: KnownOp)
    ensures
        a.wire_name() == b.wire_name() ==> a == b,
{
    // Every name is told apart from the others by its length and its ninth and tenth letters.
    reveal_strlit("session.hello");
    assert("session.hello"@.len() == 13 && "session.hello"@[8] == 'h' && "session.hello"@[9] == 'e');
    reveal_strlit("session.auth");
    assert("session.auth"@.len() == 12 && "session.auth"@[8] == 'a' && "session.auth"@[9] == 'u');
    reveal_strlit("pair.request");
    assert("pair.request"@.len() == 12 && "pair.request"@[8] == 'u' && "pair.request"@[9] == 'e');
    reveal_strlit("pair.begin");
    assert("pair.begin"@.len() == 10 && "pair.begin"@[8] == 'i' && "pair.begin"@[9] == 'n');
    reveal_strlit("pair.cancel");
    assert("pair.cancel"@.len() == 11 && "pair.cancel"@[8] == 'c' && "pair.cancel"@[9] == 'e');
    reveal_strlit("pair.list_devices");
    assert("pair.list_devices"@.len() == 17 && "pair.list_devices"@[8] == 't' && "pair.list_devices"@[9] == '_');
    reveal_strlit("pair.revoke");
    assert("pair.revoke"@.len() == 11 && "pair.revoke"@[8] == 'o' && "pair.revoke"@[9] == 'k');
    reveal_strlit("system.ping");
    assert("system.ping"@.len() == 11 && "system.ping"@[8] == 'i' && "system.ping"@[9] == 'n');
    reveal_strlit("input.key_combo");
    assert("input.key_combo"@.len() == 15 && "input.key_combo"@[8] == 'y' && "input.key_combo"@[9] == '_');
    reveal_strlit("input.key_sequence");
    assert("input.key_sequence"@.len() == 18 && "input.key_sequence"@[8] == 'y' && "input.key_sequence"@[9] == '_');
    reveal_strlit("input.text");
    assert("input.text"@.len() == 10 && "input.text"@[8] == 'x' && "input.text"@[9] == 't');
    reveal_strlit("input.media");
    assert("input.media"@.len() == 11 && "input.media"@[8] == 'd' && "input.media"@[9] == 'i');
    reveal_strlit("input.mouse");
    assert("input.mouse"@.len() == 11 && "input.mouse"@[8] == 'u' && "input.mouse"@[9] == 's');
    reveal_strlit("action.run");
    assert("action.run"@.len() == 10 && "action.run"@[8] == 'u' && "action.run"@[9] == 'n');
    reveal_strlit("action.list");
    assert("action.list"@.len() == 11 && "action.list"@[8] == 'i' && "action.list"@[9] == 's');
    reveal_strlit("action.set");
    assert("action.set"@.len() == 10 && "action.set"@[8] == 'e' && "action.set"@[9] == 't');
    reveal_strlit("action.delete");
    assert("action.delete"@.len() == 13 && "action.delete"@[8] == 'e' && "action.delete"@[9] == 'l');
    reveal_strlit("profile.get");
    assert("profile.get"@.len() == 11 && "profile.get"@[8] == 'g' && "profile.get"@[9] == 'e');
    reveal_strlit("profile.list");
    assert("profile.list"@.len() == 12 && "profile.list"@[8] == 'l' && "profile.list"@[9] == 'i');
    reveal_strlit("profile.subscribe");
    assert("profile.subscribe"@.len() == 17 && "profile.subscribe"@[8] == 's' && "profile.subscribe"@[9] == 'u');
    reveal_strlit("profile.activate");
    assert("profile.activate"@.len() == 16 && "profile.activate"@[8] == 'a' && "profile.activate"@[9] == 'c');
    reveal_strlit("profile.set");
    assert("profile.set"@.len() == 11 && "profile.set"@[8] == 's' && "profile.set"@[9] == 'e');
    reveal_strlit("profile.delete");
    assert("profile.delete"@.len() == 14 && "profile.delete"@[8] == 'd' && "profile.delete"@[9] == 'e');
    reveal_strlit("telemetry.subscribe");
    assert("telemetry.subscribe"@.len() == 19 && "telemetry.subscribe"@[8] == 'y' && "telemetry.subscribe"@[9] == '.');
    reveal_strlit("settings.get");
    assert("settings.get"@.len() == 12 && "settings.get"@[8] == '.' && "settings.get"@[9] == 'g');
    reveal_strlit("settings.set");
    assert("settings.set"@.len() == 12 && "settings.set"@[8] == '.' && "settings.set"@[9] == 's');
    reveal_strlit("profile.changed");
    assert("profile.changed"@.len() == 15 && "profile.changed"@[8] == 'c' && "profile.changed"@[9] == 'h');
    reveal_strlit("telemetry.update");
    assert("telemetry.update"@.len() == 16 && "telemetry.update"@[8] == 'y' && "telemetry.update"@[9] == '.');
    reveal_strlit("device.changed");
    assert("device.changed"@.len() == 14 && "device.changed"@[8] == 'h' && "device.changed"@[9] == 'a');
    reveal_strlit("pairing.state");
    assert("pairing.state"@.len() == 13 && "pairing.state"@[8] == 's' && "pairing.state"@[9] == 't');
    reveal_strlit("engine.shutdown");
    assert("engine.shutdown"@.len() == 15 && "engine.shutdown"@[8] == 'h' && "engine.shutdown"@[9] == 'u');
}

/// No two error codes share a wire name.
pub proof fn lemma_error_code_names_distinct(a: ErrorCode, b: ErrorCode)
    ensures
        a.wire_name() == b.wire_name() ==> a == b,
{
    // Every code is told apart from the others by its length and its first letter.
    reveal_strlit("BAD_REQUEST");
    assert("BAD_REQUEST"@.len() == 11 && "BAD_REQUEST"@[0] == 'B');
    reveal_strlit("UNSUPPORTED_VERSION");
    assert("UNSUPPORTED_VERSION"@.len() == 19 && "UNSUPPORTED_VERSION"@[0] == 'U');
    reveal_strlit("UNKNOWN_OP");
    assert("UNKNOWN_OP"@.len() == 10 && "UNKNOWN_OP"@[0] == 'U');
    reveal_strlit("NOT_AUTHENTICATED");
    assert("NOT_AUTHENTICATED"@.len() == 17 && "NOT_AUTHENTICATED"@[0] == 'N');
    reveal_strlit("NOT_AUTHORIZED");
    assert("NOT_AUTHORIZED"@.len() == 14 && "NOT_AUTHORIZED"@[0] == 'N');
    reveal_strlit("PAIRING_CLOSED");
    assert("PAIRING_CLOSED"@.len() == 14 && "PAIRING_CLOSED"@[0] == 'P');
    reveal_strlit("BAD_CODE");
    assert("BAD_CODE"@.len() == 8 && "BAD_CODE"@[0] == 'B');
    reveal_strlit("UNKNOWN_DEVICE");
    assert("UNKNOWN_DEVICE"@.len() == 14 && "UNKNOWN_DEVICE"@[0] == 'U');
    reveal_strlit("BAD_SIGNATURE");
    assert("BAD_SIGNATURE"@.len() == 13 && "BAD_SIGNATURE"@[0] == 'B');
    reveal_strlit("INJECTION_FAILED");
    assert("INJECTION_FAILED"@.len() == 16 && "INJECTION_FAILED"@[0] == 'I');
    reveal_strlit("NOT_FOUND");
    assert("NOT_FOUND"@.len() == 9 && "NOT_FOUND"@[0] == 'N');
    reveal_strlit("DISABLED");
    assert("DISABLED"@.len() == 8 && "DISABLED"@[0] == 'D');
    reveal_strlit("INTERNAL");
    assert("INTERNAL"@.len() == 8 && "INTERNAL"@[0] == 'I');
}

impl MessageType {
    /// The wire name.
    pub open spec fn wire_name(self) -> Seq<char> {
        match self {
            MessageType::Req => "req"@,
            MessageType::Res => "res"@,
            MessageType::Error => "err"@,
            MessageType::Evt => "evt"@,
        }
    }

    pub fn as_str(&self) -> (r: &'static str)
        ensures
            r@ == self.wire_name(),
    {
        match self {
            MessageType::Req => "req",
            MessageType::Res => "res",
            MessageType::Error => "err",
            MessageType::Evt => "evt",
        }
    }

    /// The value with this wire name, if any.
    pub fn from_wire(wire: &str) -> (r: Option<MessageType>)
        ensures
            r matches Some(v) ==> v.wire_name() == wire@,
            r is None ==> forall|v: MessageType| #[trigger] v.wire_name() != wire@,
    {
        if crate::text::str_eq(wire, "req") {
            return Some(MessageType::Req);
        }
        if crate::text::str_eq(wire, "res") {
            return Some(MessageType::Res);
        }
        if crate::text::str_eq(wire, "err") {
            return Some(MessageType::Error);
        }
        if crate::text::str_eq(wire, "evt") {
            return Some(MessageType::Evt);
        }
        proof {
            reveal_strlit("req");
            reveal_strlit("res");
            reveal_strlit("err");
            reveal_strlit("evt");
            assert forall|v: MessageType| #[trigger] v.wire_name() != wire@ by {
                match v {
                    MessageType::Req => {},
                    MessageType::Res => {},
                    MessageType::Error => {},
                    MessageType::Evt => {},
                }
            }
        }
        None
    }
}

impl ErrorCode {
    /// The code with this wire name, if any.
    pub fn from_wire(wire: &str) -> (r: Option<ErrorCode>)
        ensures
            r matches Some(v) ==> v.wire_name() == wire@,
            r is None ==> forall|v: ErrorCode| #[trigger] v.wire_name() != wire@,
    {
        if crate::text::str_eq(wire, "BAD_REQUEST") {
            return Some(ErrorCode::BadRequest);
        }
        if crate::text::str_eq(wire, "UNSUPPORTED_VERSION") {
            return Some(ErrorCode::UnsupportedVersion);
        }
        if crate::text::str_eq(wire, "UNKNOWN_OP") {
            return Some(ErrorCode::UnknownOp);
        }
        if crate::text::str_eq(wire, "NOT_AUTHENTICATED") {
            return Some(ErrorCode::NotAuthenticated);
        }
        if crate::text::str_eq(wire, "NOT_AUTHORIZED") {
            return Some(ErrorCode::NotAuthorized);
        }
        if crate::text::str_eq(wire, "PAIRING_CLOSED") {
            return Some(ErrorCode::PairingClosed);
        }
        if crate::text::str_eq(wire, "BAD_CODE") {
            return Some(ErrorCode::BadCode);
        }
        if crate::text::str_eq(wire, "UNKNOWN_DEVICE") {
            return Some(ErrorCode::UnknownDevice);
        }
        if crate::text::str_eq(wire, "BAD_SIGNATURE") {
            return Some(ErrorCode::BadSignature);
        }
        if crate::text::str_eq(wire, "INJECTION_FAILED") {
            return Some(ErrorCode::InjectionFailed);
        }
        if crate::text::str_eq(wire, "NOT_FOUND") {
            return Some(ErrorCode::NotFound);
        }
        if crate::text::str_eq(wire, "DISABLED") {
            return Some(ErrorCode::Disabled);
        }
        if crate::text::str_eq(wire, "INTERNAL") {
            return Some(ErrorCode::Internal);
        }
        proof {
            reveal_strlit("BAD_REQUEST");
            reveal_strlit("UNSUPPORTED_VERSION");
            reveal_strlit("UNKNOWN_OP");
            reveal_strlit("NOT_AUTHENTICATED");
            reveal_strlit("NOT_AUTHORIZED");
            reveal_strlit("PAIRING_CLOSED");
            reveal_strlit("BAD_CODE");
            reveal_strlit("UNKNOWN_DEVICE");
            reveal_strlit("BAD_SIGNATURE");
            reveal_strlit("INJECTION_FAILED");
            reveal_strlit("NOT_FOUND");
            reveal_strlit("DISABLED");
            reveal_strlit("INTERNAL");
            assert forall|v: ErrorCode| #[trigger] v.wire_name() != wire@ by {
                match v {
                    ErrorCode::BadRequest => {},
                    ErrorCode::UnsupportedVersion => {},
                    ErrorCode::UnknownOp => {},
                    ErrorCode::NotAuthenticated => {},
                    ErrorCode::NotAuthorized => {},
                    ErrorCode::PairingClosed => {},
                    ErrorCode::BadCode => {},
                    ErrorCode::UnknownDevice => {},
                    ErrorCode::BadSignature => {},
                    ErrorCode::InjectionFailed => {},
                    ErrorCode::NotFound => {},
                    ErrorCode::Disabled => {},
                    ErrorCode::Internal => {},
                }
            }
        }
        None
    }
}

} // verus!
