//! Capability gating: which role may invoke which op. The table is the architecture's role
//! matrix; a row changed in one place and not the other fails the tests rather than quietly
//! widening access.
use vstd::prelude::*;

use crate::engine::error::{is_wire_error, EngineError};
use crate::engine::session::{is_ready_state, role_of, Session};
use crate::protocol::envelope::{ErrorCode, KnownOp, Op};
use crate::protocol::session::Role;
use crate::text::concat2;

verus! {

/// Who may invoke an op.
#[derive(Debug, Clone, Copy, PartialEq, Eq, Structural)]
pub enum Access {
    /// Only before the handshake completes. Sending it afterwards is a protocol error.
    PreAuth,
    /// Any authenticated socket, `deck` or `admin`.
    Authenticated,
    /// `admin` only.
    AdminOnly,
    /// Never inbound: the engine pushes these, clients do not send them.
    EventOnly,
}

/// The capability matrix, in one place.
pub open spec fn access_spec(op: KnownOp) -> Access {
    match op {
        // Handshake and pairing happen before there is a role to check.
        KnownOp::SessionHello | KnownOp::SessionAuth | KnownOp::PairRequest => Access::PreAuth,
        // Opening a pairing window is precisely how a new device gains access, so a deck must
        // never be able to do it.
        KnownOp::PairBegin
        | KnownOp::PairCancel
        | KnownOp::PairListDevices
        | KnownOp::PairRevoke => Access::AdminOnly,
        // A deck's whole purpose. `profile.activate` is deck-callable deliberately: a device
        // that can already inject arbitrary keystrokes gains nothing by choosing which grid it
        // displays.
        KnownOp::SystemPing
        | KnownOp::InputKeyCombo
        | KnownOp::InputKeySequence
        | KnownOp::InputText
        | KnownOp::InputMedia
        | KnownOp::InputMouse
        | KnownOp::ActionRun
        | KnownOp::ActionList
        | KnownOp::ProfileGet
        | KnownOp::ProfileList
        | KnownOp::ProfileSubscribe
        | KnownOp::TelemetrySubscribe
        | KnownOp::ProfileActivate => Access::Authenticated,
        // Changing what the deck *is*, rather than using it.
        KnownOp::ActionSet
        | KnownOp::ActionDelete
        | KnownOp::ProfileSet
        | KnownOp::ProfileDelete
        | KnownOp::SettingsGet
        | KnownOp::SettingsSet => Access::AdminOnly,
        KnownOp::ProfileChanged
        | KnownOp::TelemetryUpdate
        | KnownOp::DeviceChanged
        | KnownOp::PairingState
        | KnownOp::EngineShutdown => Access::EventOnly,
    }
}

/// The capability matrix, in one place.
pub fn access_for(op: KnownOp) -> (r: Access)
    ensures
        r == access_spec(op),
{
    match op {
        KnownOp::SessionHello | KnownOp::SessionAuth | KnownOp::PairRequest => Access::PreAuth,
        KnownOp::PairBegin
        | KnownOp::PairCancel
        | KnownOp::PairListDevices
        | KnownOp::PairRevoke => Access::AdminOnly,
        KnownOp::SystemPing
        | KnownOp::InputKeyCombo
        | KnownOp::InputKeySequence
        | KnownOp::InputText
        | KnownOp::InputMedia
        | KnownOp::InputMouse
        | KnownOp::ActionRun
        | KnownOp::ActionList
        | KnownOp::ProfileGet
        | KnownOp::ProfileList
        | KnownOp::ProfileSubscribe
        | KnownOp::TelemetrySubscribe
        | KnownOp::ProfileActivate => Access::Authenticated,
        KnownOp::ActionSet
        | KnownOp::ActionDelete
        | KnownOp::ProfileSet
        | KnownOp::ProfileDelete
        | KnownOp::SettingsGet
        | KnownOp::SettingsSet => Access::AdminOnly,
        KnownOp::ProfileChanged
        | KnownOp::TelemetryUpdate
        | KnownOp::DeviceChanged
        | KnownOp::PairingState
        | KnownOp::EngineShutdown => Access::EventOnly,
    }
}

pub open spec fn unknown_op_message(wire: Seq<char>) -> Seq<char> {
    "no such op: "@ + wire
}

pub open spec fn handshake_over_message() -> Seq<char> {
    "this op is only valid before the session handshake completes"@
}

pub open spec fn not_authenticated_message() -> Seq<char> {
    "this op requires a completed session handshake"@
}

pub open spec fn deck_refused_message() -> Seq<char> {
    "role 'deck' may not call this op"@
}

pub open spec fn event_inbound_message() -> Seq<char> {
    "this op is an event pushed by the engine and cannot be sent to it"@
}

/// The decision on an op from a socket that is `ready` (or not) with this role: the known op,
/// or the error code and message it is refused with.
pub open spec fn authorize_spec(op: Op, ready: bool, role: Option<Role>) -> Result<
    KnownOp,
    (ErrorCode, Seq<char>),
> {
    match op {
        Op::Unknown(raw) => Err((ErrorCode::UnknownOp, unknown_op_message(raw@))),
        Op::Known(known) => match access_spec(known) {
            Access::PreAuth => if ready {
                Err((ErrorCode::BadRequest, handshake_over_message()))
            } else {
                Ok(known)
            },
            Access::Authenticated => if ready {
                Ok(known)
            } else {
                Err((ErrorCode::NotAuthenticated, not_authenticated_message()))
            },
            Access::AdminOnly => match role {
                Some(Role::Admin) => Ok(known),
                Some(Role::Deck) => Err((ErrorCode::NotAuthorized, deck_refused_message())),
                None => Err((ErrorCode::NotAuthenticated, not_authenticated_message())),
            },
            Access::EventOnly => Err((ErrorCode::UnknownOp, event_inbound_message())),
        },
    }
}

/// `r` is the decision: the op, or a wire error with that code and message.
pub open spec fn answers<T>(r: Result<T, EngineError>, decision: Result<T, (ErrorCode, Seq<char>)>) -> bool {
    match decision {
        Ok(v) => r == Ok::<T, EngineError>(v),
        Err((code, message)) => r matches Err(e) && is_wire_error(e, code, message),
    }
}

/// Checks whether this socket may invoke this op, before any payload is looked at.
///
/// An unauthenticated socket gets `NOT_AUTHENTICATED` rather than `NOT_AUTHORIZED`, so it
/// cannot use the difference to learn which ops exist.
pub fn authorize(op: &Op, session: &Session) -> (r: Result<KnownOp, EngineError>)
    ensures
        answers(r, authorize_spec(*op, is_ready_state(session@.state), role_of(session@.state))),
{
    let known = match op.known() {
        Some(k) => k,
        None => {
            return Err(EngineError::wire(ErrorCode::UnknownOp, concat2("no such op: ", op.as_str())));
        },
    };
    match access_for(known) {
        Access::PreAuth => {
            if session.is_ready() {
                Err(
                    EngineError::wire(
                        ErrorCode::BadRequest,
                        String::from_str("this op is only valid before the session handshake completes"),
                    ),
                )
            } else {
                Ok(known)
            }
        },
        Access::Authenticated => {
            if session.is_ready() {
                Ok(known)
            } else {
                Err(not_authenticated())
            }
        },
        Access::AdminOnly => match session.role() {
            Some(Role::Admin) => Ok(known),
            Some(Role::Deck) => Err(
                EngineError::wire(ErrorCode::NotAuthorized, String::from_str("role 'deck' may not call this op")),
            ),
            None => Err(not_authenticated()),
        },
        Access::EventOnly => Err(
            EngineError::wire(
                ErrorCode::UnknownOp,
                String::from_str("this op is an event pushed by the engine and cannot be sent to it"),
            ),
        ),
    }
}

fn not_authenticated() -> (r: EngineError)
    ensures
        is_wire_error(r, ErrorCode::NotAuthenticated, not_authenticated_message()),
{
    EngineError::wire(
        ErrorCode::NotAuthenticated,
        String::from_str("this op requires a completed session handshake"),
    )
}

/// Before the handshake completes, the only ops a socket may send are the three handshake and
/// pairing ops; everything else is `NOT_AUTHENTICATED`, or `UNKNOWN_OP` for what is no request.
pub proof fn law_unauthenticated_sockets_reach_only_handshake_ops(op: KnownOp)
    ensures
        authorize_spec(Op::Known(op), false, None) is Ok <==> access_spec(op) == Access::PreAuth,
        access_spec(op) == Access::Authenticated || access_spec(op) == Access::AdminOnly
            ==> authorize_spec(Op::Known(op), false, None) == Err::<KnownOp, (ErrorCode, Seq<char>)>(
            (ErrorCode::NotAuthenticated, not_authenticated_message()),
        ),
{
}

/// A deck reaches exactly the ops any authenticated socket may use, and an admin reaches those
/// and the admin-only ones; neither may repeat the handshake or send an event.
pub proof fn law_role_matrix(op: KnownOp)
    ensures
        authorize_spec(Op::Known(op), true, Some(Role::Deck)) is Ok <==> access_spec(op)
            == Access::Authenticated,
        authorize_spec(Op::Known(op), true, Some(Role::Admin)) is Ok <==> (access_spec(op)
            == Access::Authenticated || access_spec(op) == Access::AdminOnly),
        access_spec(op) == Access::AdminOnly ==> authorize_spec(
            Op::Known(op),
            true,
            Some(Role::Deck),
        ) == Err::<KnownOp, (ErrorCode, Seq<char>)>(
            (ErrorCode::NotAuthorized, deck_refused_message()),
        ),
{
}

/// Every event op is event-only, and every other op is callable by some socket.
pub proof fn law_events_are_never_inbound(op: KnownOp)
    ensures
        access_spec(op) == Access::EventOnly <==> op.is_event_spec(),
{
}

} // verus!
