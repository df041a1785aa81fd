//! Ping and lifecycle events.
use vstd::prelude::*;

use crate::protocol::pairing::DeviceInfo;

verus! {

/// `system.ping` request. Milliseconds since the Unix epoch.
#[derive(Debug, Clone, Copy, PartialEq, Eq, Structural)]
pub struct PingRequest {
    pub t_client: i64,
}

/// `system.ping` response: `t_client` echoed verbatim, plus the engine's own clock.
#[derive(Debug, Clone, Copy, PartialEq, Eq, Structural)]
pub struct PingResponse {
    pub t_client: i64,
    pub t_engine: i64,
}

/// `evt device.changed`, to `admin` sockets only.
#[derive(Debug, Clone, PartialEq, Eq)]
pub struct DeviceChangedEvent {
    pub devices: Vec<DeviceInfo>,
}

/// `evt engine.shutdown`, to every authenticated socket.
#[derive(Debug, Clone, Copy, PartialEq, Eq, Structural)]
pub struct EngineShutdownEvent {
    pub reason: ShutdownReason,
}

#[derive(Debug, Clone, Copy, PartialEq, Eq, Hash, Structural)]
pub enum ShutdownReason {
    UserRequested,
    SettingsChanged,
    FatalError,
}

impl ShutdownReason {
    /// The wire name.
    pub open spec fn wire_name(self) -> Seq<char> {
        match self {
            ShutdownReason::UserRequested => "user_requested"@,
            ShutdownReason::SettingsChanged => "settings_changed"@,
            ShutdownReason::FatalError => "fatal_error"@,
        }
    }

    pub fn as_str(&self) -> (r: &'static str)
        ensures
            r@ == self.wire_name(),
    {
        match self {
            ShutdownReason::UserRequested => "user_requested",
            ShutdownReason::SettingsChanged => "settings_changed",
            ShutdownReason::FatalError => "fatal_error",
        }
    }

    /// The value with this wire name, if any.
    pub fn from_wire(wire: &str) -> (r: Option<ShutdownReason>)
        ensures
            r matches Some(v) ==> v.wire_name() == wire@,
            r is None ==> forall|v: ShutdownReason| #[trigger] v.wire_name() != wire@,
    {
        if crate::text::str_eq(wire, "user_requested") {
            return Some(ShutdownReason::UserRequested);
        }
        if crate::text::str_eq(wire, "settings_changed") {
            return Some(ShutdownReason::SettingsChanged);
        }
        if crate::text::str_eq(wire, "fatal_error") {
            return Some(ShutdownReason::FatalError);
        }
        proof {
            reveal_strlit("user_requested");
            reveal_strlit("settings_changed");
            reveal_strlit("fatal_error");
            assert forall|v: ShutdownReason| #[trigger] v.wire_name() != wire@ by {
                match v {
                    ShutdownReason::UserRequested => {},
                    ShutdownReason::SettingsChanged => {},
                    ShutdownReason::FatalError => {},
                }
            }
        }
        None
    }
}

} // verus!
