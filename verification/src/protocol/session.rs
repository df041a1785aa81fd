//! Session handshake payloads.
use vstd::prelude::*;

use crate::protocol::envelope::{is_error_with, ErrorCode, ErrorPayload};

verus! {

/// `session.hello` request: exactly one of `device_id` (a paired deck) and `admin_token` (the
/// local control panel).
#[derive(Debug, Clone, PartialEq, Eq)]
pub struct HelloRequest {
    pub device_id: Option<String>,
    pub admin_token: Option<String>,
    pub client_version: String,
    pub platform: Platform,
}

pub open spec fn both_credentials_message() -> Seq<char> {
    "session.hello carries both device_id and admin_token; exactly one is required"@
}

pub open spec fn neither_credential_message() -> Seq<char> {
    "session.hello carries neither device_id nor admin_token; exactly one is required"@
}

impl HelloRequest {
    /// Both credentials, or neither, is `BAD_REQUEST`.
    pub fn validate(&self) -> (r: Result<(), ErrorPayload>)
        ensures
            r is Ok <==> (self.device_id is Some) != (self.admin_token is Some),
            self.device_id is Some && self.admin_token is Some ==> is_error_with(
                r,
                ErrorCode::BadRequest,
                both_credentials_message(),
            ),
            self.device_id is None && self.admin_token is None ==> is_error_with(
                r,
                ErrorCode::BadRequest,
                neither_credential_message(),
            ),
    {
        match (&self.device_id, &self.admin_token) {
            (Some(_), None) | (None, Some(_)) => Ok(()),
            (Some(_), Some(_)) => Err(
                ErrorPayload::new(
                    ErrorCode::BadRequest,
                    String::from_str(
                        "session.hello carries both device_id and admin_token; exactly one is required",
                    ),
                ),
            ),
            (None, None) => Err(
                ErrorPayload::new(
                    ErrorCode::BadRequest,
                    String::from_str(
                        "session.hello carries neither device_id nor admin_token; exactly one is required",
                    ),
                ),
            ),
        }
    }
}

/// `session.hello` response: tagged on `mode`.
#[derive(Debug, Clone, PartialEq)]
pub enum HelloResponse {
    Challenge(Challenge),
    Ready(Ready),
}

/// The `mode: "challenge"` branch — the answer to a deck.
#[derive(Debug, Clone, PartialEq, Eq)]
pub struct Challenge {
    /// 32 random bytes, base64.
    pub nonce: String,
    pub host_id: String,
    pub host_name: String,
}

/// The `mode: "ready"` branch, and also the `session.auth` response.
#[derive(Debug, Clone, PartialEq, Eq)]
pub struct Ready {
    pub role: Role,
    pub protocol: u8,
    pub engine_version: String,
    pub host_platform: HostPlatform,
    pub active_profile_id: String,
    pub capabilities: Capabilities,
}

/// What this host can actually do right now.
#[derive(Debug, Clone, Copy, PartialEq, Eq, Structural)]
pub struct Capabilities {
    /// False when `input.text` cannot inject arbitrary Unicode — notably Linux/uinput.
    pub text_unicode: bool,
    /// False when the backend cannot emit media keys.
    pub media_keys: bool,
    /// False when the backend cannot emit mouse events.
    pub mouse: bool,
    /// False when shell execution is disabled.
    pub shell_actions: bool,
}

/// `session.auth` request. Valid only after a [`Challenge`].
#[derive(Debug, Clone, PartialEq, Eq)]
pub struct AuthRequest {
    /// Ed25519 signature, 64 bytes, base64.
    pub signature: String,
}

/// The platform a client runs on.
#[derive(Debug, Clone, Copy, PartialEq, Eq, Hash, Structural)]
pub enum Platform {
    Ios,
    Android,
    Windows,
    Macos,
    Linux,
}

/// The platform the engine runs on. There is no mobile host.
#[derive(Debug, Clone, Copy, PartialEq, Eq, Hash, Structural)]
pub enum HostPlatform {
    Windows,
    Macos,
    Linux,
}

/// `deck` for paired devices, `admin` for the local control panel. `admin` cannot be
/// requested: it is granted only to a loopback peer presenting the local admin token.
#[derive(Debug, Clone, Copy, PartialEq, Eq, Hash, Structural)]
pub enum Role {
    Deck,
    Admin,
}

impl Platform {
    /// The wire name.
    pub open spec fn wire_name(self) -> Seq<char> {
        match self {
            Platform::Ios => "ios"@,
            Platform::Android => "android"@,
            Platform::Windows => "windows"@,
            Platform::Macos => "macos"@,
            Platform::Linux => "linux"@,
        }
    }

    pub fn as_str(&self) -> (r: &'static str)
        ensures
            r@ == self.wire_name(),
    {
        match self {
            Platform::Ios => "ios",
            Platform::Android => "android",
            Platform::Windows => "windows",
            Platform::Macos => "macos",
            Platform::Linux => "linux",
        }
    }

    /// The value with this wire name, if any.
    pub fn from_wire(wire: &str) -> (r: Option<Platform>)
        ensures
            r matches Some(v) ==> v.wire_name() == wire@,
            r is None ==> forall|v: Platform| #[trigger] v.wire_name() != wire@,
    {
        if crate::text::str_eq(wire, "ios") {
            return Some(Platform::Ios);
        }
        if crate::text::str_eq(wire, "android") {
            return Some(Platform::Android);
        }
        if crate::text::str_eq(wire, "windows") {
            return Some(Platform::Windows);
        }
        if crate::text::str_eq(wire, "macos") {
            return Some(Platform::Macos);
        }
        if crate::text::str_eq(wire, "linux") {
            return Some(Platform::Linux);
        }
        proof {
            reveal_strlit("ios");
            reveal_strlit("android");
            reveal_strlit("windows");
            reveal_strlit("macos");
            reveal_strlit("linux");
            assert forall|v: Platform| #[trigger] v.wire_name() != wire@ by {
                match v {
                    Platform::Ios => {},
                    Platform::Android => {},
                    Platform::Windows => {},
                    Platform::Macos => {},
                    Platform::Linux => {},
                }
            }
        }
        None
    }
}

impl HostPlatform {
    /// The wire name.
    pub open spec fn wire_name(self) -> Seq<char> {
        match self {
            HostPlatform::Windows => "windows"@,
            HostPlatform::Macos => "macos"@,
            HostPlatform::Linux => "linux"@,
        }
    }

    pub fn as_str(&self) -> (r: &'static str)
        ensures
            r@ == self.wire_name(),
    {
        match self {
            HostPlatform::Windows => "windows",
            HostPlatform::Macos => "macos",
            HostPlatform::Linux => "linux",
        }
    }

    /// The value with this wire name, if any.
    pub fn from_wire(wire: &str) -> (r: Option<HostPlatform>)
        ensures
            r matches Some(v) ==> v.wire_name() == wire@,
            r is None ==> forall|v: HostPlatform| #[trigger] v.wire_name() != wire@,
    {
        if crate::text::str_eq(wire, "windows") {
            return Some(HostPlatform::Windows);
        }
        if crate::text::str_eq(wire, "macos") {
            return Some(HostPlatform::Macos);
        }
        if crate::text::str_eq(wire, "linux") {
            return Some(HostPlatform::Linux);
        }
        proof {
            reveal_strlit("windows");
            reveal_strlit("macos");
            reveal_strlit("linux");
            assert forall|v: HostPlatform| #[trigger] v.wire_name() != wire@ by {
                match v {
                    HostPlatform::Windows => {},
                    HostPlatform::Macos => {},
                    HostPlatform::Linux => {},
                }
            }
        }
        None
    }
}

impl Role {
    /// The wire name.
    pub open spec fn wire_name(self) -> Seq<char> {
        match self {
            Role::Deck => "deck"@,
            Role::Admin => "admin"@,
        }
    }

    pub fn as_str(&self) -> (r: &'static str)
        ensures
            r@ == self.wire_name(),
    {
        match self {
            Role::Deck => "deck",
            Role::Admin => "admin",
        }
    }

    /// The value with this wire name, if any.
    pub fn from_wire(wire: &str) -> (r: Option<Role>)
        ensures
            r matches Some(v) ==> v.wire_name() == wire@,
            r is None ==> forall|v: Role| #[trigger] v.wire_name() != wire@,
    {
        if crate::text::str_eq(wire, "deck") {
            return Some(Role::Deck);
        }
        if crate::text::str_eq(wire, "admin") {
            return Some(Role::Admin);
        }
        proof {
            reveal_strlit("deck");
            reveal_strlit("admin");
            assert forall|v: Role| #[trigger] v.wire_name() != wire@ by {
                match v {
                    Role::Deck => {},
                    Role::Admin => {},
                }
            }
        }
        None
    }
}

} // verus!
