//! Pairing payloads.
use vstd::prelude::*;

use crate::protocol::envelope::{ErrorCode, ErrorPayload};
use crate::protocol::session::Platform;
use crate::text::{decimal, decimal_spec};

verus! {

/// Smallest `ttl_seconds` a pairing window may ask for.
pub const TTL_MIN_SECONDS: u32 = 30;

/// Largest `ttl_seconds` a pairing window may ask for.
pub const TTL_MAX_SECONDS: u32 = 300;

/// The pairing window length used when `ttl_seconds` is omitted.
pub const DEFAULT_TTL_SECONDS: u32 = 120;

/// `pair.request` — callable only during a pairing window, by an unauthenticated socket.
#[derive(Debug, Clone, PartialEq, Eq)]
pub struct PairRequest {
    /// The six-digit one-time code.
    pub code: String,
    /// Ed25519 public key, 32 bytes, base64.
    pub device_pubkey: String,
    pub device_name: String,
    pub platform: Platform,
    /// Ed25519 signature, 64 bytes, base64, over the pairing-proof buffer: it proves the device
    /// holds the private half of the key it registers.
    pub proof: String,
}

#[derive(Debug, Clone, PartialEq, Eq)]
pub struct PairResponse {
    pub device_id: String,
    pub host_id: String,
    pub host_name: String,
}

/// `pair.begin` — admin only. Opens a pairing window.
#[derive(Debug, Clone, Copy, PartialEq, Eq, Default)]
pub struct PairBeginRequest {
    pub ttl_seconds: Option<u32>,
}

/// The message for a `ttl_seconds` outside the accepted range.
pub open spec fn ttl_range_message(ttl: u32) -> Seq<char> {
    "ttl_seconds "@ + decimal_spec(ttl as nat) + " is outside "@ + decimal_spec(
        TTL_MIN_SECONDS as nat,
    ) + "..="@ + decimal_spec(TTL_MAX_SECONDS as nat)
}

impl PairBeginRequest {
    /// The window length asked for, the default when omitted. Not clamped: call
    /// [`Self::validate`] first.
    pub fn ttl_or_default(&self) -> (r: u32)
        ensures
            r == match self.ttl_seconds {
                Some(t) => t,
                None => DEFAULT_TTL_SECONDS,
            },
    {
        match self.ttl_seconds {
            Some(t) => t,
            None => DEFAULT_TTL_SECONDS,
        }
    }

    /// An explicit `ttl_seconds` outside `30..=300` is `BAD_REQUEST`, never silently coerced.
    pub fn validate(&self) -> (r: Result<(), ErrorPayload>)
        ensures
            match self.ttl_seconds {
                Some(ttl) if !(TTL_MIN_SECONDS <= ttl <= TTL_MAX_SECONDS) => r matches Err(e)
                    && e.code == ErrorCode::BadRequest && e.message@ == ttl_range_message(ttl),
                _ => r is Ok,
            },
    {
        match self.ttl_seconds {
            Some(ttl) => {
                if ttl < TTL_MIN_SECONDS || ttl > TTL_MAX_SECONDS {
                    let mut message = String::from_str("ttl_seconds ");
                    let n = decimal(ttl as u64);
                    message.append(n.as_str());
                    message.append(" is outside ");
                    let lo = decimal(TTL_MIN_SECONDS as u64);
                    message.append(lo.as_str());
                    message.append("..=");
                    let hi = decimal(TTL_MAX_SECONDS as u64);
                    message.append(hi.as_str());
                    Err(ErrorPayload::new(ErrorCode::BadRequest, message))
                } else {
                    Ok(())
                }
            },
            None => Ok(()),
        }
    }
}

#[derive(Debug, Clone, PartialEq, Eq)]
pub struct PairBeginResponse {
    pub code: String,
    /// Unix timestamp, seconds.
    pub expires_at: i64,
    /// `muxdeck://pair?addr=&host=&fp=&code=`, parameters in exactly that order.
    pub qr_payload: String,
}

#[derive(Debug, Clone, PartialEq, Eq)]
pub struct PairListDevicesResponse {
    pub devices: Vec<DeviceInfo>,
}

#[derive(Debug, Clone, PartialEq, Eq)]
pub struct DeviceInfo {
    pub device_id: String,
    pub name: String,
    pub platform: Platform,
    /// Unix timestamp, seconds.
    pub paired_at: i64,
    /// Unix timestamp, seconds.
    pub last_seen: i64,
    pub connected: bool,
}

#[derive(Debug, Clone, PartialEq, Eq)]
pub struct PairRevokeRequest {
    pub device_id: String,
}

/// `evt pairing.state`, delivered to `admin` sockets only.
#[derive(Debug, Clone, Copy, PartialEq, Eq, Structural)]
pub struct PairingState {
    pub active: bool,
    /// Unix timestamp, seconds.
    pub expires_at: i64,
}

} // verus!
