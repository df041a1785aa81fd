//! The pairing window, its one-time code, and proof-of-possession verification.
use vstd::prelude::*;
use vstd::utf8::encode_utf8;

use crate::engine::error::{is_wire_error, EngineError};
use crate::engine::identity::generate_otp;
use crate::primitives::{
    base64_decode, base64_standard_decode, ed25519_key_is_valid, ed25519_point_decodes,
    ed25519_strict_verifies, ed25519_verify_strict, elapsed_seconds, monotonic_now, unix_now,
};
use crate::protocol::envelope::ErrorCode;
use crate::protocol::pairing::{
    PairRequest, DEFAULT_TTL_SECONDS, TTL_MAX_SECONDS, TTL_MIN_SECONDS,
};
use crate::protocol::signing::{pair_proof_layout, pair_proof_message, PUBKEY_LEN, SIGNATURE_LEN};
use crate::text::{decimal, decimal_spec};

verus! {

/// An open pairing window.
#[derive(Debug)]
pub struct PairingWindow {
    code: String,
    opened_at: std::time::Instant,
    ttl_seconds: u32,
    /// Unix seconds, for the wire. The monotonic clock decides whether the window is open,
    /// because a wall clock can jump.
    expires_at: i64,
}

impl Clone for PairingWindow {
    fn clone(&self) -> (r: Self)
        ensures
            r.code_spec() == self.code_spec(),
            r.expires_at_spec() == self.expires_at_spec(),
            r.ttl_spec() == self.ttl_spec(),
    {
        PairingWindow {
            code: self.code.clone(),
            opened_at: self.opened_at,
            ttl_seconds: self.ttl_seconds,
            expires_at: self.expires_at,
        }
    }
}

/// The QR payload: `muxdeck://pair?addr=..&host=..&fp=..&code=..`, in exactly that order.
pub open spec fn qr_payload_spec(
    addr: Seq<char>,
    host_id: Seq<char>,
    fingerprint: Seq<char>,
    code: Seq<char>,
) -> Seq<char> {
    "muxdeck://pair?addr="@ + addr + "&host="@ + host_id + "&fp="@ + fingerprint + "&code="@ + code
}

/// The time to live asked for, or the default when none was.
pub open spec fn ttl_or_default(ttl_seconds: Option<u32>) -> u32 {
    match ttl_seconds {
        Some(t) => t,
        None => DEFAULT_TTL_SECONDS,
    }
}

/// When a window opened at wall-clock second `now` with time to live `ttl` expires: `ttl`
/// seconds later, saturating at the last representable second.
pub open spec fn expiry_spec(now: i64, ttl: u32) -> i64 {
    if now <= i64::MAX - ttl {
        (now + ttl) as i64
    } else {
        i64::MAX
    }
}

impl PairingWindow {
    pub closed spec fn code_spec(&self) -> Seq<char> {
        self.code@
    }

    pub closed spec fn expires_at_spec(&self) -> i64 {
        self.expires_at
    }

    pub closed spec fn ttl_spec(&self) -> u32 {
        self.ttl_seconds
    }

    /// Opens a window with a fresh six-digit code. An explicit `ttl_seconds` must already be in
    /// `30..=300`; it is checked by `PairBeginRequest::validate`, never clamped here. The window
    /// is built by [`Self::open_at`] from the code drawn and the two clock readings taken now, so
    /// it expires at the wall-clock reading plus its time to live.
    pub fn open(ttl_seconds: Option<u32>) -> (r: Result<Self, EngineError>)
        requires
            ttl_seconds matches Some(t) ==> TTL_MIN_SECONDS <= t <= TTL_MAX_SECONDS,
        ensures
            r matches Ok(w) ==> {
                &&& w.code_spec().len() == 6
                &&& forall|i: int| 0 <= i < 6 ==> '0' <= #[trigger] w.code_spec()[i] <= '9'
                &&& w.ttl_spec() == ttl_or_default(ttl_seconds)
            },
            r matches Err(e) ==> e is Entropy,
    {
        let code = match generate_otp() {
            Ok(c) => c,
            Err(e) => {
                return Err(e);
            },
        };
        let opened_at = monotonic_now();
        let now = unix_now();
        Ok(Self::open_at(code, opened_at, now, ttl_seconds))
    }

    /// The window holding `code`, opened at the monotonic reading `opened_at` and the wall-clock
    /// reading `now` (Unix seconds): its time to live is `ttl_seconds` or the default, and it
    /// expires `ttl` seconds after `now`, or at the last representable second.
    pub fn open_at(code: String, opened_at: std::time::Instant, now: i64, ttl_seconds: Option<u32>) -> (r:
        Self)
        ensures
            r.code_spec() == code@,
            r.ttl_spec() == ttl_or_default(ttl_seconds),
            r.expires_at_spec() == expiry_spec(now, ttl_or_default(ttl_seconds)),
    {
        let ttl = match ttl_seconds {
            Some(t) => t,
            None => DEFAULT_TTL_SECONDS,
        };
        let expires_at = if now <= i64::MAX - (ttl as i64) {
            now + ttl as i64
        } else {
            i64::MAX
        };
        PairingWindow { code, opened_at, ttl_seconds: ttl, expires_at }
    }

    pub fn code(&self) -> (r: &str)
        ensures
            r@ == self.code_spec(),
    {
        self.code.as_str()
    }

    pub fn expires_at(&self) -> (r: i64)
        ensures
            r == self.expires_at_spec(),
    {
        self.expires_at
    }

    /// Whether the window is still open `elapsed` whole seconds after it was opened: it stays
    /// open for its whole time to live, and not a moment longer.
    pub fn is_open_after(&self, elapsed: u64) -> (r: bool)
        ensures
            r == (elapsed < self.ttl_spec()),
    {
        elapsed < self.ttl_seconds as u64
    }

    /// Whole seconds since the window was opened, by the monotonic clock; nothing is promised of
    /// the reading.
    pub fn seconds_open(&self) -> u64 {
        elapsed_seconds(&self.opened_at)
    }

    /// Whether the window is still open by the monotonic clock; the reading is handed to
    /// [`Self::is_open_after`], and nothing more is promised, since the answer depends on when
    /// it is asked.
    pub fn is_open(&self) -> bool {
        self.is_open_after(self.seconds_open())
    }

    /// The QR payload. None of the four parameters needs percent-encoding: the address is
    /// numeric and the IDs and fingerprint are hex.
    pub fn qr_payload(&self, addr: &str, host_id: &str, fingerprint: &str) -> (r: String)
        ensures
            r@ == qr_payload_spec(addr@, host_id@, fingerprint@, self.code_spec()),
    {
        let mut s = String::from_str("muxdeck://pair?addr=");
        s.append(addr);
        s.append("&host=");
        s.append(host_id);
        s.append("&fp=");
        s.append(fingerprint);
        s.append("&code=");
        s.append(self.code.as_str());
        s
    }
}

/// Equal contents, compared without leaking where two byte strings first differ.
pub fn constant_time_eq(a: &[u8], b: &[u8]) -> (r: bool)
    ensures
        r == (a@ == b@),
{
    if a.len() != b.len() {
        return false;
    }
    let mut acc: u8 = 0;
    let mut i: usize = 0;
    while i < a.len()
        invariant
            a@.len() == b@.len(),
            i <= a@.len(),
            (acc == 0) == (forall|j: int| 0 <= j < i ==> a@[j] == b@[j]),
        decreases a@.len() - i,
    {
        let x = a[i];
        let y = b[i];
        let next = acc | (x ^ y);
        assert((next == 0) == (acc == 0 && x == y)) by (bit_vector)
            requires
                next == acc | (x ^ y),
        ;
        acc = next;
        proof {
            if acc == 0 {
                assert forall|j: int| 0 <= j < i + 1 implies a@[j] == b@[j] by {
                    if j < i {
                    }
                }
            }
        }
        i = i + 1;
    }
    if acc == 0 {
        assert(a@ =~= b@);
        true
    } else {
        false
    }
}

/// What decoding a base64 field of exactly `n` bytes gives: the bytes, or the message of the
/// `BAD_REQUEST` it is refused with.
pub open spec fn decode_fixed_spec(value: Seq<char>, field: Seq<char>, n: nat) -> Result<
    Seq<u8>,
    Seq<char>,
> {
    match base64_standard_decode(encode_utf8(value)) {
        None => Err(field + " is not valid base64"@),
        Some(bytes) => if bytes.len() == n {
            Ok(bytes)
        } else {
            Err(
                field + " must decode to exactly "@ + decimal_spec(n) + " bytes, got "@
                    + decimal_spec(bytes.len()),
            )
        },
    }
}

/// `r` is what [`decode_fixed_spec`] says: the bytes, or `BAD_REQUEST` with its message.
pub open spec fn answers_decode(r: Result<Vec<u8>, EngineError>, expected: Result<Seq<u8>, Seq<char>>) -> bool {
    match expected {
        Ok(bytes) => r matches Ok(v) && v@ == bytes,
        Err(message) => r matches Err(e) && is_wire_error(e, ErrorCode::BadRequest, message),
    }
}

/// Decodes a base64 field that must be exactly `n` bytes. A wrong length is `BAD_REQUEST`, not
/// `BAD_SIGNATURE`: it is a malformed message, not a failed verification.
pub fn decode_fixed(value: &str, field: &str, n: usize) -> (r: Result<Vec<u8>, EngineError>)
    ensures
        answers_decode(r, decode_fixed_spec(value@, field@, n as nat)),
{
    match base64_decode(value) {
        Err(_) => {
            let mut message = String::from_str(field);
            message.append(" is not valid base64");
            Err(EngineError::wire(ErrorCode::BadRequest, message))
        },
        Ok(bytes) => {
            if bytes.len() == n {
                Ok(bytes)
            } else {
                let mut message = String::from_str(field);
                message.append(" must decode to exactly ");
                let expected = decimal(n as u64);
                message.append(expected.as_str());
                message.append(" bytes, got ");
                let got = decimal(bytes.len() as u64);
                message.append(got.as_str());
                Err(EngineError::wire(ErrorCode::BadRequest, message))
            }
        },
    }
}

pub open spec fn pairing_closed_message() -> Seq<char> {
    "the host is not accepting new devices right now"@
}

pub open spec fn bad_code_message() -> Seq<char> {
    "incorrect pairing code"@
}

pub open spec fn invalid_key_message() -> Seq<char> {
    "device_pubkey is not a valid Ed25519 key"@
}

pub open spec fn bad_proof_message() -> Seq<char> {
    "proof of possession did not verify against device_pubkey"@
}

/// The verdict on a `pair.request` given the code of the open window, if one is open: the
/// verified public key, or the error code and message it is refused with. The checks run in
/// this order, and nothing is written before all of them pass.
pub open spec fn pair_request_verdict(open_code: Option<Seq<char>>, request: PairRequest) -> Result<
    Seq<u8>,
    (ErrorCode, Seq<char>),
> {
    match open_code {
        None => Err((ErrorCode::PairingClosed, pairing_closed_message())),
        Some(code) => if code != request.code@ {
            Err((ErrorCode::BadCode, bad_code_message()))
        } else {
            match decode_fixed_spec(request.device_pubkey@, "device_pubkey"@, PUBKEY_LEN as nat) {
                Err(m) => Err((ErrorCode::BadRequest, m)),
                Ok(pubkey) => match decode_fixed_spec(request.proof@, "proof"@, SIGNATURE_LEN as nat) {
                    Err(m) => Err((ErrorCode::BadRequest, m)),
                    Ok(proof) => if !ed25519_point_decodes(pubkey) {
                        Err((ErrorCode::BadRequest, invalid_key_message()))
                    } else if !ed25519_strict_verifies(
                        pubkey,
                        pair_proof_layout(request.code@, pubkey),
                        proof,
                    ) {
                        Err((ErrorCode::BadSignature, bad_proof_message()))
                    } else {
                        Ok(pubkey)
                    },
                },
            }
        },
    }
}

/// The outcome matches what was decided: the key bytes on acceptance, else a wire error with that code and message.
pub open spec fn answers_verdict(r: Result<Vec<u8>, EngineError>, verdict: Result<Seq<u8>, (ErrorCode, Seq<char>)>) -> bool {
    match verdict {
        Ok(key) => r matches Ok(v) && v@ == key,
        Err((code, message)) => r matches Err(e) && is_wire_error(e, code, message),
    }
}

/// Checks a `pair.request` against the code of the window that is open (`None` when there is
/// none) and returns the verified public key.
pub fn verify_pair_request_with(open_code: Option<&str>, request: &PairRequest) -> (r: Result<
    Vec<u8>,
    EngineError,
>)
    ensures
        answers_verdict(
            r,
            pair_request_verdict(
                match open_code {
                    Some(c) => Some(c@),
                    None => None,
                },
                *request,
            ),
        ),
{
    let code = match open_code {
        None => {
            return Err(
                EngineError::wire(
                    ErrorCode::PairingClosed,
                    String::from_str("the host is not accepting new devices right now"),
                ),
            );
        },
        Some(c) => c,
    };
    if !constant_time_eq(code.as_bytes(), request.code.as_str().as_bytes()) {
        proof {
            vstd::utf8::encode_utf8_decode_utf8(code@);
            vstd::utf8::encode_utf8_decode_utf8(request.code@);
        }
        return Err(EngineError::wire(ErrorCode::BadCode, String::from_str("incorrect pairing code")));
    }
    proof {
        vstd::utf8::encode_utf8_decode_utf8(code@);
        vstd::utf8::encode_utf8_decode_utf8(request.code@);
    }
    let pubkey = decode_fixed(request.device_pubkey.as_str(), "device_pubkey", PUBKEY_LEN)?;
    let proof = decode_fixed(request.proof.as_str(), "proof", SIGNATURE_LEN)?;
    if !ed25519_key_is_valid(pubkey.as_slice()) {
        return Err(
            EngineError::wire(
                ErrorCode::BadRequest,
                String::from_str("device_pubkey is not a valid Ed25519 key"),
            ),
        );
    }
    let message = pair_proof_message(request.code.as_str(), pubkey.as_slice());
    if !ed25519_verify_strict(pubkey.as_slice(), message.as_slice(), proof.as_slice()) {
        return Err(
            EngineError::wire(
                ErrorCode::BadSignature,
                String::from_str("proof of possession did not verify against device_pubkey"),
            ),
        );
    }
    Ok(pubkey)
}

/// Checks a `pair.request` against the window, which counts as closed when absent or expired.
/// Whether it has expired depends on the clock, so what is promised is the verdict for the
/// window's code when it is still open, and `PAIRING_CLOSED` otherwise.
pub fn verify_pair_request(window: Option<&PairingWindow>, request: &PairRequest) -> (r: Result<
    Vec<u8>,
    EngineError,
>)
    ensures
        window is None ==> answers_verdict(r, pair_request_verdict(None, *request)),
        window matches Some(w) ==> answers_verdict(
            r,
            pair_request_verdict(Some(w.code_spec()), *request),
        ) || answers_verdict(r, pair_request_verdict(None, *request)),
{
    match window {
        Some(w) => {
            if w.is_open() {
                verify_pair_request_with(Some(w.code.as_str()), request)
            } else {
                verify_pair_request_with(None, request)
            }
        },
        None => verify_pair_request_with(None, request),
    }
}

} // verus!
