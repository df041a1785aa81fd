//! The decisions of the loopback admin client: which certificate it accepts, how it numbers
//! its requests, which reply answers a request, and what the handshake must end in. The socket
//! itself belongs to the program around the library.
use vstd::prelude::*;

use crate::engine::error::EngineError;
use crate::engine::identity::{fingerprint_from_der, fingerprint_spec};
use crate::protocol::envelope::{ErrorPayload, MessageType};
use crate::protocol::session::{HelloResponse, HostPlatform, Ready};
use crate::text::{concat2, decimal, decimal_spec, str_eq, to_ascii_lowercase, to_ascii_lowercase_spec};

verus! {

/// The pin accepts exactly one certificate: the one whose SHA-256 over the DER, in lowercase
/// hex, is the expected fingerprint (compared case-insensitively). Hostname and CA checks are
/// bypassed because the host has neither a DNS name nor a CA, but a different self-signed
/// certificate on the same port is still refused.
pub fn certificate_matches_pin(der: &[u8], expected: &str) -> (r: bool)
    ensures
        r == (fingerprint_spec(der@) == to_ascii_lowercase_spec(expected@)),
{
    let actual = fingerprint_from_der(der);
    let pinned = to_ascii_lowercase(expected);
    str_eq(actual.as_str(), pinned.as_str())
}

/// The correlation ID of the `n`th request: `cli-` and the number.
pub fn request_id(n: u64) -> (r: String)
    ensures
        r@ == "cli-"@ + decimal_spec(n as nat),
{
    let digits = decimal(n);
    concat2("cli-", digits.as_str())
}

/// Whether a reply carrying correlation ID `reply` answers the request sent as `sent`. Events
/// carry no ID and are skipped, as are answers to anything else.
pub fn answers_request(reply: Option<&str>, sent: &str) -> (r: bool)
    ensures
        r == (reply matches Some(id) && id@ == sent@),
{
    match reply {
        Some(id) => str_eq(id, sent),
        None => false,
    }
}

/// What a matching reply means: an `error` envelope is the engine's refusal, anything else is
/// the answer.
pub fn reply_outcome<T>(t: MessageType, answer: T, error: Option<ErrorPayload>) -> (r: Result<
    T,
    EngineError,
>)
    requires
        t is Error ==> error is Some,
    ensures
        t is Error ==> (r matches Err(e) && e == EngineError::Wire(error->0)),
        !(t is Error) ==> r == Ok::<T, EngineError>(answer),
{
    match t {
        MessageType::Error => match error {
            Some(p) => Err(EngineError::Wire(p)),
            None => Ok(answer),
        },
        _ => Ok(answer),
    }
}

/// The loopback admin handshake must end in `Ready`; a challenge there should never happen.
pub fn admin_handshake_outcome(response: HelloResponse) -> (r: Result<Ready, EngineError>)
    ensures
        match response {
            HelloResponse::Ready(ready) => r == Ok::<Ready, EngineError>(ready),
            HelloResponse::Challenge(_) => r matches Err(e) && e is Certificate,
        },
{
    match response {
        HelloResponse::Ready(ready) => Ok(ready),
        HelloResponse::Challenge(_) => Err(
            EngineError::Certificate(
                String::from_str(
                    "the engine issued a challenge to a loopback admin connection, which should never happen",
                ),
            ),
        ),
    }
}

/// The platform word the client introduces itself with.
pub open spec fn platform_word(p: HostPlatform) -> Seq<char> {
    match p {
        HostPlatform::Windows => "windows"@,
        HostPlatform::Macos => "macos"@,
        HostPlatform::Linux => "linux"@,
    }
}

pub fn platform_name(p: HostPlatform) -> (r: &'static str)
    ensures
        r@ == platform_word(p),
{
    match p {
        HostPlatform::Windows => "windows",
        HostPlatform::Macos => "macos",
        HostPlatform::Linux => "linux",
    }
}

} // verus!
