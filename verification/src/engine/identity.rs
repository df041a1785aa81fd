//! Host identity: the Ed25519 keypair, the TLS certificate's fingerprint, the local admin token,
//! and the identifiers derived from public keys.
use vstd::prelude::*;

use crate::engine::error::EngineError;
use vstd::utf8::encode_utf8;

use crate::primitives::{
    base64_decode, base64_standard_decode, ed25519_public_from_secret, ed25519_public_key,
    random_bytes, sha256, sha256_digest,
};
use crate::text::{
    concat2, fixed_digits, fixed_digits_spec, hex_lower, hex_lower_spec, starts_with,
    starts_with_spec, trim, trim_spec,
};

verus! {

/// Length of the local admin token, in bytes, before base64.
pub const ADMIN_TOKEN_LEN: usize = 32;

/// Codes are drawn below this bound.
pub const OTP_LIMIT: u32 = 1_000_000;

/// The largest raw sample accepted: samples above it would bias the code towards low values.
pub const OTP_CUTOFF: u32 = 4294000000 - 1;

/// How many samples may be drawn before giving up. Each is rejected with probability below
/// 0.00023, so the bound is never reached by a working source; it is there so that the loop
/// provably ends.
pub const OTP_MAX_DRAWS: u64 = 18446744073709551615;

/// `prefix` followed by the first 16 lowercase hex characters of SHA-256 over the key bytes.
pub open spec fn id_spec(prefix: Seq<char>, key: Seq<u8>) -> Seq<char> {
    prefix + hex_lower_spec(sha256_digest(key).take(8))
}

/// `prefix` + the first 16 hex characters of SHA-256 over the raw public key bytes. The same
/// rule gives `host_id` (`h_`) and `device_id` (`d_`).
pub fn id_from_pubkey_bytes(prefix: &str, bytes: &[u8]) -> (r: String)
    ensures
        r@ == id_spec(prefix@, bytes@),
        r@.len() == prefix@.len() + 16,
{
    let digest = sha256(bytes);
    let first = slice_prefix(digest.as_slice(), 8);
    let hex = hex_lower(first.as_slice());
    let mut out = String::from_str(prefix);
    out.append(hex.as_str());
    out
}

/// The first `n` bytes.
fn slice_prefix(bytes: &[u8], n: usize) -> (r: Vec<u8>)
    requires
        n <= bytes@.len(),
    ensures
        r@ == bytes@.take(n as int),
{
    let mut r: Vec<u8> = Vec::new();
    let mut i: usize = 0;
    while i < n
        invariant
            i <= n <= bytes@.len(),
            r@ == bytes@.take(i as int),
        decreases n - i,
    {
        r.push(bytes[i]);
        assert(r@ =~= bytes@.take(i + 1));
        i = i + 1;
    }
    r
}

/// Lowercase hex of SHA-256 over a certificate's DER: 64 characters.
pub open spec fn fingerprint_spec(der: Seq<u8>) -> Seq<char> {
    hex_lower_spec(sha256_digest(der))
}

/// The certificate fingerprint: SHA-256 over the leaf certificate DER, lowercase hex, no
/// separators.
pub fn fingerprint_from_der(der: &[u8]) -> (r: String)
    ensures
        r@ == fingerprint_spec(der@),
        r@.len() == 64,
{
    let digest = sha256(der);
    hex_lower(digest.as_slice())
}

/// `fixed_digits_spec` has exactly `width` characters, every one an ASCII digit.
pub proof fn lemma_fixed_digits_shape(n: nat, width: nat)
    ensures
        fixed_digits_spec(n, width).len() == width,
        forall|i: int|
            0 <= i < width ==> '0' <= #[trigger] fixed_digits_spec(n, width)[i] <= '9',
    decreases width,
{
    if width > 0 {
        lemma_fixed_digits_shape(n / 10, (width - 1) as nat);
        let d = n % 10;
        assert('0' <= crate::text::digit_spec(d) <= '9');
    }
}

/// A six-digit code from one raw sample, or `None` when the sample is above the cutoff and must
/// be drawn again (rejection sampling, so every code is equally likely).
pub fn otp_from_sample(value: u32) -> (r: Option<String>)
    ensures
        value <= OTP_CUTOFF ==> (r matches Some(s) && s@ == fixed_digits_spec(
            (value % OTP_LIMIT) as nat,
            6,
        )),
        value > OTP_CUTOFF ==> r is None,
{
    if value <= OTP_CUTOFF {
        Some(fixed_digits((value % OTP_LIMIT) as u64, 6))
    } else {
        None
    }
}

/// The code given by the first sample at or below the cutoff, among `samples` in the order
/// they were drawn; `None` when every sample is rejected.
pub open spec fn first_accepted_code(samples: Seq<u32>) -> Option<Seq<char>>
    decreases samples.len(),
{
    if samples.len() == 0 {
        None
    } else if samples[0] <= OTP_CUTOFF {
        Some(fixed_digits_spec((samples[0] % OTP_LIMIT) as nat, 6))
    } else {
        first_accepted_code(samples.drop_first())
    }
}

/// A sample drawn after samples that were all rejected decides the code on its own.
pub proof fn lemma_first_accepted_push(samples: Seq<u32>, v: u32)
    requires
        first_accepted_code(samples) is None,
    ensures
        first_accepted_code(samples.push(v)) == first_accepted_code(seq![v]),
    decreases samples.len(),
{
    if samples.len() > 0 {
        assert(samples[0] > OTP_CUTOFF);
        lemma_first_accepted_push(samples.drop_first(), v);
        assert(samples.push(v)[0] == samples[0]);
        assert(samples.push(v).drop_first() =~= samples.drop_first().push(v));
    } else {
        assert(samples.push(v) =~= seq![v]);
    }
}

/// A six-digit one-time pairing code, uniformly distributed: samples are drawn until one is at
/// or below the cutoff, and the code is that sample's value below a million, zero-padded.
/// Since the samples are chance, what is promised is that the code is the one the first
/// accepted sample gives among some run of draws. It fails only with an entropy error: when the
/// source fails, or (never, in practice) when the draw bound runs out.
pub fn generate_otp() -> (r: Result<String, EngineError>)
    ensures
        r matches Ok(s) ==> s@.len() == 6 && forall|i: int|
            0 <= i < 6 ==> '0' <= #[trigger] s@[i] <= '9',
        r matches Ok(s) ==> exists|drawn: Seq<u32>| #[trigger] first_accepted_code(drawn) == Some(s@),
        r matches Err(e) ==> e is Entropy,
{
    let mut draws: u64 = 0;
    let ghost mut drawn: Seq<u32> = Seq::empty();
    while draws < OTP_MAX_DRAWS
        invariant
            draws <= OTP_MAX_DRAWS,
            first_accepted_code(drawn) is None,
        decreases OTP_MAX_DRAWS - draws,
    {
        let bytes = match random_bytes(4) {
            Ok(b) => b,
            Err(e) => {
                return Err(e);
            },
        };
        let value = (bytes[0] as u32) + (bytes[1] as u32) * 256 + (bytes[2] as u32) * 65536
            + (bytes[3] as u32) * 16777216;
        proof {
            lemma_first_accepted_push(drawn, value);
            assert(seq![value].drop_first() =~= Seq::<u32>::empty());
            reveal_with_fuel(first_accepted_code, 2);
            drawn = drawn.push(value);
        }
        match otp_from_sample(value) {
            Some(code) => {
                proof {
                    lemma_fixed_digits_shape((value % OTP_LIMIT) as nat, 6);
                    assert(first_accepted_code(drawn) == Some(code@));
                }
                return Ok(code);
            },
            None => {},
        }
        draws = draws + 1;
    }
    Err(
        EngineError::Entropy(
            String::from_str("the entropy source kept returning values outside the code range"),
        ),
    )
}

/// Whether a PEM line is armour, such as `-----BEGIN CERTIFICATE-----`.
pub open spec fn is_armour(line: Seq<char>) -> bool {
    starts_with_spec(line, "-----"@)
}

/// What a line contributes to the body: nothing if it is armour, itself otherwise.
pub open spec fn kept_line(line: Seq<char>) -> Seq<char> {
    if is_armour(line) {
        Seq::empty()
    } else {
        line
    }
}

/// A line ended by `\n` loses the `\r` of a `\r\n` ending, as `str::lines` strips it.
pub open spec fn strip_cr(line: Seq<char>) -> Seq<char> {
    if line.len() > 0 && line.last() == '\r' {
        line.drop_last()
    } else {
        line
    }
}

/// Reading `s` line by line: the kept lines so far, joined, and the line not yet ended.
pub open spec fn pem_scan(s: Seq<char>) -> (Seq<char>, Seq<char>)
    decreases s.len(),
{
    if s.len() == 0 {
        (Seq::empty(), Seq::empty())
    } else {
        let (body, line) = pem_scan(s.drop_last());
        if s.last() == '\n' {
            (body + kept_line(strip_cr(line)), Seq::empty())
        } else {
            (body, line.push(s.last()))
        }
    }
}

/// The body of a PEM document: its lines other than armour, joined without separators.
pub open spec fn pem_body(s: Seq<char>) -> Seq<char> {
    pem_scan(s).0 + kept_line(pem_scan(s).1)
}

/// The DER a PEM certificate carries: its trimmed body, base64-decoded, or `None` where the
/// body is not base64.
pub open spec fn pem_der(pem: Seq<char>) -> Option<Seq<u8>> {
    base64_standard_decode(encode_utf8(trim_spec(pem_body(pem))))
}

/// The body of a PEM document, armour lines dropped and the rest joined.
pub fn pem_body_of(pem: &str) -> (r: String)
    ensures
        r@ == pem_body(pem@),
{
    let n = pem.unicode_len();
    let mut body = String::new();
    let mut line = String::new();
    let mut i: usize = 0;
    while i < n
        invariant
            n == pem@.len(),
            i <= n,
            (body@, line@) == pem_scan(pem@.take(i as int)),
        decreases n - i,
    {
        let c = pem.get_char(i);
        assert(pem@.take(i + 1).drop_last() =~= pem@.take(i as int));
        assert(pem@.take(i + 1).last() == c);
        if c == '\n' {
            let l = line.as_str();
            let m = l.unicode_len();
            let stripped = if m > 0 && l.get_char(m - 1) == '\r' {
                assert(l@.subrange(0, m - 1) =~= l@.drop_last());
                l.substring_char(0, m - 1)
            } else {
                l
            };
            if !starts_with(stripped, "-----") {
                body.append(stripped);
            } else {
                assert(body@ =~= body@ + Seq::<char>::empty());
            }
            line = String::new();
        } else {
            crate::text::push_char(&mut line, c);
        }
        i = i + 1;
    }
    assert(pem@.take(n as int) =~= pem@);
    if !starts_with(line.as_str(), "-----") {
        body.append(line.as_str());
    } else {
        assert(body@ =~= body@ + Seq::<char>::empty());
    }
    body
}

/// The DER of a PEM certificate; a body that is not base64 is a certificate error that quotes
/// the decoder.
pub fn der_from_pem(pem: &str) -> (r: Result<Vec<u8>, EngineError>)
    ensures
        match pem_der(pem@) {
            Some(der) => r matches Ok(v) && v@ == der,
            None => r matches Err(e) && e matches EngineError::Certificate(m) && starts_with_spec(
                m@,
                "certificate is not valid PEM: "@,
            ),
        },
{
    let body = pem_body_of(pem);
    match base64_decode(trim(body.as_str())) {
        Ok(der) => Ok(der),
        Err(e) => {
            let message = concat2("certificate is not valid PEM: ", e.as_str());
            assert(message@.subrange(0, "certificate is not valid PEM: "@.len() as int)
                =~= "certificate is not valid PEM: "@);
            Err(EngineError::Certificate(message))
        },
    }
}

/// The fingerprint of a PEM certificate: SHA-256 over its DER, not over the PEM text, which is
/// base64 with line breaks and armour that nothing else in the system would agree with.
pub fn fingerprint_from_pem(pem: &str) -> (r: Result<String, EngineError>)
    ensures
        match pem_der(pem@) {
            Some(der) => r matches Ok(f) && f@ == fingerprint_spec(der),
            None => r matches Err(e) && e is Certificate,
        },
{
    let der = der_from_pem(pem)?;
    Ok(fingerprint_from_der(der.as_slice()))
}

/// Everything that identifies this host.
pub struct Identity {
    secret_key: Vec<u8>,
    public_key: Vec<u8>,
    host_id: String,
    fingerprint: String,
    cert_pem: String,
    key_pem: String,
    admin_token: String,
}

impl Identity {
    pub closed spec fn host_id_spec(&self) -> Seq<char> {
        self.host_id@
    }

    pub closed spec fn public_key_spec(&self) -> Seq<u8> {
        self.public_key@
    }

    pub closed spec fn secret_key_spec(&self) -> Seq<u8> {
        self.secret_key@
    }

    pub closed spec fn admin_token_spec(&self) -> Seq<char> {
        self.admin_token@
    }

    pub closed spec fn fingerprint_spec(&self) -> Seq<char> {
        self.fingerprint@
    }

    pub closed spec fn cert_pem_spec(&self) -> Seq<char> {
        self.cert_pem@
    }

    pub closed spec fn key_pem_spec(&self) -> Seq<char> {
        self.key_pem@
    }

    /// Assembles an identity from its secret key (32 bytes), the certificate and its key in
    /// PEM, and the admin token. The host id is derived from the public key and the
    /// fingerprint from the certificate's DER, so neither can disagree with its source; a
    /// certificate whose PEM body is not base64 is refused.
    pub fn from_parts(
        secret_key: Vec<u8>,
        cert_pem: String,
        key_pem: String,
        admin_token: String,
    ) -> (r: Result<Self, EngineError>)
        requires
            secret_key@.len() == 32,
        ensures
            r is Ok <==> pem_der(cert_pem@) is Some,
            r matches Ok(id) ==> {
                &&& id.secret_key_spec() == secret_key@
                &&& id.public_key_spec() == ed25519_public_from_secret(secret_key@)
                &&& id.host_id_spec() == id_spec("h_"@, ed25519_public_from_secret(secret_key@))
                &&& id.fingerprint_spec() == fingerprint_spec(pem_der(cert_pem@)->0)
                &&& id.admin_token_spec() == admin_token@
                &&& id.cert_pem_spec() == cert_pem@
                &&& id.key_pem_spec() == key_pem@
            },
            r matches Err(e) ==> e is Certificate,
    {
        let fingerprint = fingerprint_from_pem(cert_pem.as_str())?;
        let public_key = ed25519_public_key(secret_key.as_slice());
        let host_id = id_from_pubkey_bytes("h_", public_key.as_slice());
        Ok(Identity { secret_key, public_key, host_id, fingerprint, cert_pem, key_pem, admin_token })
    }

    /// Rebuilds the identity from what was stored: the raw secret key, the certificate and
    /// its key in PEM, and the admin token file's text, which is trimmed. A secret key that is
    /// not 32 bytes is a corrupt identity.
    pub fn load_from(
        secret_key: Vec<u8>,
        cert_pem: String,
        key_pem: String,
        admin_token_text: &str,
    ) -> (r: Result<Self, EngineError>)
        ensures
            secret_key@.len() != 32 ==> (r matches Err(e) && e == (EngineError::CorruptIdentity {
                what: "host identity key",
            })),
            secret_key@.len() == 32 ==> (r is Ok <==> pem_der(cert_pem@) is Some),
            r matches Ok(id) ==> {
                &&& id.secret_key_spec() == secret_key@
                &&& id.public_key_spec() == ed25519_public_from_secret(secret_key@)
                &&& id.host_id_spec() == id_spec("h_"@, ed25519_public_from_secret(secret_key@))
                &&& id.fingerprint_spec() == fingerprint_spec(pem_der(cert_pem@)->0)
                &&& id.admin_token_spec() == trim_spec(admin_token_text@)
                &&& id.cert_pem_spec() == cert_pem@
                &&& id.key_pem_spec() == key_pem@
            },
    {
        if secret_key.len() != 32 {
            return Err(EngineError::CorruptIdentity { what: "host identity key" });
        }
        let token = String::from_str(trim(admin_token_text));
        Identity::from_parts(secret_key, cert_pem, key_pem, token)
    }

    /// `"h_"` followed by 16 lowercase hex characters.
    pub fn host_id(&self) -> (r: &str)
        ensures
            r@ == self.host_id_spec(),
    {
        self.host_id.as_str()
    }

    /// Lowercase hex, no separators, SHA-256 over the leaf certificate DER. 64 characters.
    pub fn fingerprint(&self) -> (r: &str)
        ensures
            r@ == self.fingerprint_spec(),
    {
        self.fingerprint.as_str()
    }

    pub fn cert_pem(&self) -> (r: &str)
        ensures
            r@ == self.cert_pem_spec(),
    {
        self.cert_pem.as_str()
    }

    pub fn key_pem(&self) -> (r: &str)
        ensures
            r@ == self.key_pem_spec(),
    {
        self.key_pem.as_str()
    }

    /// Never log this.
    pub fn admin_token(&self) -> (r: &str)
        ensures
            r@ == self.admin_token_spec(),
    {
        self.admin_token.as_str()
    }

    /// The host's public key bytes.
    pub fn verifying_key(&self) -> (r: &[u8])
        ensures
            r@ == self.public_key_spec(),
    {
        self.public_key.as_slice()
    }

    /// The host's secret key bytes, for writing back to its owner-only file.
    pub fn secret_key(&self) -> (r: &[u8])
        ensures
            r@ == self.secret_key_spec(),
    {
        self.secret_key.as_slice()
    }
}

} // verus!
