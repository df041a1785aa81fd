//! The outside computations the engine relies on: hashing, base64, Ed25519, the entropy source
//! and the clocks. Each is a thin call whose contract is trusted, not proved.
use vstd::prelude::*;
use vstd::utf8::encode_utf8;

use base64::Engine as _;
use sha2::Digest as _;

use crate::engine::error::EngineError;

verus! {

/// What `sha2::Sha256::digest` returns for these bytes.
pub uninterp spec fn sha256_digest(data: Seq<u8>) -> Seq<u8>;

/// The digit of the standard base64 alphabet for a six-bit value: `A`-`Z`, `a`-`z`, `0`-`9`,
/// `+`, `/`.
pub open spec fn base64_digit(v: int) -> char {
    if v < 26 {
        ('A' as int + v) as char
    } else if v < 52 {
        ('a' as int + (v - 26)) as char
    } else if v < 62 {
        ('0' as int + (v - 52)) as char
    } else if v == 62 {
        '+'
    } else {
        '/'
    }
}

/// Standard, padded base64 (RFC 4648, section 4): every three bytes, read as one 24-bit number,
/// become four digits of six bits each, most significant first; a last one or two bytes become
/// two or three digits, padded with `=` to four.
#[verifier::opaque]
pub open spec fn base64_standard_encode(data: Seq<u8>) -> Seq<char>
    decreases data.len(),
{
    if data.len() == 0 {
        Seq::empty()
    } else if data.len() == 1 {
        let n = data[0] * 65536;
        seq![base64_digit(n / 262144), base64_digit(n / 4096 % 64), '=', '=']
    } else if data.len() == 2 {
        let n = data[0] * 65536 + data[1] * 256;
        seq![base64_digit(n / 262144), base64_digit(n / 4096 % 64), base64_digit(n / 64 % 64), '=']
    } else {
        let n = data[0] * 65536 + data[1] * 256 + data[2];
        seq![
            base64_digit(n / 262144),
            base64_digit(n / 4096 % 64),
            base64_digit(n / 64 % 64),
            base64_digit(n % 64),
        ] + base64_standard_encode(data.subrange(3, data.len() as int))
    }
}

/// Standard, padded base64 decoding, as the crate's `STANDARD` engine does it: it accepts exactly
/// the canonical padded encodings (padding required, no stray bits in the last digit), so the
/// bytes decoded are the ones whose encoding the text is, and any other text is refused.
pub open spec fn base64_standard_decode(text: Seq<u8>) -> Option<Seq<u8>> {
    if exists|d: Seq<u8>| #[trigger] encode_utf8(base64_standard_encode(d)) == text {
        Some(choose|d: Seq<u8>| #[trigger] encode_utf8(base64_standard_encode(d)) == text)
    } else {
        None
    }
}

proof fn lemma_digit_injective(u: int, v: int)
    requires
        0 <= u < 64,
        0 <= v < 64,
    ensures
        base64_digit(u) != '=',
        base64_digit(u) == base64_digit(v) ==> u == v,
{
}

proof fn lemma_block_injective(b0: u8, b1: u8, b2: u8, c0: u8, c1: u8, c2: u8)
    ensures
        ({
            let n = b0 * 65536 + b1 * 256 + b2;
            let m = c0 * 65536 + c1 * 256 + c2;
            (n / 262144 == m / 262144 && n / 4096 % 64 == m / 4096 % 64 && n / 64 % 64 == m / 64
                % 64 && n % 64 == m % 64) ==> (b0 == c0 && b1 == c1 && b2 == c2)
        }),
{
    assert((b0 * 65536 + b1 * 256 + b2) / 262144 == (c0 * 65536 + c1 * 256 + c2) / 262144 && (b0
        * 65536 + b1 * 256 + b2) / 4096 % 64 == (c0 * 65536 + c1 * 256 + c2) / 4096 % 64 && (b0
        * 65536 + b1 * 256 + b2) / 64 % 64 == (c0 * 65536 + c1 * 256 + c2) / 64 % 64 && (b0
        * 65536 + b1 * 256 + b2) % 64 == (c0 * 65536 + c1 * 256 + c2) % 64 ==> b0 == c0 && b1 == c1
        && b2 == c2) by (bit_vector);
}

/// Whether `ed25519_dalek::VerifyingKey::from_bytes` accepts these 32 bytes as a point.
pub uninterp spec fn ed25519_point_decodes(key: Seq<u8>) -> bool;

/// Whether `ed25519_dalek::VerifyingKey::verify_strict` accepts `signature` over `message` for
/// the key encoded by `key`.
pub uninterp spec fn ed25519_strict_verifies(key: Seq<u8>, message: Seq<u8>, signature: Seq<u8>) -> bool;

/// The public key `ed25519_dalek::SigningKey::from_bytes(secret).verifying_key().to_bytes()`
/// derives from a 32-byte secret.
pub uninterp spec fn ed25519_public_from_secret(secret: Seq<u8>) -> Seq<u8>;

proof fn lemma_short_block_injective(b0: u8, b1: u8, c0: u8, c1: u8)
    ensures
        (b0 * 65536) / 262144 == (c0 * 65536) / 262144 && (b0 * 65536) / 4096 % 64 == (c0
            * 65536) / 4096 % 64 ==> b0 == c0,
        ({
            let n = b0 * 65536 + b1 * 256;
            let m = c0 * 65536 + c1 * 256;
            (n / 262144 == m / 262144 && n / 4096 % 64 == m / 4096 % 64 && n / 64 % 64 == m / 64
                % 64) ==> (b0 == c0 && b1 == c1)
        }),
{
    assert((b0 * 65536) / 262144 == (c0 * 65536) / 262144 && (b0 * 65536) / 4096 % 64 == (c0
        * 65536) / 4096 % 64 ==> b0 == c0) by (bit_vector);
    assert((b0 * 65536 + b1 * 256) / 262144 == (c0 * 65536 + c1 * 256) / 262144 && (b0 * 65536
        + b1 * 256) / 4096 % 64 == (c0 * 65536 + c1 * 256) / 4096 % 64 && (b0 * 65536 + b1 * 256)
        / 64 % 64 == (c0 * 65536 + c1 * 256) / 64 % 64 ==> b0 == c0 && b1 == c1) by (bit_vector);
}

/// The 24-bit number the first (up to) three bytes make, zero-filled on the right.
spec fn head_value(d: Seq<u8>) -> int {
    if d.len() >= 3 {
        d[0] * 65536 + d[1] * 256 + d[2]
    } else if d.len() == 2 {
        d[0] * 65536 + d[1] * 256
    } else {
        d[0] * 65536
    }
}

/// The first four characters of an encoding, and what follows them.
proof fn lemma_encode_head(d: Seq<u8>)
    ensures
        d.len() == 0 <==> base64_standard_encode(d).len() == 0,
        d.len() > 0 ==> ({
            let e = base64_standard_encode(d);
            let n = head_value(d);
            &&& e.len() >= 4
            &&& e[0] == base64_digit(n / 262144)
            &&& e[1] == base64_digit(n / 4096 % 64)
            &&& e[2] == if d.len() >= 2 { base64_digit(n / 64 % 64) } else { '=' }
            &&& e[3] == if d.len() >= 3 { base64_digit(n % 64) } else { '=' }
            &&& d.len() >= 3 ==> e.subrange(4, e.len() as int) == base64_standard_encode(
                d.subrange(3, d.len() as int),
            )
        }),
{
    reveal(base64_standard_encode);
    if d.len() >= 3 {
        let e = base64_standard_encode(d);
        let rest = base64_standard_encode(d.subrange(3, d.len() as int));
        assert(e.subrange(4, e.len() as int) =~= rest);
    }
}

/// Different bytes never share an encoding.
pub proof fn lemma_base64_encode_injective(a: Seq<u8>, b: Seq<u8>)
    requires
        base64_standard_encode(a) == base64_standard_encode(b),
    ensures
        a == b,
    decreases a.len(),
{
    lemma_encode_head(a);
    lemma_encode_head(b);
    if a.len() == 0 || b.len() == 0 {
        return;
    }
    let ea = base64_standard_encode(a);
    let na = head_value(a);
    let nb = head_value(b);
    lemma_digit_injective(na / 262144, nb / 262144);
    lemma_digit_injective(na / 4096 % 64, nb / 4096 % 64);
    lemma_digit_injective(na / 64 % 64, nb / 64 % 64);
    lemma_digit_injective(na % 64, nb % 64);
    if a.len() >= 3 {
        assert(b.len() >= 3);
        lemma_block_injective(a[0], a[1], a[2], b[0], b[1], b[2]);
        let ra = a.subrange(3, a.len() as int);
        let rb = b.subrange(3, b.len() as int);
        assert(base64_standard_encode(ra) == ea.subrange(4, ea.len() as int));
        lemma_base64_encode_injective(ra, rb);
        assert(a.len() == b.len()) by {
            assert(ra.len() == rb.len());
        }
        assert forall|i: int| 3 <= i < a.len() implies a[i] == b[i] by {
            assert(ra[i - 3] == rb[i - 3]);
        }
        assert(a =~= b);
    } else if a.len() == 2 {
        assert(b.len() == 2);
        lemma_short_block_injective(a[0], a[1], b[0], b[1]);
        assert(a =~= b);
    } else {
        assert(b.len() == 1);
        lemma_short_block_injective(a[0], 0, b[0], 0);
        assert(a =~= b);
    }
}

/// Decoding the UTF-8 bytes of an encoding gives back the bytes encoded.
pub proof fn lemma_base64_round_trip(data: Seq<u8>)
    ensures
        base64_standard_decode(encode_utf8(base64_standard_encode(data))) == Some(data),
{
    let text = encode_utf8(base64_standard_encode(data));
    assert(exists|d: Seq<u8>| #[trigger] encode_utf8(base64_standard_encode(d)) == text);
    let d = choose|d: Seq<u8>| #[trigger] encode_utf8(base64_standard_encode(d)) == text;
    vstd::utf8::encode_utf8_decode_utf8(base64_standard_encode(d));
    vstd::utf8::encode_utf8_decode_utf8(base64_standard_encode(data));
    lemma_base64_encode_injective(d, data);
}

/// SHA-256 of `data`. Calls `sha2::Sha256::digest`; the contract claims the digest is the named
/// function of the input and, as for every SHA-256, 32 bytes long.
#[verifier::external_body]
pub fn sha256(data: &[u8]) -> (r: Vec<u8>)
    ensures
        r@ == sha256_digest(data@),
        r@.len() == 32,
{
    sha2::Sha256::digest(data).to_vec()
}

/// Standard, padded base64. Calls `STANDARD.encode`, which panics only when the output length
/// overflows `usize`, hence the bound. The contract claims the text is the padded standard
/// encoding of the input, as [`base64_standard_encode`] spells it out; that decoding gives the
/// input back is [`lemma_base64_round_trip`].
#[verifier::external_body]
pub fn base64_encode(data: &[u8]) -> (r: String)
    requires
        data@.len() <= usize::MAX / 2,
    ensures
        r@ == base64_standard_encode(data@),
{
    base64::engine::general_purpose::STANDARD.encode(data)
}

/// Standard, padded base64 decoding of the UTF-8 bytes of `text`. Calls `STANDARD.decode`, whose
/// configuration requires canonical padding and refuses stray bits in the last digit; the
/// contract claims that it succeeds exactly on the canonical encodings, with the bytes encoded,
/// as [`base64_standard_decode`] states. On failure the crate's
/// `DecodeError` is handed back as the text it displays, of which nothing is claimed.
#[verifier::external_body]
pub fn base64_decode(text: &str) -> (r: Result<Vec<u8>, String>)
    ensures
        match r {
            Ok(v) => base64_standard_decode(encode_utf8(text@)) == Some(v@),
            Err(_) => base64_standard_decode(encode_utf8(text@)) is None,
        },
{
    base64::engine::general_purpose::STANDARD.decode(text).map_err(|e| e.to_string())
}

/// Whether 32 bytes are an Ed25519 public key. Calls `VerifyingKey::from_bytes` and reports
/// whether it succeeded.
#[verifier::external_body]
pub fn ed25519_key_is_valid(key: &[u8]) -> (r: bool)
    requires
        key@.len() == 32,
    ensures
        r == ed25519_point_decodes(key@),
{
    let bytes: [u8; 32] = key.try_into().unwrap();
    ed25519_dalek::VerifyingKey::from_bytes(&bytes).is_ok()
}

/// Strict Ed25519 verification. Calls `VerifyingKey::verify_strict` on the key decoded from
/// `key` (which `requires` says decodes) and the signature built from 64 bytes by
/// `Signature::from_bytes`; the contract claims the outcome is the named function of the three
/// byte strings.
#[verifier::external_body]
pub fn ed25519_verify_strict(key: &[u8], message: &[u8], signature: &[u8]) -> (r: bool)
    requires
        key@.len() == 32,
        signature@.len() == 64,
        ed25519_point_decodes(key@),
    ensures
        r == ed25519_strict_verifies(key@, message@, signature@),
{
    let key_bytes: [u8; 32] = key.try_into().unwrap();
    let signature_bytes: [u8; 64] = signature.try_into().unwrap();
    let verifying_key = ed25519_dalek::VerifyingKey::from_bytes(&key_bytes).unwrap();
    let signature = ed25519_dalek::Signature::from_bytes(&signature_bytes);
    verifying_key.verify_strict(message, &signature).is_ok()
}

/// The public key of a 32-byte Ed25519 secret. Calls `SigningKey::from_bytes` and reads back
/// `verifying_key().to_bytes()`; the contract claims the 32 bytes are the named function of the
/// secret.
#[verifier::external_body]
pub fn ed25519_public_key(secret: &[u8]) -> (r: Vec<u8>)
    requires
        secret@.len() == 32,
    ensures
        r@ == ed25519_public_from_secret(secret@),
        r@.len() == 32,
{
    let bytes: [u8; 32] = secret.try_into().unwrap();
    ed25519_dalek::SigningKey::from_bytes(&bytes).verifying_key().to_bytes().to_vec()
}

/// `n` bytes from the operating system's entropy source. Calls `getrandom::fill`; the contract
/// claims only the length of what comes back, since the bytes are chance, and that a failure of
/// the source is reported as an entropy error.
#[verifier::external_body]
pub fn random_bytes(n: usize) -> (r: Result<Vec<u8>, EngineError>)
    ensures
        r matches Ok(v) ==> v@.len() == n,
        r matches Err(e) ==> e is Entropy,
{
    let mut buf = vec![0u8; n];
    match getrandom::fill(&mut buf) {
        Ok(()) => Ok(buf),
        Err(e) => Err(EngineError::Entropy(e.to_string())),
    }
}

/// Seconds since the Unix epoch, or 0 if the clock reads earlier. Calls `SystemTime::now`;
/// nothing is claimed of a clock reading.
#[verifier::external_body]
pub fn unix_now() -> i64 {
    std::time::SystemTime::now().duration_since(std::time::UNIX_EPOCH).map(|d| d.as_secs() as i64).unwrap_or(0)
}

/// Milliseconds since the Unix epoch, or 0 if the clock reads earlier. Calls `SystemTime::now`;
/// nothing is claimed of a clock reading.
#[verifier::external_body]
pub fn unix_now_millis() -> i64 {
    std::time::SystemTime::now().duration_since(std::time::UNIX_EPOCH).map(|d| d.as_millis() as i64).unwrap_or(0)
}

#[verifier::external_type_specification]
#[verifier::external_body]
pub struct ExInstant(std::time::Instant);

/// A reading of the monotonic clock. Calls `Instant::now`; nothing is claimed of it.
#[verifier::external_body]
pub fn monotonic_now() -> std::time::Instant {
    std::time::Instant::now()
}

/// Whole seconds passed since `start`, by the monotonic clock. Calls `Instant::elapsed` and
/// reads `as_secs`; nothing is claimed, since the answer depends on when it is asked.
#[verifier::external_body]
pub fn elapsed_seconds(start: &std::time::Instant) -> u64 {
    start.elapsed().as_secs()
}

} // verus!
