//! The exact byte layouts that get signed. Both sides of the protocol must build byte-identical
//! buffers, so these are plain concatenations with no separators and no terminator.
use vstd::prelude::*;
use vstd::utf8::encode_utf8;

verus! {

/// Domain separator for the session challenge. 18 ASCII bytes.
pub const SESSION_DOMAIN: &'static str = "muxdeck-session-v1";

/// Domain separator for the pairing proof of possession. 15 ASCII bytes.
pub const PAIR_DOMAIN: &'static str = "muxdeck-pair-v1";

/// Expected length of a nonce, in bytes.
pub const NONCE_LEN: usize = 32;

/// Expected length of an Ed25519 public key, in bytes.
pub const PUBKEY_LEN: usize = 32;

/// Expected length of an Ed25519 signature, in bytes.
pub const SIGNATURE_LEN: usize = 64;

/// Appends every byte of `s`.
pub fn append_bytes(v: &mut Vec<u8>, s: &[u8])
    ensures
        final(v)@ == old(v)@ + s@,
{
    let ghost start = v@;
    let mut i: usize = 0;
    while i < s.len()
        invariant
            i <= s@.len(),
            v@ == start + s@.take(i as int),
        decreases s@.len() - i,
    {
        v.push(s[i]);
        assert(s@.take(i + 1) =~= s@.take(i as int).push(s@[i as int]));
        i = i + 1;
    }
    assert(s@.take(s@.len() as int) =~= s@);
}

/// The session-challenge buffer.
pub open spec fn session_auth_layout(nonce: Seq<u8>, device_id: Seq<char>, host_id: Seq<char>) -> Seq<
    u8,
> {
    encode_utf8(SESSION_DOMAIN@) + nonce + encode_utf8(device_id) + encode_utf8(host_id)
}

/// The pairing-proof buffer.
pub open spec fn pair_proof_layout(code: Seq<char>, device_pubkey: Seq<u8>) -> Seq<u8> {
    encode_utf8(PAIR_DOMAIN@) + encode_utf8(code) + device_pubkey
}

/// The buffer a device signs to answer a challenge:
/// `b"muxdeck-session-v1" || nonce || device_id (UTF-8) || host_id (UTF-8)`.
pub fn session_auth_message(nonce: &[u8], device_id: &str, host_id: &str) -> (r: Vec<u8>)
    ensures
        r@ == session_auth_layout(nonce@, device_id@, host_id@),
{
    let mut buf: Vec<u8> = Vec::new();
    append_bytes(&mut buf, SESSION_DOMAIN.as_bytes());
    append_bytes(&mut buf, nonce);
    append_bytes(&mut buf, device_id.as_bytes());
    append_bytes(&mut buf, host_id.as_bytes());
    buf
}

/// The buffer a device signs to prove it holds the key it registers:
/// `b"muxdeck-pair-v1" || code (UTF-8) || device_pubkey`.
pub fn pair_proof_message(code: &str, device_pubkey: &[u8]) -> (r: Vec<u8>)
    ensures
        r@ == pair_proof_layout(code@, device_pubkey@),
{
    let mut buf: Vec<u8> = Vec::new();
    append_bytes(&mut buf, PAIR_DOMAIN.as_bytes());
    append_bytes(&mut buf, code.as_bytes());
    append_bytes(&mut buf, device_pubkey);
    buf
}

/// The domain separator's UTF-8 bytes, byte for byte.
proof fn lemma_domain_bytes()
    ensures
        encode_utf8(PAIR_DOMAIN@) == seq![109u8, 117, 120, 100, 101, 99, 107, 45, 112, 97, 105, 114, 45, 118, 49],
        encode_utf8(SESSION_DOMAIN@) == seq![109u8, 117, 120, 100, 101, 99, 107, 45, 115, 101, 115, 115, 105, 111, 110, 45, 118, 49],
{
    reveal_strlit("muxdeck-pair-v1");
    reveal_strlit("muxdeck-session-v1");
    let p = PAIR_DOMAIN@;
    let q = SESSION_DOMAIN@;
    assert(vstd::utf8::is_ascii_chars(p));
    assert(vstd::utf8::is_ascii_chars(q));
    vstd::utf8::is_ascii_chars_encode_utf8(p);
    vstd::utf8::is_ascii_chars_encode_utf8(q);
    assert(encode_utf8(p) =~= seq![109u8, 117, 120, 100, 101, 99, 107, 45, 112, 97, 105, 114, 45, 118, 49]);
    assert(encode_utf8(q) =~= seq![109u8, 117, 120, 100, 101, 99, 107, 45, 115, 101, 115, 115, 105, 111, 110, 45, 118, 49]);
}

/// What a device signs to pair, byte for byte: the 15 bytes `muxdeck-pair-v1`, then the code's
/// UTF-8 bytes, then the public key exactly as sent, and nothing else.
pub proof fn law_pair_proof_layout(code: Seq<char>, device_pubkey: Seq<u8>)
    ensures
        ({
            let m = pair_proof_layout(code, device_pubkey);
            let c = encode_utf8(code);
            &&& m.len() == 15 + (c.len() as int) + device_pubkey.len()
            &&& m.take(15) == seq![109u8, 117, 120, 100, 101, 99, 107, 45, 112, 97, 105, 114, 45, 118, 49]
            &&& m.subrange(15, 15 + (c.len() as int)) == c
            &&& m.skip(15 + (c.len() as int)) == device_pubkey
        }),
{
    lemma_domain_bytes();
    let m = pair_proof_layout(code, device_pubkey);
    let c = encode_utf8(code);
    assert(m.take(15) =~= encode_utf8(PAIR_DOMAIN@));
    assert(m.subrange(15, 15 + (c.len() as int)) =~= c);
    assert(m.skip(15 + (c.len() as int)) =~= device_pubkey);
}

/// What a device signs to answer a challenge, byte for byte: the 18 bytes
/// `muxdeck-session-v1`, then the nonce exactly as drawn, then the device ID's UTF-8 bytes,
/// then the host ID's, and nothing else.
pub proof fn law_session_auth_layout(nonce: Seq<u8>, device_id: Seq<char>, host_id: Seq<char>)
    ensures
        ({
            let m = session_auth_layout(nonce, device_id, host_id);
            let d = encode_utf8(device_id);
            let h = encode_utf8(host_id);
            &&& m.len() == 18 + (nonce.len() as int) + (d.len() as int) + (h.len() as int)
            &&& m.take(18) == seq![109u8, 117, 120, 100, 101, 99, 107, 45, 115, 101, 115, 115, 105, 111, 110, 45, 118, 49]
            &&& m.subrange(18, 18 + (nonce.len() as int)) == nonce
            &&& m.subrange(18 + (nonce.len() as int), 18 + (nonce.len() as int) + (d.len() as int)) == d
            &&& m.skip(18 + (nonce.len() as int) + (d.len() as int)) == h
        }),
{
    lemma_domain_bytes();
    let m = session_auth_layout(nonce, device_id, host_id);
    let d = encode_utf8(device_id);
    let h = encode_utf8(host_id);
    assert(m.take(18) =~= encode_utf8(SESSION_DOMAIN@));
    assert(m.subrange(18, 18 + (nonce.len() as int)) =~= nonce);
    assert(m.subrange(18 + (nonce.len() as int), 18 + (nonce.len() as int) + (d.len() as int)) =~= d);
    assert(m.skip(18 + (nonce.len() as int) + (d.len() as int)) =~= h);
}

} // verus!
