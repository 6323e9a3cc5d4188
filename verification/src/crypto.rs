//! Signature verification and key decoding.
//!
//! The cryptography itself is done by the `ed25519_dalek` crate; this module
//! states its behaviour as deterministic functions of the raw bytes, decodes
//! stored hex key material, and proves that verification runs over exactly
//! the timestamp bytes followed by the body bytes, with no delimiter.

use vstd::prelude::*;
use ed25519_dalek::Verifier;
use crate::bytes::push_bytes;
use crate::error::GatewayError;

verus! {

/// Whether 32 bytes are the encoding of a valid Ed25519 public key.
/// Determined by the bytes alone.
pub uninterp spec fn ed25519_key_valid(key: Seq<u8>) -> bool;

/// Whether the signature verifies over the message under the key.
/// Determined by the three byte strings alone; any malformed key or
/// signature yields `false`.
pub uninterp spec fn ed25519_verify_ok(key: Seq<u8>, msg: Seq<u8>, sig: Seq<u8>) -> bool;

/// Relies on `ed25519_dalek::PublicKey::from_bytes`: it succeeds exactly on
/// a 32-byte string that decompresses to a curve point, a deterministic
/// check of the bytes alone.
#[verifier::external_body]
pub(crate) fn ed25519_key_check(key: &[u8]) -> (r: bool)
    ensures
        r == (key@.len() == 32 && ed25519_key_valid(key@)),
{
    ed25519_dalek::PublicKey::from_bytes(key).is_ok()
}

/// Relies on `ed25519_dalek`'s `Verifier::verify` for `PublicKey` (with
/// `PublicKey::from_bytes` and `Signature::try_from` converting the raw
/// arguments): a deterministic function of the key, message and signature
/// bytes, which fails on any key that is not 32 bytes or signature that is
/// not 64 bytes.
#[verifier::external_body]
fn ed25519_verify_raw(key: &[u8], msg: &[u8], sig: &[u8]) -> (r: bool)
    ensures
        r == ed25519_verify_ok(key@, msg@, sig@),
        key@.len() != 32 ==> !r,
        sig@.len() != 64 ==> !r,
{
    let pk = match ed25519_dalek::PublicKey::from_bytes(key) {
        Ok(pk) => pk,
        Err(_) => return false,
    };
    let parsed = match ed25519_dalek::Signature::try_from(sig) {
        Ok(s) => s,
        Err(_) => return false,
    };
    pk.verify(msg, &parsed).is_ok()
}

/// An ASCII hex digit, either case.
pub open spec fn is_hex_digit(c: char) -> bool {
    ('0' <= c && c <= '9') || ('a' <= c && c <= 'f') || ('A' <= c && c <= 'F')
}

/// The value of one hex digit.
pub open spec fn hex_digit_value(c: char) -> u8 {
    if '0' <= c && c <= '9' {
        ((c as int) - 48) as u8
    } else if 'a' <= c && c <= 'f' {
        ((c as int) - 87) as u8
    } else if 'A' <= c && c <= 'F' {
        ((c as int) - 55) as u8
    } else {
        0
    }
}

/// The bytes encoded by a hex string, two digits per byte, high digit first.
pub open spec fn spec_hex_bytes(s: Seq<char>) -> Seq<u8> {
    Seq::new(s.len() / 2, |i: int| (16 * hex_digit_value(s[2 * i]) + hex_digit_value(
        s[2 * i + 1],
    )) as u8)
}

/// Relies on `hex::decode_to_slice` into a 32-byte buffer: it succeeds
/// exactly when the input is 64 hex digits, and then writes the byte each
/// digit pair encodes, high digit first.
#[verifier::external_body]
pub(crate) fn hex_decode_key(s: &str) -> (r: Option<Vec<u8>>)
    ensures
        r is Some <==> (s@.len() == 64 && forall|i: int|
            0 <= i < s@.len() ==> is_hex_digit(#[trigger] s@[i])),
        r matches Some(k) ==> k@ == spec_hex_bytes(s@),
{
    let mut buf = [0u8; 32];
    match hex::decode_to_slice(s, &mut buf) {
        Ok(()) => Some(buf.to_vec()),
        Err(_) => None,
    }
}

/// Verifies `signature` over the concatenation of the raw timestamp bytes
/// followed by the raw body bytes, in that order and with no delimiter.
/// All failures collapse to the single `InvalidSignature` outcome.
pub fn verify_signature(key: &[u8], timestamp: &[u8], body: &[u8], signature: &[u8]) -> (r:
    Result<(), GatewayError>)
    ensures
        r is Ok <==> ed25519_verify_ok(key@, timestamp@ + body@, signature@),
        r matches Err(e) ==> e is InvalidSignature,
{
    let mut message: Vec<u8> = Vec::new();
    push_bytes(&mut message, timestamp);
    push_bytes(&mut message, body);
    proof {
        assert(message@ =~= timestamp@ + body@);
    }
    if ed25519_verify_raw(key, message.as_slice(), signature) {
        Ok(())
    } else {
        Err(GatewayError::InvalidSignature)
    }
}

/// Verification reads nothing but the key, the two message parts and the
/// signature: two deliveries that agree on those four byte strings verify
/// or fail together, however often and however concurrently they arrive.
pub proof fn lemma_verification_deterministic(
    key1: Seq<u8>,
    ts1: Seq<u8>,
    body1: Seq<u8>,
    sig1: Seq<u8>,
    key2: Seq<u8>,
    ts2: Seq<u8>,
    body2: Seq<u8>,
    sig2: Seq<u8>,
)
    requires
        key1 == key2,
        ts1 == ts2,
        body1 == body2,
        sig1 == sig2,
    ensures
        ed25519_verify_ok(key1, ts1 + body1, sig1) == ed25519_verify_ok(key2, ts2 + body2, sig2),
{
}

} // verus!
