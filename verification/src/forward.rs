//! The forwarding envelope.
//!
//! A forwarded payload travels downstream as one JSON object carrying the
//! tenant's bearer token, the tenant id, whether the tenant is whitelabel,
//! the interaction discriminant, and the original body embedded verbatim as
//! a nested JSON value — never re-parsed or re-shaped, so every field the
//! gateway does not understand survives byte-for-byte. The body must be
//! UTF-8 text and a single well-formed JSON document; this module checks
//! both and builds the envelope's exact bytes.

use vstd::prelude::*;
use vstd::string::StringSliceAdditionalSpecFns;
use crate::bytes::{push_bytes, push_str_bytes};
use crate::error::GatewayError;
use crate::interaction::InteractionType;
use crate::snowflake::{Snowflake, dec_of, push_dec};

verus! {

/// Well-formed UTF-8: some character sequence encodes to exactly these
/// bytes.
pub open spec fn utf8_valid(b: Seq<u8>) -> bool {
    exists|s: Seq<char>| vstd::utf8::encode_utf8(s) == b
}

/// Relies on `std::str::from_utf8`: it succeeds exactly on well-formed
/// UTF-8 bytes.
#[verifier::external_body]
fn utf8_check(b: &[u8]) -> (r: bool)
    ensures
        r == utf8_valid(b@),
{
    std::str::from_utf8(b).is_ok()
}

/// Whether the bytes are one well-formed JSON document, as serde_json's
/// parser accepts it (including its nesting limit). Determined by the bytes
/// alone.
pub uninterp spec fn json_parses(b: Seq<u8>) -> bool;

/// Relies on `serde_json::from_slice` for `serde_json::Value`: a
/// deterministic check that the bytes form a single well-formed JSON
/// document.
#[verifier::external_body]
fn json_check(b: &[u8]) -> (r: bool)
    ensures
        r == json_parses(b@),
{
    serde_json::from_slice::<serde_json::Value>(b).is_ok()
}

/// The lower-case hex digit for a value below 16.
pub open spec fn hex_lower(n: u8) -> u8 {
    if n < 10 {
        (48 + n) as u8
    } else {
        (87 + n) as u8
    }
}

/// How one byte of a token appears inside a JSON string: quote and
/// backslash are escaped, control bytes become a `\u00..` escape, and every
/// other byte is kept as it is.
pub open spec fn esc_byte(b: u8) -> Seq<u8> {
    if b == 34 {
        seq![92u8, 34u8]
    } else if b == 92 {
        seq![92u8, 92u8]
    } else if b < 32 {
        seq![92u8, 117u8, 48u8, 48u8, hex_lower(b / 16), hex_lower(b % 16)]
    } else {
        seq![b]
    }
}

/// The JSON string escaping of a byte string.
pub open spec fn json_escaped(s: Seq<u8>) -> Seq<u8>
    decreases s.len(),
{
    if s.len() == 0 {
        Seq::empty()
    } else {
        json_escaped(s.drop_last()) + esc_byte(s.last())
    }
}

/// Appends the JSON string escaping of `s` to `out`.
fn push_escaped(out: &mut Vec<u8>, s: &[u8])
    ensures
        final(out)@ == old(out)@ + json_escaped(s@),
{
    let mut i: usize = 0;
    while i < s.len()
        invariant
            i <= s@.len(),
            out@ == old(out)@ + json_escaped(s@.take(i as int)),
        decreases s@.len() - i,
    {
        let b = s[i];
        if b == 34 {
            out.push(92);
            out.push(34);
        } else if b == 92 {
            out.push(92);
            out.push(92);
        } else if b < 32 {
            out.push(92);
            out.push(117);
            out.push(48);
            out.push(48);
            let hi = b / 16;
            let lo = b % 16;
            out.push(if hi < 10 { 48 + hi } else { 87 + hi });
            out.push(if lo < 10 { 48 + lo } else { 87 + lo });
        } else {
            out.push(b);
        }
        i = i + 1;
        proof {
            assert(s@.take(i as int).drop_last() =~= s@.take(i - 1));
            assert(s@.take(i as int).last() == s@[i - 1]);
            assert(out@ =~= old(out)@ + json_escaped(s@.take(i as int)));
        }
    }
    proof {
        assert(s@.take(s@.len() as int) =~= s@);
        assert(out@ =~= old(out)@ + json_escaped(s@));
    }
}

/// The forwarder's first step: the body must be UTF-8 text, or the payload
/// cannot be forwarded as JSON and the request fails with `EncodingError`.
pub fn validate_body_text(body: &[u8]) -> (r: Result<(), GatewayError>)
    ensures
        r is Ok <==> utf8_valid(body@),
        r matches Err(e) ==> e is EncodingError,
{
    if utf8_check(body) {
        Ok(())
    } else {
        Err(GatewayError::EncodingError)
    }
}

/// Everything in the envelope before the embedded body. Independent of the
/// body.
pub open spec fn envelope_head(
    token: Seq<u8>,
    bot_id: u64,
    is_whitelabel: bool,
    ty: InteractionType,
) -> Seq<u8> {
    "{\"bot_token\":\"".spec_bytes() + json_escaped(token) + "\",\"bot_id\":".spec_bytes()
        + dec_of(bot_id as nat) + ",\"is_whitelabel\":".spec_bytes() + (if is_whitelabel {
        "true".spec_bytes()
    } else {
        "false".spec_bytes()
    }) + ",\"interaction_type\":".spec_bytes() + dec_of(ty.wire_value() as nat)
        + ",\"data\":".spec_bytes()
}

/// The whole envelope: the head, the original body verbatim, the closing
/// brace.
pub open spec fn envelope_bytes(
    token: Seq<u8>,
    bot_id: u64,
    is_whitelabel: bool,
    ty: InteractionType,
    body: Seq<u8>,
) -> Seq<u8> {
    envelope_head(token, bot_id, is_whitelabel, ty) + body + "}".spec_bytes()
}

/// The envelope embeds the original body byte-for-byte: right after the
/// head, and up to the final closing brace, the envelope's bytes are the
/// body unchanged.
pub proof fn lemma_envelope_embeds_body(
    token: Seq<u8>,
    bot_id: u64,
    is_whitelabel: bool,
    ty: InteractionType,
    body: Seq<u8>,
)
    ensures
        envelope_bytes(token, bot_id, is_whitelabel, ty, body).subrange(
            envelope_head(token, bot_id, is_whitelabel, ty).len() as int,
            envelope_head(token, bot_id, is_whitelabel, ty).len() + body.len() as int,
        ) == body,
{
    assert(envelope_bytes(token, bot_id, is_whitelabel, ty, body).subrange(
        envelope_head(token, bot_id, is_whitelabel, ty).len() as int,
        envelope_head(token, bot_id, is_whitelabel, ty).len() + body.len() as int,
    ) =~= body);
}

/// Builds the forwarding envelope around the untouched body. The body must
/// be UTF-8 (else `EncodingError`) and one well-formed JSON document (else
/// `MalformedPayload`); the result is then exactly the envelope bytes.
pub fn build_envelope(
    token: &[u8],
    bot_id: Snowflake,
    is_whitelabel: bool,
    interaction_type: InteractionType,
    body: &[u8],
) -> (r: Result<Vec<u8>, GatewayError>)
    ensures
        !utf8_valid(body@) ==> (r matches Err(e) && e is EncodingError),
        utf8_valid(body@) && !json_parses(body@) ==> (r matches Err(e) && e is MalformedPayload),
        utf8_valid(body@) && json_parses(body@) ==> (r matches Ok(env) && env@ == envelope_bytes(
            token@,
            bot_id.0,
            is_whitelabel,
            interaction_type,
            body@,
        )),
{
    if !utf8_check(body) {
        return Err(GatewayError::EncodingError);
    }
    if !json_check(body) {
        return Err(GatewayError::MalformedPayload);
    }
    let mut out: Vec<u8> = Vec::new();
    push_str_bytes(&mut out, "{\"bot_token\":\"");
    push_escaped(&mut out, token);
    push_str_bytes(&mut out, "\",\"bot_id\":");
    push_dec(bot_id.0, &mut out);
    push_str_bytes(&mut out, ",\"is_whitelabel\":");
    if is_whitelabel {
        push_str_bytes(&mut out, "true");
    } else {
        push_str_bytes(&mut out, "false");
    }
    push_str_bytes(&mut out, ",\"interaction_type\":");
    push_dec(interaction_type.to_value() as u64, &mut out);
    push_str_bytes(&mut out, ",\"data\":");
    push_bytes(&mut out, body);
    push_str_bytes(&mut out, "}");
    proof {
        assert(out@ =~= envelope_bytes(token@, bot_id.0, is_whitelabel, interaction_type, body@));
    }
    Ok(out)
}

} // verus!
