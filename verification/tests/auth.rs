use interaction_gateway::crypto::verify_signature;
use interaction_gateway::error::GatewayError;
use interaction_gateway::identity::{
    is_whitelabel, key_resolution, token_resolution, whitelabel_key_from_lookup,
    whitelabel_token_from_lookup, GatewayConfig, KeyLookup, KeyResolution, TokenLookup,
    TokenResolution,
};
use interaction_gateway::snowflake::Snowflake;

// An RFC 8032 Ed25519 test vector: the two-byte message is split so that
// its first byte plays the timestamp and its second byte the body.
const VECTOR_PK_HEX: &str = "fc51cd8e6218a1a38da47ed00230f0580816ed13ba3303ac5deb911548908025";
const VECTOR_SIG_HEX: &str = "6291d657deec24024827e69c3abe01a30ce548a284743a445e3680d7db5ac3ac18ff9b538d16f290ae67f760984dc6594a7c15e9716ed28dc027beceea1ec40a";
const VECTOR_TIMESTAMP: [u8; 1] = [0xaf];
const VECTOR_BODY: [u8; 1] = [0x82];

fn vector_key() -> Vec<u8> {
    hex::decode(VECTOR_PK_HEX).unwrap()
}

fn vector_sig() -> Vec<u8> {
    hex::decode(VECTOR_SIG_HEX).unwrap()
}

fn config() -> GatewayConfig {
    GatewayConfig {
        public_tenant_id: Snowflake(100),
        public_key: vector_key(),
        public_token: b"public-token".to_vec(),
    }
}

#[test]
fn valid_signature_verifies() {
    let r = verify_signature(&vector_key(), &VECTOR_TIMESTAMP, &VECTOR_BODY, &vector_sig());
    assert!(r.is_ok());
}

#[test]
fn bit_flip_in_timestamp_fails() {
    let ts = [VECTOR_TIMESTAMP[0] ^ 0x01];
    let r = verify_signature(&vector_key(), &ts, &VECTOR_BODY, &vector_sig());
    assert!(matches!(r, Err(GatewayError::InvalidSignature)));
}

#[test]
fn bit_flip_in_body_fails() {
    let body = [VECTOR_BODY[0] ^ 0x80];
    let r = verify_signature(&vector_key(), &VECTOR_TIMESTAMP, &body, &vector_sig());
    assert!(matches!(r, Err(GatewayError::InvalidSignature)));
}

#[test]
fn bit_flip_in_signature_fails() {
    let mut sig = vector_sig();
    sig[3] ^= 0x10;
    let r = verify_signature(&vector_key(), &VECTOR_TIMESTAMP, &VECTOR_BODY, &sig);
    assert!(matches!(r, Err(GatewayError::InvalidSignature)));
}

#[test]
fn swapped_timestamp_and_body_fail() {
    // The message is the timestamp then the body, with no delimiter; the
    // reverse order must not verify.
    let r = verify_signature(&vector_key(), &VECTOR_BODY, &VECTOR_TIMESTAMP, &vector_sig());
    assert!(matches!(r, Err(GatewayError::InvalidSignature)));
}

#[test]
fn wrong_length_key_or_signature_fails() {
    let r = verify_signature(&vector_key()[..31], &VECTOR_TIMESTAMP, &VECTOR_BODY, &vector_sig());
    assert!(r.is_err());
    let r = verify_signature(&vector_key(), &VECTOR_TIMESTAMP, &VECTOR_BODY, &vector_sig()[..63]);
    assert!(r.is_err());
}

#[test]
fn duplicate_deliveries_verify_independently() {
    // No state is kept between calls: the same signed payload passes as
    // often as it is delivered.
    for _ in 0..3 {
        let r = verify_signature(&vector_key(), &VECTOR_TIMESTAMP, &VECTOR_BODY, &vector_sig());
        assert!(r.is_ok());
    }
}

#[test]
fn public_tenant_resolves_from_configuration() {
    let cfg = config();
    match key_resolution(&cfg, Snowflake(100)) {
        KeyResolution::Configured(k) => assert_eq!(k, vector_key()),
        KeyResolution::Lookup => panic!("public tenant must not need a lookup"),
    }
    match token_resolution(&cfg, Snowflake(100)) {
        TokenResolution::Configured(t) => assert_eq!(t, b"public-token".to_vec()),
        TokenResolution::Lookup => panic!("public tenant must not need a lookup"),
    }
    assert!(!is_whitelabel(&cfg, Snowflake(100)));
}

#[test]
fn public_credential_is_the_configured_one() {
    let cfg = config();
    let cred = interaction_gateway::identity::public_credential(&cfg);
    assert_eq!(cred.public_key, vector_key());
    assert_eq!(cred.token, b"public-token".to_vec());
}

#[test]
fn other_tenants_need_a_lookup() {
    let cfg = config();
    assert!(matches!(key_resolution(&cfg, Snowflake(7)), KeyResolution::Lookup));
    assert!(matches!(token_resolution(&cfg, Snowflake(7)), TokenResolution::Lookup));
    assert!(is_whitelabel(&cfg, Snowflake(7)));
}

#[test]
fn missing_tenant_is_not_found() {
    let r = whitelabel_key_from_lookup(KeyLookup::Missing);
    assert!(matches!(r, Err(GatewayError::TenantNotFound)));
    let r = whitelabel_token_from_lookup(TokenLookup::Missing);
    assert!(matches!(r, Err(GatewayError::TenantNotFound)));
}

#[test]
fn store_fault_carries_its_cause() {
    let r = whitelabel_key_from_lookup(KeyLookup::Unavailable("timeout".to_string()));
    match r {
        Err(GatewayError::BackingStoreError(m)) => assert_eq!(m, "timeout"),
        other => panic!("expected a backing store error, got {:?}", other),
    }
}

#[test]
fn stored_hex_key_decodes() {
    let r = whitelabel_key_from_lookup(KeyLookup::Found(VECTOR_PK_HEX.to_string()));
    assert_eq!(r.unwrap(), vector_key());
}

#[test]
fn stored_key_with_bad_hex_is_rejected() {
    // 64 characters, one of them not a hex digit.
    let mut s = VECTOR_PK_HEX.to_string();
    s.replace_range(10..11, "g");
    let r = whitelabel_key_from_lookup(KeyLookup::Found(s));
    assert!(matches!(r, Err(GatewayError::InvalidKeyFormat)));
}

#[test]
fn stored_key_with_wrong_length_is_rejected() {
    let r = whitelabel_key_from_lookup(KeyLookup::Found(VECTOR_PK_HEX[..62].to_string()));
    assert!(matches!(r, Err(GatewayError::InvalidKeyFormat)));
    let mut long = VECTOR_PK_HEX.to_string();
    long.push_str("ab");
    let r = whitelabel_key_from_lookup(KeyLookup::Found(long));
    assert!(matches!(r, Err(GatewayError::InvalidKeyFormat)));
}

#[test]
fn resolved_key_verifies_signatures() {
    let key = whitelabel_key_from_lookup(KeyLookup::Found(VECTOR_PK_HEX.to_string())).unwrap();
    let r = verify_signature(&key, &VECTOR_TIMESTAMP, &VECTOR_BODY, &vector_sig());
    assert!(r.is_ok());
}

#[test]
fn found_token_is_returned_unchanged() {
    let r = whitelabel_token_from_lookup(TokenLookup::Found(b"wl-token".to_vec()));
    assert_eq!(r.unwrap(), b"wl-token".to_vec());
}

#[test]
fn error_status_classes() {
    assert_eq!(GatewayError::InvalidSignature.http_status(), 401);
    assert_eq!(GatewayError::InvalidKeyFormat.http_status(), 401);
    assert_eq!(GatewayError::TenantNotFound.http_status(), 404);
    assert_eq!(GatewayError::BackingStoreError("x".to_string()).http_status(), 503);
    assert_eq!(GatewayError::MalformedPayload.http_status(), 400);
    assert_eq!(GatewayError::TenantMismatch.http_status(), 400);
    assert_eq!(GatewayError::UnsupportedInteractionType.http_status(), 400);
    assert_eq!(GatewayError::EncodingError.http_status(), 400);
    assert_eq!(GatewayError::ForwardingError("x".to_string()).http_status(), 502);
}

#[test]
fn only_transport_and_store_faults_are_transient() {
    assert!(GatewayError::ForwardingError("x".to_string()).is_transient());
    assert!(GatewayError::BackingStoreError("x".to_string()).is_transient());
    assert!(!GatewayError::InvalidSignature.is_transient());
    assert!(!GatewayError::TenantNotFound.is_transient());
    assert!(!GatewayError::MalformedPayload.is_transient());
}
