//! Per-tenant credential resolution.
//!
//! Exactly one tenant — the public tenant — is configured at startup and
//! resolved with no lookup at all; every other tenant is a whitelabel tenant
//! whose key and token come from a backing store. The store is reached by
//! the surrounding process: `key_resolution` / `token_resolution` say
//! whether a lookup is needed, and the `..._from_lookup` functions turn the
//! store's answer into a credential or the exact error the answer calls for.
//! Nothing is cached: every call for a whitelabel tenant takes a fresh
//! lookup.

use vstd::prelude::*;
use crate::crypto::{ed25519_key_check, ed25519_key_valid, hex_decode_key, is_hex_digit,
    spec_hex_bytes};
use crate::error::GatewayError;
use crate::snowflake::Snowflake;

verus! {

/// A tenant's key material and bearer token, reconstructed per call and
/// never persisted by the gateway.
pub struct Credential {
    /// The tenant's Ed25519 public key, exactly 32 bytes.
    pub public_key: Vec<u8>,
    /// The opaque bearer token used to act as the tenant.
    pub token: Vec<u8>,
}

impl Credential {
    /// A usable credential: the key has the fixed length and decodes to a
    /// valid Ed25519 public key.
    pub open spec fn wf(&self) -> bool {
        self.public_key@.len() == 32 && ed25519_key_valid(self.public_key@)
    }
}

/// The static configuration: the single public tenant and its credential.
pub struct GatewayConfig {
    pub public_tenant_id: Snowflake,
    pub public_key: Vec<u8>,
    pub public_token: Vec<u8>,
}

impl GatewayConfig {
    /// The configured key is usable.
    pub open spec fn wf(&self) -> bool {
        self.public_key@.len() == 32 && ed25519_key_valid(self.public_key@)
    }
}

/// The whitelabel store's answer to a public-key lookup, handed in by the
/// surrounding process: the stored hex string, a miss, or a store fault.
pub enum KeyLookup {
    Found(String),
    Missing,
    Unavailable(String),
}

/// The whitelabel store's answer to a bearer-token lookup.
pub enum TokenLookup {
    Found(Vec<u8>),
    Missing,
    Unavailable(String),
}

/// Where a tenant's public key comes from.
pub enum KeyResolution {
    /// The public tenant: the configured key, no lookup, no I/O.
    Configured(Vec<u8>),
    /// A whitelabel tenant: the store must be asked.
    Lookup,
}

/// Where a tenant's bearer token comes from.
pub enum TokenResolution {
    Configured(Vec<u8>),
    Lookup,
}

/// The public tenant's full credential, from configuration alone: no
/// lookup, no I/O, the same statically configured value on every call.
pub fn public_credential(cfg: &GatewayConfig) -> (r: Credential)
    ensures
        r.public_key@ == cfg.public_key@,
        r.token@ == cfg.public_token@,
        cfg.wf() ==> r.wf(),
{
    Credential { public_key: cfg.public_key.clone(), token: cfg.public_token.clone() }
}

/// A tenant is whitelabel exactly when it is not the configured public
/// tenant.
pub fn is_whitelabel(cfg: &GatewayConfig, tenant: Snowflake) -> (r: bool)
    ensures
        r == (tenant.0 != cfg.public_tenant_id.0),
{
    tenant.0 != cfg.public_tenant_id.0
}

/// For the public tenant the key is the configured one, returned with no
/// lookup; for any other tenant the store must be consulted.
pub fn key_resolution(cfg: &GatewayConfig, tenant: Snowflake) -> (r: KeyResolution)
    ensures
        tenant.0 == cfg.public_tenant_id.0 ==> (r matches KeyResolution::Configured(k) && k@
            == cfg.public_key@),
        tenant.0 != cfg.public_tenant_id.0 ==> r is Lookup,
{
    if tenant.0 == cfg.public_tenant_id.0 {
        KeyResolution::Configured(cfg.public_key.clone())
    } else {
        KeyResolution::Lookup
    }
}

/// For the public tenant the token is the configured one, returned with no
/// lookup; for any other tenant the store must be consulted.
pub fn token_resolution(cfg: &GatewayConfig, tenant: Snowflake) -> (r: TokenResolution)
    ensures
        tenant.0 == cfg.public_tenant_id.0 ==> (r matches TokenResolution::Configured(t) && t@
            == cfg.public_token@),
        tenant.0 != cfg.public_tenant_id.0 ==> r is Lookup,
{
    if tenant.0 == cfg.public_tenant_id.0 {
        TokenResolution::Configured(cfg.public_token.clone())
    } else {
        TokenResolution::Lookup
    }
}

/// A stored key that can be used: 64 hex digits that decode to a valid
/// Ed25519 public key.
pub open spec fn stored_key_ok(h: Seq<char>) -> bool {
    &&& h.len() == 64
    &&& forall|i: int| 0 <= i < h.len() ==> is_hex_digit(#[trigger] h[i])
    &&& ed25519_key_valid(spec_hex_bytes(h))
}

/// Turns the store's answer to a key lookup into the tenant's key bytes.
/// A miss is `TenantNotFound`; a store fault is `BackingStoreError` with
/// the cause; a stored string that is not 64 hex digits, or decodes to an
/// invalid key, is `InvalidKeyFormat`.
pub fn whitelabel_key_from_lookup(lookup: KeyLookup) -> (r: Result<Vec<u8>, GatewayError>)
    ensures
        lookup is Missing ==> (r matches Err(e) && e is TenantNotFound),
        lookup matches KeyLookup::Unavailable(m) ==> (r matches Err(e) && e matches
            GatewayError::BackingStoreError(c) && c@ == m@),
        lookup matches KeyLookup::Found(h) ==> (if stored_key_ok(h@) {
            r matches Ok(k) && k@ == spec_hex_bytes(h@) && k@.len() == 32 && ed25519_key_valid(k@)
        } else {
            r matches Err(e) && e is InvalidKeyFormat
        }),
{
    match lookup {
        KeyLookup::Found(h) => {
            match hex_decode_key(h.as_str()) {
                Some(k) => {
                    if ed25519_key_check(k.as_slice()) {
                        Ok(k)
                    } else {
                        Err(GatewayError::InvalidKeyFormat)
                    }
                }
                None => Err(GatewayError::InvalidKeyFormat),
            }
        }
        KeyLookup::Missing => Err(GatewayError::TenantNotFound),
        KeyLookup::Unavailable(m) => Err(GatewayError::BackingStoreError(m)),
    }
}

/// Turns the store's answer to a token lookup into the tenant's bearer
/// token. A miss is `TenantNotFound`; a store fault is `BackingStoreError`
/// with the cause.
pub fn whitelabel_token_from_lookup(lookup: TokenLookup) -> (r: Result<Vec<u8>, GatewayError>)
    ensures
        lookup matches TokenLookup::Found(t) ==> (r matches Ok(tok) && tok@ == t@),
        lookup is Missing ==> (r matches Err(e) && e is TenantNotFound),
        lookup matches TokenLookup::Unavailable(m) ==> (r matches Err(e) && e matches
            GatewayError::BackingStoreError(c) && c@ == m@),
{
    match lookup {
        TokenLookup::Found(t) => Ok(t),
        TokenLookup::Missing => Err(GatewayError::TenantNotFound),
        TokenLookup::Unavailable(m) => Err(GatewayError::BackingStoreError(m)),
    }
}

} // verus!
