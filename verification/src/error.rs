//! The gateway's error taxonomy and its mapping to HTTP status classes.
//!
//! Every synchronous-path failure is one of these; cache-population
//! failures never become one (they are observed only by a local sink).

use vstd::prelude::*;

verus! {

/// A failure on the synchronous request path.
#[derive(Debug, Clone, PartialEq, Eq)]
pub enum GatewayError {
    /// The signature does not verify over the timestamp and body, or the
    /// signature or key material is malformed. Sub-reasons are deliberately
    /// not distinguished.
    InvalidSignature,
    /// The tenant is neither the public tenant nor present in the
    /// whitelabel store.
    TenantNotFound,
    /// The stored whitelabel key is not 64 hex characters, or does not
    /// decode to a valid Ed25519 public key.
    InvalidKeyFormat,
    /// The whitelabel store could not be reached; carries the cause.
    BackingStoreError(String),
    /// The request body is not a single well-formed JSON document.
    MalformedPayload,
    /// A ping payload names a tenant other than the authenticated one.
    TenantMismatch,
    /// The payload's discriminant is none of the supported shapes.
    UnsupportedInteractionType,
    /// The request body is not valid UTF-8, so it cannot be forwarded as
    /// JSON text.
    EncodingError,
    /// The downstream service could not be reached; carries the cause.
    ForwardingError(String),
}

impl GatewayError {
    /// The HTTP status this error surfaces as: authentication failures are
    /// unauthorized; an unknown tenant is not-found; store unavailability is
    /// service-unavailable; payload faults are client errors; a downstream
    /// transport fault is a bad gateway.
    pub fn http_status(&self) -> (r: u16)
        ensures
            r == self.spec_http_status(),
    {
        match self {
            GatewayError::InvalidSignature => 401,
            GatewayError::InvalidKeyFormat => 401,
            GatewayError::TenantNotFound => 404,
            GatewayError::BackingStoreError(_) => 503,
            GatewayError::MalformedPayload => 400,
            GatewayError::TenantMismatch => 400,
            GatewayError::UnsupportedInteractionType => 400,
            GatewayError::EncodingError => 400,
            GatewayError::ForwardingError(_) => 502,
        }
    }

    /// The status of each error class.
    pub open spec fn spec_http_status(&self) -> u16 {
        match self {
            GatewayError::InvalidSignature => 401,
            GatewayError::InvalidKeyFormat => 401,
            GatewayError::TenantNotFound => 404,
            GatewayError::BackingStoreError(_) => 503,
            GatewayError::MalformedPayload => 400,
            GatewayError::TenantMismatch => 400,
            GatewayError::UnsupportedInteractionType => 400,
            GatewayError::EncodingError => 400,
            GatewayError::ForwardingError(_) => 502,
        }
    }

    /// Whether an external retry of the same delivery could succeed: only a
    /// downstream transport fault or an unavailable store is transient.
    pub fn is_transient(&self) -> (r: bool)
        ensures
            r == (self is ForwardingError || self is BackingStoreError),
    {
        match self {
            GatewayError::ForwardingError(_) => true,
            GatewayError::BackingStoreError(_) => true,
            _ => false,
        }
    }
}

} // verus!
