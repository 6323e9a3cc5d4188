//! Core of an inbound webhook gateway for a multi-tenant bot platform.
//!
//! The gateway receives signed interaction callbacks, authenticates the
//! sender with a per-tenant Ed25519 key, routes the payload across the
//! supported interaction shapes, builds the envelope relayed to the
//! downstream service, and extracts entity records for a shared cache.
//! All decisions are made here, over plain values; the surrounding
//! process performs the store lookups, the downstream call and the
//! cache writes, and hands their outcomes back in.

pub mod snowflake;
pub mod channel_type;
pub mod error;
mod bytes;
pub mod crypto;
pub mod identity;
pub mod interaction;
pub mod cache_set;
pub mod forward;
pub mod router;
