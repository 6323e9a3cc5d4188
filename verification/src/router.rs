//! Routing of an authenticated payload.
//!
//! After the signature has been checked, the decoded payload is routed: a
//! ping is answered locally (and only after its declared tenant matches the
//! authenticated one), the four other supported shapes are forwarded
//! downstream, two of them with a cache write set handed to a detached
//! writer first, and everything else is rejected. Routing is a function of
//! the authenticated tenant and the decoded payload alone — there is no
//! shared state, so duplicate deliveries are routed independently and
//! identically.

use vstd::prelude::*;
use vstd::string::StringSliceAdditionalSpecFns;
use crate::bytes::push_str_bytes;
use crate::cache_set::{CacheWriteSet, command_write_set, component_write_set, invoking_members,
    invoking_users, spec_command_members, spec_command_roles, spec_command_users};
use crate::error::GatewayError;
use crate::interaction::{InteractionType, TypedInteraction};
use crate::snowflake::Snowflake;

verus! {

/// An HTTP-shaped terminal result: status and body.
#[derive(Debug, Clone, PartialEq, Eq)]
pub struct HttpResponse {
    pub status: u16,
    pub body: Vec<u8>,
}

/// The fixed acknowledgement body returned on the ping path.
pub open spec fn pong_body() -> Seq<u8> {
    "{\"type\":1}".spec_bytes()
}

/// The fixed acknowledgement returned on the ping path.
pub fn pong_response() -> (r: HttpResponse)
    ensures
        r.status == 200,
        r.body@ == pong_body(),
{
    let mut body: Vec<u8> = Vec::new();
    push_str_bytes(&mut body, "{\"type\":1}");
    HttpResponse { status: 200, body }
}

/// The response to the original caller on a successful forward: the
/// downstream service's response bytes exactly, whatever they are.
pub fn forward_success_response(downstream_body: Vec<u8>) -> (r: HttpResponse)
    ensures
        r.status == 200,
        r.body == downstream_body,
{
    HttpResponse { status: 200, body: downstream_body }
}

/// The response a synchronous-path error terminates with: its status class
/// and an empty body, with no partial response.
pub fn error_response(e: &GatewayError) -> (r: HttpResponse)
    ensures
        r.status == e.spec_http_status(),
        r.body@.len() == 0,
{
    HttpResponse { status: e.http_status(), body: Vec::new() }
}

/// What decoding the body yielded: a typed payload, or nothing because the
/// bytes are not a single well-formed JSON document.
#[derive(Debug, Clone, PartialEq, Eq)]
pub enum ParseOutcome {
    Parsed(TypedInteraction),
    Invalid,
}

/// Where one authenticated request goes.
#[derive(Debug, Clone, PartialEq, Eq)]
pub enum RouteDecision {
    /// Answer the caller directly, no forwarding, no caching.
    Respond(HttpResponse),
    /// Terminate with an error.
    Reject(GatewayError),
    /// Forward the untouched body downstream under this discriminant; if a
    /// write set is present, hand it to a detached cache writer first,
    /// without awaiting it.
    Forward { interaction_type: InteractionType, cache: Option<CacheWriteSet> },
}

/// What routing promises, decision by decision: a malformed body is
/// rejected; a ping is answered with the fixed acknowledgement exactly when
/// the tenant it declares is the authenticated one, is rejected otherwise,
/// and is never forwarded; commands and components forward under their own
/// discriminant, with a write set exactly when the payload carries a guild;
/// autocompletes and modal submissions forward with no caching; an unknown
/// discriminant is rejected.
pub open spec fn route_ok(tenant_id: Snowflake, parse: ParseOutcome, r: RouteDecision) -> bool {
    &&& parse is Invalid ==> (r matches RouteDecision::Reject(e) && e is MalformedPayload)
    &&& parse matches ParseOutcome::Parsed(TypedInteraction::Ping(d)) ==> (if (
    d.application_id.0 == tenant_id.0) {
        r matches RouteDecision::Respond(resp) && resp.status == 200 && resp.body@ == pong_body()
    } else {
        r matches RouteDecision::Reject(e) && e is TenantMismatch
    })
    &&& parse matches ParseOutcome::Parsed(TypedInteraction::Ping(_)) ==> !(r is Forward)
    &&& parse matches ParseOutcome::Parsed(TypedInteraction::ApplicationCommand(d)) ==> (r
        matches RouteDecision::Forward { interaction_type, cache } && interaction_type
        == InteractionType::ApplicationCommand && (match d.guild_id {
        Some(g) => cache matches Some(ws) && ws.guild_id == g && ws.users@ == spec_command_users(
            d,
        ) && ws.members@ == spec_command_members(d) && ws.roles@ == spec_command_roles(d),
        None => cache is None,
    }))
    &&& parse matches ParseOutcome::Parsed(TypedInteraction::MessageComponent(d)) ==> (r
        matches RouteDecision::Forward { interaction_type, cache } && interaction_type
        == InteractionType::MessageComponent && (match d.guild_id {
        Some(g) => cache matches Some(ws) && ws.guild_id == g && ws.users@ == invoking_users(
            d.member,
            d.user,
        ) && ws.members@ == invoking_members(d.member) && ws.roles@.len() == 0,
        None => cache is None,
    }))
    &&& parse == ParseOutcome::Parsed(TypedInteraction::ApplicationCommandAutoComplete) ==> r
        == (RouteDecision::Forward {
        interaction_type: InteractionType::ApplicationCommandAutoComplete,
        cache: None,
    })
    &&& parse == ParseOutcome::Parsed(TypedInteraction::ModalSubmit) ==> r
        == (RouteDecision::Forward { interaction_type: InteractionType::ModalSubmit, cache: None })
    &&& parse == ParseOutcome::Parsed(TypedInteraction::Unsupported) ==> (r
        matches RouteDecision::Reject(e) && e is UnsupportedInteractionType)
}

/// Routes one decoded payload for the authenticated tenant.
pub fn route(tenant_id: Snowflake, parse: ParseOutcome) -> (r: RouteDecision)
    ensures
        route_ok(tenant_id, parse, r),
{
    match parse {
        ParseOutcome::Invalid => RouteDecision::Reject(GatewayError::MalformedPayload),
        ParseOutcome::Parsed(interaction) => match interaction {
            TypedInteraction::Ping(d) => {
                if d.application_id.0 == tenant_id.0 {
                    RouteDecision::Respond(pong_response())
                } else {
                    RouteDecision::Reject(GatewayError::TenantMismatch)
                }
            }
            TypedInteraction::ApplicationCommand(d) => {
                match d.guild_id {
                    Some(g) => RouteDecision::Forward {
                        interaction_type: InteractionType::ApplicationCommand,
                        cache: Some(command_write_set(d, g)),
                    },
                    None => RouteDecision::Forward {
                        interaction_type: InteractionType::ApplicationCommand,
                        cache: None,
                    },
                }
            }
            TypedInteraction::MessageComponent(d) => {
                match d.guild_id {
                    Some(g) => RouteDecision::Forward {
                        interaction_type: InteractionType::MessageComponent,
                        cache: Some(component_write_set(d, g)),
                    },
                    None => RouteDecision::Forward {
                        interaction_type: InteractionType::MessageComponent,
                        cache: None,
                    },
                }
            }
            TypedInteraction::ApplicationCommandAutoComplete => RouteDecision::Forward {
                interaction_type: InteractionType::ApplicationCommandAutoComplete,
                cache: None,
            },
            TypedInteraction::ModalSubmit => RouteDecision::Forward {
                interaction_type: InteractionType::ModalSubmit,
                cache: None,
            },
            TypedInteraction::Unsupported => RouteDecision::Reject(
                GatewayError::UnsupportedInteractionType,
            ),
        },
    }
}

} // verus!
