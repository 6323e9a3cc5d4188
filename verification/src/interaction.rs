//! The typed shapes of an inbound interaction.
//!
//! A payload's shape is determined solely by its integer discriminant; an
//! unknown discriminant maps to `Unsupported`, never silently dropped. The
//! surrounding process decodes the JSON body into these plain values and
//! hands them in together with the untouched body bytes.

use vstd::prelude::*;
use crate::channel_type::ChannelType;
use crate::snowflake::Snowflake;

verus! {

/// The wire discriminant of each supported shape.
#[derive(Debug, Clone, Copy, PartialEq, Eq, Structural)]
pub enum InteractionType {
    Ping,
    ApplicationCommand,
    MessageComponent,
    ApplicationCommandAutoComplete,
    ModalSubmit,
}

impl InteractionType {
    /// The discriminant value each shape is declared with.
    pub open spec fn wire_value(&self) -> u8 {
        match self {
            InteractionType::Ping => 1,
            InteractionType::ApplicationCommand => 2,
            InteractionType::MessageComponent => 3,
            InteractionType::ApplicationCommandAutoComplete => 4,
            InteractionType::ModalSubmit => 5,
        }
    }

    /// The wire value of this shape.
    pub fn to_value(&self) -> (r: u8)
        ensures
            r == self.wire_value(),
    {
        match self {
            InteractionType::Ping => 1,
            InteractionType::ApplicationCommand => 2,
            InteractionType::MessageComponent => 3,
            InteractionType::ApplicationCommandAutoComplete => 4,
            InteractionType::ModalSubmit => 5,
        }
    }

    /// Parses a wire discriminant; any other value is an unsupported shape.
    pub fn from_value(v: u8) -> (r: Option<InteractionType>)
        ensures
            r matches Some(t) ==> t.wire_value() == v,
            r is None ==> forall|t: InteractionType| t.wire_value() != v,
    {
        match v {
            1 => Some(InteractionType::Ping),
            2 => Some(InteractionType::ApplicationCommand),
            3 => Some(InteractionType::MessageComponent),
            4 => Some(InteractionType::ApplicationCommandAutoComplete),
            5 => Some(InteractionType::ModalSubmit),
            _ => None,
        }
    }
}

/// A user record resolved or embedded in a payload.
#[derive(Debug, Clone, Copy, PartialEq, Eq)]
pub struct User {
    pub id: Snowflake,
}

/// A guild-member record; may embed the member's user record.
#[derive(Debug, Clone, Copy, PartialEq, Eq)]
pub struct Member {
    pub user: Option<User>,
}

/// A role record resolved in a payload.
#[derive(Debug, Clone, Copy, PartialEq, Eq)]
pub struct Role {
    pub id: Snowflake,
}

/// A channel record resolved in a payload. Deliberately never cached.
#[derive(Debug, Clone, Copy, PartialEq, Eq)]
pub struct PartialChannel {
    pub id: Snowflake,
    pub kind: ChannelType,
}

/// The entities a command payload resolves for its receiver.
#[derive(Debug, Clone, PartialEq, Eq)]
pub struct ResolvedEntities {
    pub users: Vec<User>,
    pub members: Vec<Member>,
    pub roles: Vec<Role>,
    pub channels: Vec<PartialChannel>,
}

/// The body of a ping.
#[derive(Debug, Clone, Copy, PartialEq, Eq)]
pub struct PingData {
    /// The tenant the sender believes it is addressing.
    pub application_id: Snowflake,
}

/// The body of an application command.
#[derive(Debug, Clone, PartialEq, Eq)]
pub struct CommandData {
    pub guild_id: Option<Snowflake>,
    pub resolved: ResolvedEntities,
    pub member: Option<Member>,
    pub user: Option<User>,
}

/// The body of a message-component interaction; carries no resolved
/// entities, only the invoking member or user.
#[derive(Debug, Clone, Copy, PartialEq, Eq)]
pub struct ComponentData {
    pub guild_id: Option<Snowflake>,
    pub member: Option<Member>,
    pub user: Option<User>,
}

/// A decoded payload: one of the five supported shapes, or the catch-all
/// state for an unknown discriminant.
#[derive(Debug, Clone, PartialEq, Eq)]
pub enum TypedInteraction {
    Ping(PingData),
    ApplicationCommand(CommandData),
    MessageComponent(ComponentData),
    ApplicationCommandAutoComplete,
    ModalSubmit,
    Unsupported,
}

} // verus!
