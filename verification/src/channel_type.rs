//! Channel kinds carried by resolved channel entities.
//!
//! On the wire a channel kind is a small integer; `from_value` / `to_value`
//! give that correspondence, and `is_thread` picks out the thread kinds.

use vstd::prelude::*;

verus! {

/// The kind of a channel, as declared by the platform.
#[derive(Debug, Clone, Copy, PartialEq, Eq, Structural)]
pub enum ChannelType {
    GuildText,
    DM,
    GuildVoice,
    GroupDM,
    GuildCategory,
    GuildNews,
    GuildStore,
    GuildNewsThread,
    GuildPublicThread,
    GuildPrivateThread,
    GuildStageVoice,
    GuildDirectory,
    GuildForum,
}

impl ChannelType {
    /// Whether this kind is one of the three thread kinds.
    pub fn is_thread(&self) -> (r: bool)
        ensures
            r == (self is GuildNewsThread || self is GuildPublicThread
                || self is GuildPrivateThread),
    {
        match self {
            ChannelType::GuildNewsThread
            | ChannelType::GuildPublicThread
            | ChannelType::GuildPrivateThread => true,
            _ => false,
        }
    }

    /// The wire value of this kind.
    pub fn to_value(&self) -> (r: u8)
        ensures
            r == self.wire_value(),
    {
        match self {
            ChannelType::GuildText => 0,
            ChannelType::DM => 1,
            ChannelType::GuildVoice => 2,
            ChannelType::GroupDM => 3,
            ChannelType::GuildCategory => 4,
            ChannelType::GuildNews => 5,
            ChannelType::GuildStore => 6,
            ChannelType::GuildNewsThread => 10,
            ChannelType::GuildPublicThread => 11,
            ChannelType::GuildPrivateThread => 12,
            ChannelType::GuildStageVoice => 13,
            ChannelType::GuildDirectory => 14,
            ChannelType::GuildForum => 15,
        }
    }

    /// The wire value of each kind.
    pub open spec fn wire_value(&self) -> u8 {
        match self {
            ChannelType::GuildText => 0,
            ChannelType::DM => 1,
            ChannelType::GuildVoice => 2,
            ChannelType::GroupDM => 3,
            ChannelType::GuildCategory => 4,
            ChannelType::GuildNews => 5,
            ChannelType::GuildStore => 6,
            ChannelType::GuildNewsThread => 10,
            ChannelType::GuildPublicThread => 11,
            ChannelType::GuildPrivateThread => 12,
            ChannelType::GuildStageVoice => 13,
            ChannelType::GuildDirectory => 14,
            ChannelType::GuildForum => 15,
        }
    }

    /// Parses a wire value; unknown values yield `None`.
    pub fn from_value(v: u8) -> (r: Option<ChannelType>)
        ensures
            r matches Some(t) ==> t.wire_value() == v,
            r is None ==> forall|t: ChannelType| t.wire_value() != v,
    {
        let r = match v {
            0 => Some(ChannelType::GuildText),
            1 => Some(ChannelType::DM),
            2 => Some(ChannelType::GuildVoice),
            3 => Some(ChannelType::GroupDM),
            4 => Some(ChannelType::GuildCategory),
            5 => Some(ChannelType::GuildNews),
            6 => Some(ChannelType::GuildStore),
            10 => Some(ChannelType::GuildNewsThread),
            11 => Some(ChannelType::GuildPublicThread),
            12 => Some(ChannelType::GuildPrivateThread),
            13 => Some(ChannelType::GuildStageVoice),
            14 => Some(ChannelType::GuildDirectory),
            15 => Some(ChannelType::GuildForum),
            _ => None,
        };
        r
    }
}

/// Wire values identify channel kinds uniquely: two kinds with the same
/// wire value are the same kind, so encoding and parsing round-trip.
pub proof fn lemma_channel_type_value_injective(a: ChannelType, b: ChannelType)
    ensures
        a.wire_value() == b.wire_value() ==> a == b,
{
}

} // verus!
