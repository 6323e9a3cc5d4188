//! Extraction of cacheable entities from a payload.
//!
//! Two shapes feed the cache. A command payload contributes its resolved
//! users, members and roles, plus the invoking member (and that member's
//! embedded user) or, failing a member, the invoking user. A
//! message-component payload contributes only the invoking member or user.
//! Resolved channels are deliberately never extracted. Members and roles
//! are scoped to the guild the payload arrived for; the conventional write
//! order is users, then members, then roles.

use vstd::prelude::*;
use crate::interaction::{CommandData, ComponentData, Member, User, Role};
use crate::snowflake::Snowflake;

verus! {

/// Everything one payload contributes to the cache. Constructed transiently,
/// handed to the detached cache writer, and discarded.
#[derive(Debug, Clone, PartialEq, Eq)]
pub struct CacheWriteSet {
    /// The guild the member and role records belong to.
    pub guild_id: Snowflake,
    pub users: Vec<User>,
    pub members: Vec<Member>,
    pub roles: Vec<Role>,
}

/// The user records the invoking member or user contributes: the member's
/// embedded user if there is one, else the bare invoking user if there is
/// no member at all.
pub open spec fn invoking_users(member: Option<Member>, user: Option<User>) -> Seq<User> {
    match member {
        Some(m) => match m.user {
            Some(u) => seq![u],
            None => seq![],
        },
        None => match user {
            Some(u) => seq![u],
            None => seq![],
        },
    }
}

/// The member records the invoking member contributes.
pub open spec fn invoking_members(member: Option<Member>) -> Seq<Member> {
    match member {
        Some(m) => seq![m],
        None => seq![],
    }
}

/// The users a command payload contributes: the resolved users, then the
/// invoking contribution.
pub open spec fn spec_command_users(d: CommandData) -> Seq<User> {
    d.resolved.users@ + invoking_users(d.member, d.user)
}

/// The members a command payload contributes.
pub open spec fn spec_command_members(d: CommandData) -> Seq<Member> {
    d.resolved.members@ + invoking_members(d.member)
}

/// The roles a command payload contributes: exactly the resolved roles.
pub open spec fn spec_command_roles(d: CommandData) -> Seq<Role> {
    d.resolved.roles@
}

/// Flattens a command payload into its cache write set.
pub fn command_write_set(data: CommandData, guild_id: Snowflake) -> (r: CacheWriteSet)
    ensures
        r.guild_id == guild_id,
        r.users@ == spec_command_users(data),
        r.members@ == spec_command_members(data),
        r.roles@ == spec_command_roles(data),
{
    let mut users = data.resolved.users;
    let mut members = data.resolved.members;
    let roles = data.resolved.roles;
    if let Some(m) = data.member {
        if let Some(u) = m.user {
            users.push(u);
        }
        members.push(m);
    } else if let Some(u) = data.user {
        users.push(u);
    }
    proof {
        assert(users@ =~= spec_command_users(data));
        assert(members@ =~= spec_command_members(data));
    }
    CacheWriteSet { guild_id, users, members, roles }
}

/// Flattens a message-component payload into its cache write set: only the
/// invoking member or user, no bulk resolved entities.
pub fn component_write_set(data: ComponentData, guild_id: Snowflake) -> (r: CacheWriteSet)
    ensures
        r.guild_id == guild_id,
        r.users@ == invoking_users(data.member, data.user),
        r.members@ == invoking_members(data.member),
        r.roles@.len() == 0,
{
    let mut users: Vec<User> = Vec::new();
    let mut members: Vec<Member> = Vec::new();
    if let Some(m) = data.member {
        if let Some(u) = m.user {
            users.push(u);
        }
        members.push(m);
    } else if let Some(u) = data.user {
        users.push(u);
    }
    proof {
        assert(users@ =~= invoking_users(data.member, data.user));
        assert(members@ =~= invoking_members(data.member));
    }
    CacheWriteSet { guild_id, users, members, roles: Vec::new() }
}

/// Resolved channel data never reaches the cache: two command payloads that
/// differ only in their resolved channels contribute identical users,
/// members and roles.
pub proof fn lemma_channels_never_cached(a: CommandData, b: CommandData)
    requires
        a.resolved.users == b.resolved.users,
        a.resolved.members == b.resolved.members,
        a.resolved.roles == b.resolved.roles,
        a.member == b.member,
        a.user == b.user,
    ensures
        spec_command_users(a) == spec_command_users(b),
        spec_command_members(a) == spec_command_members(b),
        spec_command_roles(a) == spec_command_roles(b),
{
}

} // verus!
