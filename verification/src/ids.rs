//! Opaque 64-bit identifiers, one newtype per namespace.

use vstd::prelude::*;

verus! {

/// Identifier of a guild.
#[derive(Clone, Copy, Debug, Hash, PartialEq, Eq, Structural)]
pub struct GuildId(pub u64);

/// Identifier of a user.
#[derive(Clone, Copy, Debug, Hash, PartialEq, Eq, Structural)]
pub struct UserId(pub u64);

/// Identifier of a channel.
#[derive(Clone, Copy, Debug, Hash, PartialEq, Eq, Structural)]
pub struct ChannelId(pub u64);

/// Identifier of a guild role.
#[derive(Clone, Copy, Debug, Hash, PartialEq, Eq, Structural)]
pub struct RoleId(pub u64);

/// Identifier of an application.
#[derive(Clone, Copy, Debug, Hash, PartialEq, Eq, Structural)]
pub struct ApplicationId(pub u64);

} // verus!
