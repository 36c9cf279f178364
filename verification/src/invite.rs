//! Gateway event payload sent when an invite is created.

use vstd::prelude::*;

use crate::ids::{ChannelId, GuildId, UserId};
use crate::model::User;

verus! {

/// Target of a voice channel stream invite.
#[derive(Clone, Copy, Debug, Eq, Hash, PartialEq, Structural)]
pub enum TargetType {
    Stream,
}

/// Information about the user whose stream to display for a voice channel
/// stream invite.
#[derive(Clone, Debug, Eq, Hash, PartialEq)]
pub struct PartialUser {
    /// Hash of the user's avatar.
    pub avatar: Option<String>,
    /// Discriminator used to differentiate people with the same username.
    pub discriminator: String,
    /// ID of the user.
    pub id: UserId,
    /// Username of the user.
    pub username: String,
}

/// A new invite has been created.
#[derive(Clone, Debug, Eq, Hash, PartialEq)]
pub struct InviteCreate {
    /// ID of the channel invited users will first see.
    pub channel_id: ChannelId,
    /// Unique code.
    pub code: String,
    /// When the invite was created, as an ISO 8601 timestamp.
    pub created_at: String,
    /// ID of the guild being invited to.
    pub guild_id: GuildId,
    /// Information about the user who created the invite.
    pub inviter: Option<User>,
    /// Maximum age before the invite expires, in seconds.
    pub max_age: u64,
    /// Maximum number of uses before the invite expires.
    pub max_uses: u64,
    /// Target of the invite.
    pub target_user_type: Option<TargetType>,
    /// User whose stream to display for this voice channel stream invite.
    pub target_user: Option<PartialUser>,
    /// Whether the invite is temporary: invited users will be kicked when
    /// they are disconnected from an audio channel unless they're assigned
    /// a role.
    pub temporary: bool,
    /// Number of times the invite has been used; always zero.
    pub uses: u8,
}

} // verus!
