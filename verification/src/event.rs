//! Decoded gateway event records that feed the cache.

use vstd::prelude::*;

use crate::ids::{GuildId, RoleId, UserId};
use crate::model::{opt_string_view, roles_view, Member, MemberPayloadView, User, UserView};

verus! {

/// A member joined a guild.
pub struct MemberAdd(pub Member);

/// A batch of members of one guild, sent in response to a request for them.
pub struct MemberChunk {
    pub guild_id: GuildId,
    pub members: Vec<Member>,
}

/// A member left, or was removed from, a guild.
pub struct MemberRemove {
    pub guild_id: GuildId,
    pub user: User,
}

/// A member's guild-scoped data changed.
///
/// Voice flags are optional in this payload; the remaining fields are always
/// fully populated on update events.
pub struct MemberUpdate {
    pub guild_id: GuildId,
    pub deaf: Option<bool>,
    pub joined_at: String,
    pub mute: Option<bool>,
    pub nick: Option<String>,
    pub pending: bool,
    pub premium_since: Option<String>,
    pub roles: Vec<RoleId>,
    pub user: User,
}

/// Mathematical view of a member update event.
pub ghost struct MemberUpdateView {
    pub guild_id: u64,
    pub deaf: Option<bool>,
    pub joined_at: Seq<char>,
    pub mute: Option<bool>,
    pub nick: Option<Seq<char>>,
    pub pending: bool,
    pub premium_since: Option<Seq<char>>,
    pub roles: Seq<u64>,
    pub user: UserView,
}

impl View for MemberUpdate {
    type V = MemberUpdateView;

    open spec fn view(&self) -> MemberUpdateView {
        MemberUpdateView {
            guild_id: self.guild_id.0,
            deaf: self.deaf,
            joined_at: self.joined_at@,
            mute: self.mute,
            nick: opt_string_view(self.nick),
            pending: self.pending,
            premium_since: opt_string_view(self.premium_since),
            roles: roles_view(self.roles@),
            user: self.user@,
        }
    }
}

/// The views of the members of a batch, in order.
pub open spec fn members_seq_view(v: Seq<Member>) -> Seq<MemberPayloadView> {
    v.map_values(|m: Member| m@)
}

} // verus!
