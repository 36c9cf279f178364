//! Entity records held by the cache, the event payload records that feed
//! it, and the mathematical views that the contracts speak of.

use vstd::prelude::*;

use crate::ids::{GuildId, RoleId, UserId};

verus! {

// ---------------------------------------------------------------------------
// Views
// ---------------------------------------------------------------------------

/// Mathematical view of a user profile.
pub ghost struct UserView {
    pub id: u64,
    pub name: Seq<char>,
    pub discriminator: Seq<char>,
    pub avatar: Option<Seq<char>>,
}

/// Mathematical view of a cached member record.
pub ghost struct MemberView {
    pub deaf: Option<bool>,
    pub guild_id: u64,
    pub joined_at: Option<Seq<char>>,
    pub mute: Option<bool>,
    pub nick: Option<Seq<char>>,
    pub pending: bool,
    pub premium_since: Option<Seq<char>>,
    pub roles: Seq<u64>,
    pub user_id: u64,
}

/// Mathematical view of a full member payload.
pub ghost struct MemberPayloadView {
    pub deaf: bool,
    pub guild_id: u64,
    pub joined_at: Option<Seq<char>>,
    pub mute: bool,
    pub nick: Option<Seq<char>>,
    pub pending: bool,
    pub premium_since: Option<Seq<char>>,
    pub roles: Seq<u64>,
    pub user: UserView,
}

/// Mathematical view of a partial member payload.
pub ghost struct PartialMemberView {
    pub deaf: bool,
    pub joined_at: Option<Seq<char>>,
    pub mute: bool,
    pub nick: Option<Seq<char>>,
    pub roles: Seq<u64>,
}

/// Mathematical view of a member record embedded in an interaction.
pub ghost struct InteractionMemberView {
    pub id: u64,
    pub joined_at: Option<Seq<char>>,
    pub nick: Option<Seq<char>>,
    pub premium_since: Option<Seq<char>>,
    pub roles: Seq<u64>,
}

/// The view of an optional owned string.
pub open spec fn opt_string_view(o: Option<String>) -> Option<Seq<char>> {
    match o {
        None => None,
        Some(s) => Some(s@),
    }
}

/// The identifiers carried by a role list.
pub open spec fn roles_view(v: Seq<RoleId>) -> Seq<u64> {
    v.map_values(|r: RoleId| r.0)
}

// ---------------------------------------------------------------------------
// Records
// ---------------------------------------------------------------------------

/// Profile data shared across all guild contexts of one user.
#[derive(Debug, Eq, Hash, PartialEq)]
pub struct User {
    pub id: UserId,
    pub name: String,
    pub discriminator: String,
    pub avatar: Option<String>,
}

impl View for User {
    type V = UserView;

    open spec fn view(&self) -> UserView {
        UserView {
            id: self.id.0,
            name: self.name@,
            discriminator: self.discriminator@,
            avatar: opt_string_view(self.avatar),
        }
    }
}

/// The member record kept by the cache, keyed by (guild, user).
#[derive(Debug)]
pub struct CachedMember {
    pub deaf: Option<bool>,
    pub guild_id: GuildId,
    pub joined_at: Option<String>,
    pub mute: Option<bool>,
    pub nick: Option<String>,
    pub pending: bool,
    pub premium_since: Option<String>,
    pub roles: Vec<RoleId>,
    pub user_id: UserId,
}

impl View for CachedMember {
    type V = MemberView;

    open spec fn view(&self) -> MemberView {
        MemberView {
            deaf: self.deaf,
            guild_id: self.guild_id.0,
            joined_at: opt_string_view(self.joined_at),
            mute: self.mute,
            nick: opt_string_view(self.nick),
            pending: self.pending,
            premium_since: opt_string_view(self.premium_since),
            roles: roles_view(self.roles@),
            user_id: self.user_id.0,
        }
    }
}

/// A fully-populated member payload, as carried by add events and chunks.
pub struct Member {
    pub deaf: bool,
    pub guild_id: GuildId,
    pub joined_at: Option<String>,
    pub mute: bool,
    pub nick: Option<String>,
    pub pending: bool,
    pub premium_since: Option<String>,
    pub roles: Vec<RoleId>,
    pub user: User,
}

impl View for Member {
    type V = MemberPayloadView;

    open spec fn view(&self) -> MemberPayloadView {
        MemberPayloadView {
            deaf: self.deaf,
            guild_id: self.guild_id.0,
            joined_at: opt_string_view(self.joined_at),
            mute: self.mute,
            nick: opt_string_view(self.nick),
            pending: self.pending,
            premium_since: opt_string_view(self.premium_since),
            roles: roles_view(self.roles@),
            user: self.user@,
        }
    }
}

/// A member payload without an embedded user, as found in message events.
pub struct PartialMember {
    pub deaf: bool,
    pub joined_at: Option<String>,
    pub mute: bool,
    pub nick: Option<String>,
    pub roles: Vec<RoleId>,
}

impl View for PartialMember {
    type V = PartialMemberView;

    open spec fn view(&self) -> PartialMemberView {
        PartialMemberView {
            deaf: self.deaf,
            joined_at: opt_string_view(self.joined_at),
            mute: self.mute,
            nick: opt_string_view(self.nick),
            roles: roles_view(self.roles@),
        }
    }
}

/// A member record embedded in an interaction; voice flags are absent.
pub struct InteractionMember {
    pub id: UserId,
    pub joined_at: Option<String>,
    pub nick: Option<String>,
    pub premium_since: Option<String>,
    pub roles: Vec<RoleId>,
}

impl View for InteractionMember {
    type V = InteractionMemberView;

    open spec fn view(&self) -> InteractionMemberView {
        InteractionMemberView {
            id: self.id.0,
            joined_at: opt_string_view(self.joined_at),
            nick: opt_string_view(self.nick),
            premium_since: opt_string_view(self.premium_since),
            roles: roles_view(self.roles@),
        }
    }
}

// ---------------------------------------------------------------------------
// Projections: the cached record each payload kind gives rise to
// ---------------------------------------------------------------------------

/// The member record cached for a full payload.
pub open spec fn member_projection(g: u64, m: MemberPayloadView) -> MemberView {
    MemberView {
        deaf: Some(m.deaf),
        guild_id: g,
        joined_at: m.joined_at,
        mute: Some(m.mute),
        nick: m.nick,
        pending: m.pending,
        premium_since: m.premium_since,
        roles: m.roles,
        user_id: m.user.id,
    }
}

/// The member record cached for a partial payload: the pending flag and
/// the premium timestamp are absent from such payloads and are taken over
/// from a prior record, if any.
pub open spec fn partial_member_projection(
    g: u64,
    m: PartialMemberView,
    u: u64,
    pending: bool,
    premium_since: Option<Seq<char>>,
) -> MemberView {
    MemberView {
        deaf: Some(m.deaf),
        guild_id: g,
        joined_at: m.joined_at,
        mute: Some(m.mute),
        nick: m.nick,
        pending,
        premium_since,
        roles: m.roles,
        user_id: u,
    }
}

/// The member record cached for an interaction payload: the voice flags
/// and the pending flag are absent from such payloads and are taken over
/// from a prior record, if any.
pub open spec fn interaction_member_projection(
    g: u64,
    m: InteractionMemberView,
    deaf: Option<bool>,
    mute: Option<bool>,
    pending: bool,
) -> MemberView {
    MemberView {
        deaf,
        guild_id: g,
        joined_at: m.joined_at,
        mute,
        nick: m.nick,
        pending,
        premium_since: m.premium_since,
        roles: m.roles,
        user_id: m.id,
    }
}

// ---------------------------------------------------------------------------
// Value equality between a cached record and an incoming payload
// ---------------------------------------------------------------------------

/// The cached record carries exactly the values of the full payload.
pub open spec fn member_matches(cm: MemberView, m: MemberPayloadView) -> bool {
    &&& cm.deaf == Some(m.deaf)
    &&& cm.joined_at == m.joined_at
    &&& cm.mute == Some(m.mute)
    &&& cm.nick == m.nick
    &&& cm.pending == m.pending
    &&& cm.premium_since == m.premium_since
    &&& cm.roles == m.roles
    &&& cm.user_id == m.user.id
}

/// The cached record carries exactly the values the partial payload supplies.
pub open spec fn partial_member_matches(cm: MemberView, m: PartialMemberView) -> bool {
    &&& cm.deaf == Some(m.deaf)
    &&& cm.joined_at == m.joined_at
    &&& cm.mute == Some(m.mute)
    &&& cm.nick == m.nick
    &&& cm.roles == m.roles
}

/// The cached record carries exactly the values the interaction payload
/// supplies; voice flags are not compared, the payload has none.
pub open spec fn interaction_member_matches(cm: MemberView, m: InteractionMemberView) -> bool {
    &&& cm.joined_at == m.joined_at
    &&& cm.nick == m.nick
    &&& cm.premium_since == m.premium_since
    &&& cm.roles == m.roles
}

// ---------------------------------------------------------------------------
// Executable helpers: copies and comparisons with exact contracts
// ---------------------------------------------------------------------------

/// Copy of an optional owned string.
pub fn clone_opt_string(o: &Option<String>) -> (r: Option<String>)
    ensures
        r == *o,
{
    match o {
        None => None,
        Some(s) => Some(s.clone()),
    }
}

/// Copy of a role list.
pub fn clone_roles(v: &Vec<RoleId>) -> (r: Vec<RoleId>)
    ensures
        r@ == v@,
{
    let mut r: Vec<RoleId> = Vec::new();
    let mut i: usize = 0;
    while i < v.len()
        invariant
            i <= v.len(),
            r@ == v@.subrange(0, i as int),
        decreases v.len() - i,
    {
        r.push(v[i]);
        i = i + 1;
    }
    proof {
        assert(v@.subrange(0, v@.len() as int) =~= v@);
    }
    r
}

impl Clone for User {
    /// The copy has the same view as the original.
    fn clone(&self) -> (r: Self)
        ensures
            r@ == self@,
    {
        User {
            id: self.id,
            name: self.name.clone(),
            discriminator: self.discriminator.clone(),
            avatar: clone_opt_string(&self.avatar),
        }
    }
}

impl Clone for CachedMember {
    /// The copy has the same view as the original.
    fn clone(&self) -> (r: Self)
        ensures
            r@ == self@,
    {
        CachedMember {
            deaf: self.deaf,
            guild_id: self.guild_id,
            joined_at: clone_opt_string(&self.joined_at),
            mute: self.mute,
            nick: clone_opt_string(&self.nick),
            pending: self.pending,
            premium_since: clone_opt_string(&self.premium_since),
            roles: clone_roles(&self.roles),
            user_id: self.user_id,
        }
    }
}

/// Equality of two optional strings, decided on their views.
pub fn opt_string_eq(a: &Option<String>, b: &Option<String>) -> (r: bool)
    ensures
        r == (opt_string_view(*a) == opt_string_view(*b)),
{
    match (a, b) {
        (None, None) => true,
        (Some(x), Some(y)) => *x == *y,
        _ => false,
    }
}

/// Equality of two optional flags.
pub fn opt_bool_eq(a: Option<bool>, b: Option<bool>) -> (r: bool)
    ensures
        r == (a == b),
{
    match (a, b) {
        (None, None) => true,
        (Some(x), Some(y)) => x == y,
        _ => false,
    }
}

/// Equality of two role lists, decided on the identifiers they carry.
pub fn roles_eq(a: &Vec<RoleId>, b: &Vec<RoleId>) -> (r: bool)
    ensures
        r == (roles_view(a@) == roles_view(b@)),
{
    if a.len() != b.len() {
        proof {
            assert(roles_view(a@).len() != roles_view(b@).len());
        }
        return false;
    }
    let mut i: usize = 0;
    while i < a.len()
        invariant
            i <= a.len(),
            a@.len() == b@.len(),
            forall|j: int| 0 <= j < i ==> roles_view(a@)[j] == roles_view(b@)[j],
        decreases a.len() - i,
    {
        if a[i].0 != b[i].0 {
            proof {
                assert(roles_view(a@)[i as int] != roles_view(b@)[i as int]);
            }
            return false;
        }
        i = i + 1;
    }
    proof {
        assert(roles_view(a@) =~= roles_view(b@));
    }
    true
}

/// Does the cached record equal what caching this full payload would store?
pub fn member_payload_eq(cm: &CachedMember, m: &Member) -> (r: bool)
    ensures
        r == member_matches(cm@, m@),
{
    opt_bool_eq(cm.deaf, Some(m.deaf)) && opt_string_eq(&cm.joined_at, &m.joined_at)
        && opt_bool_eq(cm.mute, Some(m.mute)) && opt_string_eq(&cm.nick, &m.nick)
        && cm.pending == m.pending && opt_string_eq(&cm.premium_since, &m.premium_since)
        && roles_eq(&cm.roles, &m.roles) && cm.user_id.0 == m.user.id.0
}

/// Does the cached record equal what caching this partial payload would store?
pub fn partial_member_eq(cm: &CachedMember, m: &PartialMember) -> (r: bool)
    ensures
        r == partial_member_matches(cm@, m@),
{
    opt_bool_eq(cm.deaf, Some(m.deaf)) && opt_string_eq(&cm.joined_at, &m.joined_at)
        && opt_bool_eq(cm.mute, Some(m.mute)) && opt_string_eq(&cm.nick, &m.nick)
        && roles_eq(&cm.roles, &m.roles)
}

/// Does the cached record equal what caching this interaction payload would
/// store?
pub fn interaction_member_eq(cm: &CachedMember, m: &InteractionMember) -> (r: bool)
    ensures
        r == interaction_member_matches(cm@, m@),
{
    opt_string_eq(&cm.joined_at, &m.joined_at) && opt_string_eq(&cm.nick, &m.nick)
        && opt_string_eq(&cm.premium_since, &m.premium_since) && roles_eq(&cm.roles, &m.roles)
}

/// Equality of two user profiles, decided on their views.
pub fn user_eq(a: &User, b: &User) -> (r: bool)
    ensures
        r == (a@ == b@),
{
    a.id.0 == b.id.0 && a.name == b.name && a.discriminator == b.discriminator && opt_string_eq(
        &a.avatar,
        &b.avatar,
    )
}

} // verus!
