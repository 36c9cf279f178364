//! The cache engine: entity tables, relational indices, update handlers
//! and the read-only query facade.
//!
//! Every handler mutates one table or index at a time, in the fixed global
//! order member table, roster index, membership index, user table; no
//! operation ever reaches into two tables at once. Each handler's contract
//! states its exact effect as a transition on the cache's mathematical
//! view, and every handler preserves the cross-table invariant.

use std::collections::{HashMap, HashSet};

use vstd::prelude::*;

use crate::config::{all_resources_mask, Config, ResourceType};
use crate::event::{members_seq_view, MemberAdd, MemberChunk, MemberRemove, MemberUpdate};
use crate::ids::{GuildId, UserId};
use crate::model::{
    clone_opt_string, clone_roles, interaction_member_eq, member_payload_eq, partial_member_eq,
    user_eq, CachedMember, InteractionMember, Member, MemberView, PartialMember, User, UserView,
};
use crate::state::{
    apply_interaction_member, apply_member_add, apply_member_chunk, apply_member_remove,
    apply_member_update, apply_partial_member, empty_cache, index_with, index_with_all,
    index_without, inv, lemma_empty_inv, lemma_interaction_member_inv, lemma_member_add_inv,
    lemma_member_cached_inv, lemma_member_chunk_inv, lemma_member_remove_inv,
    lemma_member_update_inv, lemma_members_cached_inv, lemma_members_cached_push,
    lemma_partial_member_inv, lemma_user_cached_inv, member_cached, member_ids, members_cached,
    merge_update, user_cached, wants, CacheView,
};

verus! {

broadcast use vstd::std_specs::hash::group_hash_axioms;

// ---------------------------------------------------------------------------
// Views of the backing tables
// ---------------------------------------------------------------------------

/// The member records a nested guild-to-user table holds, keyed by
/// (guild id, user id).
pub open spec fn members_view(m: Map<u64, HashMap<u64, CachedMember>>) -> Map<
    (u64, u64),
    MemberView,
> {
    Map::new(
        |k: (u64, u64)| m.contains_key(k.0) && m[k.0]@.contains_key(k.1),
        |k: (u64, u64)| m[k.0]@[k.1]@,
    )
}

/// The owner-to-set mapping an index table holds.
pub open spec fn index_view(m: Map<u64, HashSet<u64>>) -> Map<u64, Set<u64>> {
    Map::new(|k: u64| m.contains_key(k), |k: u64| m[k]@)
}

/// The user profiles a user table holds.
pub open spec fn users_view(m: Map<u64, User>) -> Map<u64, UserView> {
    Map::new(|k: u64| m.contains_key(k), |k: u64| m[k]@)
}

// ---------------------------------------------------------------------------
// The cache
// ---------------------------------------------------------------------------

/// The in-process mirror of guild member and user state.
pub struct InMemoryCache {
    config: Config,
    members: HashMap<u64, HashMap<u64, CachedMember>>,
    guild_members: HashMap<u64, HashSet<u64>>,
    user_guilds: HashMap<u64, HashSet<u64>>,
    users: HashMap<u64, User>,
}

impl View for InMemoryCache {
    type V = CacheView;

    closed spec fn view(&self) -> CacheView {
        CacheView {
            resource_types: self.config.resource_types,
            members: members_view(self.members@),
            rosters: index_view(self.guild_members@),
            memberships: index_view(self.user_guilds@),
            users: users_view(self.users@),
        }
    }
}

// ---------------------------------------------------------------------------
// Single-table operations with exact view-level contracts
// ---------------------------------------------------------------------------

/// Lookup in a table keyed by identifier.
fn map_get<'a, V>(m: &'a HashMap<u64, V>, k: u64) -> (r: Option<&'a V>)
    ensures
        match r {
            Some(v) => m@.contains_key(k) && *v == m@[k],
            None => !m@.contains_key(k),
        },
{
    m.get(&k)
}

/// Upsert of one member record in the nested member table.
fn member_table_insert(m: &mut HashMap<u64, HashMap<u64, CachedMember>>, g: u64, u: u64, cm: CachedMember)
    ensures
        members_view(final(m)@) == members_view(old(m)@).insert((g, u), cm@),
{
    let ghost cmv = cm@;
    let mut inner = match m.remove(&g) {
        Some(i) => i,
        None => HashMap::new(),
    };
    inner.insert(u, cm);
    m.insert(g, inner);
    proof {
        assert(members_view(m@) =~= members_view(old(m)@).insert((g, u), cmv));
    }
}

/// Removal of one member record from the nested member table; an inner
/// table left empty is dropped.
fn member_table_remove(m: &mut HashMap<u64, HashMap<u64, CachedMember>>, g: u64, u: u64)
    ensures
        members_view(final(m)@) == members_view(old(m)@).remove((g, u)),
{
    let inner_opt = m.remove(&g);
    match inner_opt {
        Some(mut inner) => {
            inner.remove(&u);
            if !inner.is_empty() {
                m.insert(g, inner);
            }
        },
        None => {},
    }
    proof {
        assert(members_view(m@) =~= members_view(old(m)@).remove((g, u)));
    }
}

/// Insertion of one item under an owner of an index table.
fn idx_insert(m: &mut HashMap<u64, HashSet<u64>>, owner: u64, item: u64)
    ensures
        index_view(final(m)@) == index_with(index_view(old(m)@), owner, item),
{
    let mut s = match m.remove(&owner) {
        Some(s) => s,
        None => HashSet::new(),
    };
    s.insert(item);
    m.insert(owner, s);
    proof {
        assert(index_view(m@) =~= index_with(index_view(old(m)@), owner, item));
    }
}

/// One bulk insertion of a batch of items under an owner of an index table.
fn idx_insert_ids(m: &mut HashMap<u64, HashSet<u64>>, owner: u64, ids: &Vec<u64>)
    ensures
        index_view(final(m)@) == index_with_all(index_view(old(m)@), owner, ids@.to_set()),
{
    let mut s = match m.remove(&owner) {
        Some(s) => s,
        None => HashSet::new(),
    };
    let ghost s0 = s@;
    let mut i: usize = 0;
    while i < ids.len()
        invariant
            i <= ids.len(),
            s@ == s0.union(ids@.subrange(0, i as int).to_set()),
        decreases ids.len() - i,
    {
        proof {
            assert(ids@.subrange(0, i as int + 1) =~= ids@.subrange(0, i as int).push(
                ids@[i as int],
            ));
        }
        s.insert(ids[i]);
        i = i + 1;
        proof {
            ids@.subrange(0, i as int - 1).lemma_push_to_set_commute(ids@[i as int - 1]);
            assert(s@ =~= s0.union(ids@.subrange(0, i as int).to_set()));
        }
    }
    m.insert(owner, s);
    proof {
        assert(ids@.subrange(0, ids@.len() as int) =~= ids@);
        assert(index_view(m@) =~= index_with_all(index_view(old(m)@), owner, ids@.to_set()));
    }
}

/// Removal of one item from an owner's set of an index table; a set left
/// empty has its owner's entry dropped. Returns whether the owner had a
/// set and it became empty.
fn idx_remove(m: &mut HashMap<u64, HashSet<u64>>, owner: u64, item: u64) -> (became_empty: bool)
    ensures
        index_view(final(m)@) == index_without(index_view(old(m)@), owner, item),
        became_empty == (index_view(old(m)@).contains_key(owner) && index_view(old(m)@)[owner].remove(
            item,
        ).is_empty()),
{
    let mut became_empty = false;
    let s_opt = m.remove(&owner);
    match s_opt {
        Some(mut s) => {
            s.remove(&item);
            if s.is_empty() {
                became_empty = true;
            } else {
                m.insert(owner, s);
            }
        },
        None => {},
    }
    proof {
        assert(index_view(m@) =~= index_without(index_view(old(m)@), owner, item));
    }
    became_empty
}

/// Upsert of one user profile in the user table.
fn users_insert(m: &mut HashMap<u64, User>, u: u64, user: User)
    ensures
        users_view(final(m)@) == users_view(old(m)@).insert(u, user@),
{
    let ghost uv = user@;
    m.insert(u, user);
    proof {
        assert(users_view(m@) =~= users_view(old(m)@).insert(u, uv));
    }
}

/// Removal of one user profile from the user table.
fn users_remove(m: &mut HashMap<u64, User>, u: u64)
    ensures
        users_view(final(m)@) == users_view(old(m)@).remove(u),
{
    m.remove(&u);
    proof {
        assert(users_view(m@) =~= users_view(old(m)@).remove(u));
    }
}

// ---------------------------------------------------------------------------
// Construction, gating, and the update handlers
// ---------------------------------------------------------------------------

impl InMemoryCache {
    /// A cache that mirrors every entity kind.
    pub fn new() -> (r: Self)
        ensures
            r@ == empty_cache(all_resources_mask()),
            inv(r@),
    {
        Self::with_config(Config::all())
    }

    /// A cache that mirrors the entity kinds the configuration selects.
    pub fn with_config(config: Config) -> (r: Self)
        ensures
            r@ == empty_cache(config.resource_types),
            inv(r@),
    {
        let r = InMemoryCache {
            config,
            members: HashMap::new(),
            guild_members: HashMap::new(),
            user_guilds: HashMap::new(),
            users: HashMap::new(),
        };
        proof {
            assert(members_view(r.members@) =~= empty_cache(config.resource_types).members);
            assert(index_view(r.guild_members@) =~= empty_cache(config.resource_types).rosters);
            assert(index_view(r.user_guilds@) =~= empty_cache(config.resource_types).memberships);
            assert(users_view(r.users@) =~= empty_cache(config.resource_types).users);
            lemma_empty_inv(config.resource_types);
        }
        r
    }

    /// Does the configured selector include this entity kind?
    pub fn wants(&self, rt: ResourceType) -> (r: bool)
        ensures
            r == wants(self@, rt),
    {
        self.config.resource_types & rt.mask() != 0
    }

    /// The member record cached at (guild, user), if any.
    fn members_get(&self, g: u64, u: u64) -> (r: Option<&CachedMember>)
        ensures
            match r {
                Some(m) => self@.members.contains_key((g, u)) && m@ == self@.members[(g, u)],
                None => !self@.members.contains_key((g, u)),
            },
    {
        match map_get(&self.members, g) {
            Some(inner) => map_get(inner, u),
            None => None,
        }
    }

    /// Upsert of a user profile, recording the guild association in the
    /// membership index. A profile equal to the cached one is not written
    /// again.
    pub fn cache_user(&mut self, user: &User, guild_id: GuildId)
        ensures
            final(self)@ == user_cached(old(self)@, user@, guild_id.0),
            inv(old(self)@) ==> inv(final(self)@),
    {
        let known = match map_get(&self.users, user.id.0) {
            Some(existing) => user_eq(existing, user),
            None => false,
        };
        if known {
            idx_insert(&mut self.user_guilds, user.id.0, guild_id.0);
            proof {
                assert(old(self)@.users.insert(user.id.0, user@) =~= old(self)@.users);
                if inv(old(self)@) {
                    lemma_user_cached_inv(old(self)@, user@, guild_id.0);
                }
            }
            return;
        }
        users_insert(&mut self.users, user.id.0, user.clone());
        idx_insert(&mut self.user_guilds, user.id.0, guild_id.0);
        proof {
            if inv(old(self)@) {
                lemma_user_cached_inv(old(self)@, user@, guild_id.0);
            }
        }
    }

    /// Caching of one full member payload: upsert of the embedded user, of
    /// the member record, and a roster insertion; a payload equal to the
    /// cached record is dropped without any mutation.
    pub fn cache_member(&mut self, guild_id: GuildId, member: &Member)
        ensures
            final(self)@ == member_cached(old(self)@, guild_id.0, member@),
            inv(old(self)@) ==> inv(final(self)@),
    {
        let member_id = member.user.id;
        let already = match self.members_get(guild_id.0, member_id.0) {
            Some(m) => member_payload_eq(m, member),
            None => false,
        };
        if already {
            proof {
                if inv(old(self)@) {
                    lemma_member_cached_inv(old(self)@, guild_id.0, member@);
                }
            }
            return;
        }
        self.cache_user(&member.user, guild_id);
        let cached = CachedMember {
            deaf: Some(member.deaf),
            guild_id,
            joined_at: clone_opt_string(&member.joined_at),
            mute: Some(member.mute),
            nick: clone_opt_string(&member.nick),
            pending: member.pending,
            premium_since: clone_opt_string(&member.premium_since),
            roles: clone_roles(&member.roles),
            user_id: member_id,
        };
        proof {
            assert(cached@ == crate::model::member_projection(guild_id.0, member@));
        }
        member_table_insert(&mut self.members, guild_id.0, member_id.0, cached);
        idx_insert(&mut self.guild_members, guild_id.0, member_id.0);
        proof {
            if inv(old(self)@) {
                lemma_member_cached_inv(old(self)@, guild_id.0, member@);
            }
        }
    }

    /// Caching of a batch of full member payloads, first to last.
    pub fn cache_members(&mut self, guild_id: GuildId, members: &Vec<Member>)
        ensures
            final(self)@ == members_cached(old(self)@, guild_id.0, members_seq_view(members@)),
            inv(old(self)@) ==> inv(final(self)@),
    {
        proof {
            assert(members_seq_view(members@).take(0) =~= Seq::<
                crate::model::MemberPayloadView,
            >::empty());
        }
        let mut i: usize = 0;
        while i < members.len()
            invariant
                i <= members.len(),
                self@ == members_cached(
                    old(self)@,
                    guild_id.0,
                    members_seq_view(members@).take(i as int),
                ),
            decreases members.len() - i,
        {
            self.cache_member(guild_id, &members[i]);
            i = i + 1;
            proof {
                let ms = members_seq_view(members@);
                assert(ms[i - 1] == members@[i - 1]@);
                assert(ms.take(i as int) =~= ms.take(i as int - 1).push(ms[i - 1]));
                lemma_members_cached_push(
                    old(self)@,
                    guild_id.0,
                    ms.take(i as int - 1),
                    ms[i - 1],
                );
            }
        }
        proof {
            assert(members_seq_view(members@).take(members@.len() as int) =~= members_seq_view(
                members@,
            ));
            if inv(old(self)@) {
                lemma_members_cached_inv(old(self)@, guild_id.0, members_seq_view(members@));
            }
        }
    }

    /// Caching of a partial member payload for a known user id. The
    /// pending flag and the premium timestamp are absent from such
    /// payloads; a prior record's values are kept. No user data is
    /// embedded, so only the member table and the roster index are
    /// touched.
    pub fn cache_borrowed_partial_member(
        &mut self,
        guild_id: GuildId,
        member: &PartialMember,
        user_id: UserId,
    )
        ensures
            final(self)@ == apply_partial_member(old(self)@, guild_id.0, member@, user_id.0),
            inv(old(self)@) ==> inv(final(self)@),
    {
        let mut already = false;
        let mut pending = false;
        let mut premium_since: Option<String> = None;
        match self.members_get(guild_id.0, user_id.0) {
            Some(m) => {
                if partial_member_eq(m, member) {
                    already = true;
                } else {
                    pending = m.pending;
                    premium_since = clone_opt_string(&m.premium_since);
                }
            },
            None => {},
        }
        if already {
            proof {
                if inv(old(self)@) {
                    lemma_partial_member_inv(old(self)@, guild_id.0, member@, user_id.0);
                }
            }
            return;
        }
        idx_insert(&mut self.guild_members, guild_id.0, user_id.0);
        let cached = CachedMember {
            deaf: Some(member.deaf),
            guild_id,
            joined_at: clone_opt_string(&member.joined_at),
            mute: Some(member.mute),
            nick: clone_opt_string(&member.nick),
            pending,
            premium_since,
            roles: clone_roles(&member.roles),
            user_id,
        };
        member_table_insert(&mut self.members, guild_id.0, user_id.0, cached);
        proof {
            if inv(old(self)@) {
                lemma_partial_member_inv(old(self)@, guild_id.0, member@, user_id.0);
            }
        }
    }

    /// Caching of a member payload embedded in an interaction. The payload
    /// carries no voice flags and no pending flag; a prior record's values
    /// are kept.
    pub fn cache_borrowed_interaction_member(&mut self, guild_id: GuildId, member: &InteractionMember)
        ensures
            final(self)@ == apply_interaction_member(old(self)@, guild_id.0, member@),
            inv(old(self)@) ==> inv(final(self)@),
    {
        let mut deaf: Option<bool> = None;
        let mut mute: Option<bool> = None;
        let mut pending = false;
        let mut already = false;
        match self.members_get(guild_id.0, member.id.0) {
            Some(m) => {
                if interaction_member_eq(m, member) {
                    already = true;
                } else {
                    deaf = m.deaf;
                    mute = m.mute;
                    pending = m.pending;
                }
            },
            None => {},
        }
        if already {
            proof {
                if inv(old(self)@) {
                    lemma_interaction_member_inv(old(self)@, guild_id.0, member@);
                }
            }
            return;
        }
        idx_insert(&mut self.guild_members, guild_id.0, member.id.0);
        let cached = CachedMember {
            deaf,
            guild_id,
            joined_at: clone_opt_string(&member.joined_at),
            mute,
            nick: clone_opt_string(&member.nick),
            pending,
            premium_since: clone_opt_string(&member.premium_since),
            roles: clone_roles(&member.roles),
            user_id: member.id,
        };
        member_table_insert(&mut self.members, guild_id.0, member.id.0, cached);
        proof {
            if inv(old(self)@) {
                lemma_interaction_member_inv(old(self)@, guild_id.0, member@);
            }
        }
    }

    /// Apply one decoded gateway event to the cache.
    pub fn update<T: UpdateCache>(&mut self, event: &T)
        ensures
            final(self)@ == event.applied(old(self)@),
            inv(old(self)@) ==> inv(final(self)@),
    {
        event.update(self);
    }
}

// ---------------------------------------------------------------------------
// The query facade: read-only, returning detached copies
// ---------------------------------------------------------------------------

impl InMemoryCache {
    /// The member cached at (guild, user), as a detached copy.
    pub fn member(&self, guild_id: GuildId, user_id: UserId) -> (r: Option<CachedMember>)
        ensures
            match r {
                Some(m) => self@.members.contains_key((guild_id.0, user_id.0)) && m@
                    == self@.members[(guild_id.0, user_id.0)],
                None => !self@.members.contains_key((guild_id.0, user_id.0)),
            },
    {
        match self.members_get(guild_id.0, user_id.0) {
            Some(m) => Some(m.clone()),
            None => None,
        }
    }

    /// The user profile cached for an id, as a detached copy.
    pub fn user(&self, user_id: UserId) -> (r: Option<User>)
        ensures
            match r {
                Some(u) => self@.users.contains_key(user_id.0) && u@ == self@.users[user_id.0],
                None => !self@.users.contains_key(user_id.0),
            },
    {
        match map_get(&self.users, user_id.0) {
            Some(u) => Some(u.clone()),
            None => None,
        }
    }

    /// The user ids on a guild's roster, as a detached copy.
    pub fn guild_members(&self, guild_id: GuildId) -> (r: Option<HashSet<u64>>)
        ensures
            match r {
                Some(s) => self@.rosters.contains_key(guild_id.0) && s@
                    == self@.rosters[guild_id.0],
                None => !self@.rosters.contains_key(guild_id.0),
            },
    {
        match map_get(&self.guild_members, guild_id.0) {
            Some(s) => Some(copy_id_set(s)),
            None => None,
        }
    }

    /// The guild ids a user currently belongs to, as a detached copy.
    pub fn user_guilds(&self, user_id: UserId) -> (r: Option<HashSet<u64>>)
        ensures
            match r {
                Some(s) => self@.memberships.contains_key(user_id.0) && s@
                    == self@.memberships[user_id.0],
                None => !self@.memberships.contains_key(user_id.0),
            },
    {
        match map_get(&self.user_guilds, user_id.0) {
            Some(s) => Some(copy_id_set(s)),
            None => None,
        }
    }
}

// ---------------------------------------------------------------------------
// Event handlers
// ---------------------------------------------------------------------------

/// A decoded gateway event that the cache can apply.
pub trait UpdateCache {
    /// The state the event leads to from a given state.
    spec fn applied(&self, c: CacheView) -> CacheView;

    /// Apply the event; its exact effect is `applied`, and the cross-table
    /// invariant is preserved.
    fn update(&self, cache: &mut InMemoryCache)
        ensures
            final(cache)@ == self.applied(old(cache)@),
            inv(old(cache)@) ==> inv(final(cache)@),
    ;
}

impl UpdateCache for MemberAdd {
    open spec fn applied(&self, c: CacheView) -> CacheView {
        apply_member_add(c, self.0@)
    }

    fn update(&self, cache: &mut InMemoryCache) {
        if !cache.wants(ResourceType::Member) {
            return;
        }
        cache.cache_member(self.0.guild_id, &self.0);
        idx_insert(&mut cache.guild_members, self.0.guild_id.0, self.0.user.id.0);
        proof {
            if inv(old(cache)@) {
                lemma_member_add_inv(old(cache)@, self.0@);
            }
        }
    }
}

impl UpdateCache for MemberChunk {
    open spec fn applied(&self, c: CacheView) -> CacheView {
        apply_member_chunk(c, self.guild_id.0, members_seq_view(self.members@))
    }

    fn update(&self, cache: &mut InMemoryCache) {
        if !cache.wants(ResourceType::Member) {
            return;
        }
        if self.members.len() == 0 {
            return;
        }
        cache.cache_members(self.guild_id, &self.members);
        let mut ids: Vec<u64> = Vec::new();
        let mut i: usize = 0;
        while i < self.members.len()
            invariant
                i <= self.members.len(),
                ids@.len() == i,
                forall|j: int| 0 <= j < i ==> ids@[j] == self.members@[j]@.user.id,
            decreases self.members.len() - i,
        {
            ids.push(self.members[i].user.id.0);
            i = i + 1;
        }
        proof {
            assert(ids@ =~= members_seq_view(self.members@).map_values(
                |m: crate::model::MemberPayloadView| m.user.id,
            ));
            assert(ids@.to_set() == member_ids(members_seq_view(self.members@)));
        }
        idx_insert_ids(&mut cache.guild_members, self.guild_id.0, &ids);
        proof {
            if inv(old(cache)@) {
                lemma_member_chunk_inv(old(cache)@, self.guild_id.0, members_seq_view(
                    self.members@,
                ));
            }
        }
    }
}

impl UpdateCache for MemberRemove {
    open spec fn applied(&self, c: CacheView) -> CacheView {
        apply_member_remove(c, self.guild_id.0, self.user.id.0)
    }

    fn update(&self, cache: &mut InMemoryCache) {
        if !cache.wants(ResourceType::Member) {
            return;
        }
        member_table_remove(&mut cache.members, self.guild_id.0, self.user.id.0);
        let _roster_emptied = idx_remove(
            &mut cache.guild_members,
            self.guild_id.0,
            self.user.id.0,
        );
        let remove_user = idx_remove(&mut cache.user_guilds, self.user.id.0, self.guild_id.0);
        if remove_user {
            users_remove(&mut cache.users, self.user.id.0);
        }
        proof {
            if inv(old(cache)@) {
                lemma_member_remove_inv(old(cache)@, self.guild_id.0, self.user.id.0);
            }
        }
    }
}

impl UpdateCache for MemberUpdate {
    open spec fn applied(&self, c: CacheView) -> CacheView {
        apply_member_update(c, self@)
    }

    fn update(&self, cache: &mut InMemoryCache) {
        if !cache.wants(ResourceType::Member) {
            return;
        }
        let g = self.guild_id.0;
        let u = self.user.id.0;
        let merged_opt = match cache.members_get(g, u) {
            Some(m) => Some(
                CachedMember {
                    deaf: match self.deaf {
                        Some(d) => Some(d),
                        None => m.deaf,
                    },
                    guild_id: m.guild_id,
                    joined_at: Some(self.joined_at.clone()),
                    mute: match self.mute {
                        Some(x) => Some(x),
                        None => m.mute,
                    },
                    nick: clone_opt_string(&self.nick),
                    pending: self.pending,
                    premium_since: clone_opt_string(&m.premium_since),
                    roles: clone_roles(&self.roles),
                    user_id: m.user_id,
                },
            ),
            None => None,
        };
        match merged_opt {
            Some(merged) => {
                proof {
                    assert(merged@ == merge_update(old(cache)@.members[(g, u)], self@));
                }
                member_table_insert(&mut cache.members, g, u, merged);
            },
            None => {},
        }
        proof {
            if inv(old(cache)@) {
                lemma_member_update_inv(old(cache)@, self@);
            }
        }
    }
}

/// A detached copy of a set of identifiers.
///
/// Relies on `std::collections::HashSet::clone` (not specified by vstd):
/// the copy holds exactly the elements of the original.
#[verifier::external_body]
fn copy_id_set(s: &HashSet<u64>) -> (r: HashSet<u64>)
    ensures
        r@ == s@,
{
    s.clone()
}

} // verus!
