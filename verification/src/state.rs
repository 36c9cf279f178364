//! The mathematical model of the cache: its state, the effect of each
//! event on it, and the cross-table invariant.

use vstd::prelude::*;

use crate::config::{resource_mask, ResourceType};
use crate::event::MemberUpdateView;
use crate::model::{
    interaction_member_matches, interaction_member_projection, member_matches, member_projection,
    partial_member_matches, partial_member_projection, InteractionMemberView, MemberPayloadView,
    MemberView, PartialMemberView, UserView,
};

verus! {

/// Mathematical view of the whole cache.
///
/// Members are keyed by (guild id, user id). The roster index maps a guild
/// to the user ids of its members; the membership index maps a user to the
/// guild ids it belongs to.
pub ghost struct CacheView {
    pub resource_types: u64,
    pub members: Map<(u64, u64), MemberView>,
    pub rosters: Map<u64, Set<u64>>,
    pub memberships: Map<u64, Set<u64>>,
    pub users: Map<u64, UserView>,
}

/// Does the selector include this entity kind?
pub open spec fn wants(c: CacheView, rt: ResourceType) -> bool {
    c.resource_types & resource_mask(rt) != 0
}

/// Does the selector include members?
pub open spec fn member_wanted(c: CacheView) -> bool {
    wants(c, ResourceType::Member)
}

/// An empty cache under the given selector.
pub open spec fn empty_cache(resource_types: u64) -> CacheView {
    CacheView {
        resource_types,
        members: Map::empty(),
        rosters: Map::empty(),
        memberships: Map::empty(),
        users: Map::empty(),
    }
}

// ---------------------------------------------------------------------------
// One-to-many index operations
// ---------------------------------------------------------------------------

/// The set an index holds for an owner; empty when the owner has no entry.
pub open spec fn entry(idx: Map<u64, Set<u64>>, owner: u64) -> Set<u64> {
    if idx.contains_key(owner) {
        idx[owner]
    } else {
        Set::empty()
    }
}

/// The index with one item added under an owner.
pub open spec fn index_with(idx: Map<u64, Set<u64>>, owner: u64, item: u64) -> Map<u64, Set<u64>> {
    idx.insert(owner, entry(idx, owner).insert(item))
}

/// The index with a whole batch of items added under an owner.
pub open spec fn index_with_all(idx: Map<u64, Set<u64>>, owner: u64, items: Set<u64>) -> Map<
    u64,
    Set<u64>,
> {
    idx.insert(owner, entry(idx, owner).union(items))
}

/// The index with one item removed from an owner's set; when the set
/// becomes empty the owner's entry is dropped entirely.
pub open spec fn index_without(idx: Map<u64, Set<u64>>, owner: u64, item: u64) -> Map<
    u64,
    Set<u64>,
> {
    if idx.contains_key(owner) {
        let s = idx[owner].remove(item);
        if s.is_empty() {
            idx.remove(owner)
        } else {
            idx.insert(owner, s)
        }
    } else {
        idx
    }
}

// ---------------------------------------------------------------------------
// Transitions
// ---------------------------------------------------------------------------

/// Upsert of a user profile, recording one guild association.
pub open spec fn user_cached(c: CacheView, user: UserView, g: u64) -> CacheView {
    CacheView {
        users: c.users.insert(user.id, user),
        memberships: index_with(c.memberships, user.id, g),
        ..c
    }
}

/// Caching one full member payload: a no-op when an identical record is
/// already cached, else an upsert of the embedded user and of the member
/// record, and a roster insertion.
pub open spec fn member_cached(c: CacheView, g: u64, m: MemberPayloadView) -> CacheView {
    let key = (g, m.user.id);
    if c.members.contains_key(key) && member_matches(c.members[key], m) {
        c
    } else {
        let c1 = user_cached(c, m.user, g);
        CacheView {
            members: c1.members.insert(key, member_projection(g, m)),
            rosters: index_with(c1.rosters, g, m.user.id),
            ..c1
        }
    }
}

/// Caching a batch of full member payloads, first to last.
pub open spec fn members_cached(c: CacheView, g: u64, ms: Seq<MemberPayloadView>) -> CacheView
    decreases ms.len(),
{
    if ms.len() == 0 {
        c
    } else {
        members_cached(member_cached(c, g, ms[0]), g, ms.drop_first())
    }
}

/// Caching a batch and then one more member is caching the extended batch.
pub proof fn lemma_members_cached_push(
    c: CacheView,
    g: u64,
    ms: Seq<MemberPayloadView>,
    m: MemberPayloadView,
)
    ensures
        members_cached(c, g, ms.push(m)) == member_cached(members_cached(c, g, ms), g, m),
    decreases ms.len(),
{
    if ms.len() == 0 {
        let c1 = member_cached(c, g, m);
        assert(ms.push(m)[0] == m);
        assert(ms.push(m).drop_first() =~= Seq::<MemberPayloadView>::empty());
        assert(members_cached(c, g, ms.push(m)) == members_cached(c1, g, ms.push(m).drop_first()));
        assert(members_cached(c1, g, ms.push(m).drop_first()) == c1);
        assert(members_cached(c, g, ms) == c);
    } else {
        let c1 = member_cached(c, g, ms[0]);
        assert(ms.push(m)[0] == ms[0]);
        assert(ms.push(m).drop_first() =~= ms.drop_first().push(m));
        lemma_members_cached_push(c1, g, ms.drop_first(), m);
        assert(members_cached(c, g, ms.push(m)) == members_cached(
            c1,
            g,
            ms.drop_first().push(m),
        ));
        assert(members_cached(c, g, ms) == members_cached(c1, g, ms.drop_first()));
    }
}

/// The user ids carried by a batch of member payloads.
pub open spec fn member_ids(ms: Seq<MemberPayloadView>) -> Set<u64> {
    ms.map_values(|m: MemberPayloadView| m.user.id).to_set()
}

/// Effect of a member-add event.
pub open spec fn apply_member_add(c: CacheView, m: MemberPayloadView) -> CacheView {
    if !member_wanted(c) {
        c
    } else {
        let c1 = member_cached(c, m.guild_id, m);
        CacheView { rosters: index_with(c1.rosters, m.guild_id, m.user.id), ..c1 }
    }
}

/// Effect of a member-chunk event: each member is cached in order, then one
/// bulk roster insertion covers the whole batch. An empty batch is a no-op.
pub open spec fn apply_member_chunk(c: CacheView, g: u64, ms: Seq<MemberPayloadView>) -> CacheView {
    if !member_wanted(c) || ms.len() == 0 {
        c
    } else {
        let c1 = members_cached(c, g, ms);
        CacheView { rosters: index_with_all(c1.rosters, g, member_ids(ms)), ..c1 }
    }
}

/// Effect of a member-remove event: the member record goes, the roster and
/// membership indices drop the links, and when the user's membership becomes
/// empty the user record goes too.
pub open spec fn apply_member_remove(c: CacheView, g: u64, u: u64) -> CacheView {
    if !member_wanted(c) {
        c
    } else {
        let cascade = c.memberships.contains_key(u) && c.memberships[u].remove(g).is_empty();
        CacheView {
            members: c.members.remove((g, u)),
            rosters: index_without(c.rosters, g, u),
            memberships: index_without(c.memberships, u, g),
            users: if cascade {
                c.users.remove(u)
            } else {
                c.users
            },
            ..c
        }
    }
}

/// Merge of a member update into a cached record: the voice flags take the
/// new value only when the update supplies one; nickname, role set, pending
/// flag and join timestamp are fully overwritten; the premium timestamp and
/// the key fields are retained.
pub open spec fn merge_update(m: MemberView, up: MemberUpdateView) -> MemberView {
    MemberView {
        deaf: if up.deaf is Some {
            up.deaf
        } else {
            m.deaf
        },
        mute: if up.mute is Some {
            up.mute
        } else {
            m.mute
        },
        joined_at: Some(up.joined_at),
        nick: up.nick,
        pending: up.pending,
        roles: up.roles,
        ..m
    }
}

/// Effect of a member-update event: dropped when no record is cached for
/// the (guild, user) pair, else a merge into the cached record. The indices
/// are never touched.
pub open spec fn apply_member_update(c: CacheView, up: MemberUpdateView) -> CacheView {
    let key = (up.guild_id, up.user.id);
    if !member_wanted(c) || !c.members.contains_key(key) {
        c
    } else {
        CacheView { members: c.members.insert(key, merge_update(c.members[key], up)), ..c }
    }
}

/// Caching a partial member payload for a known user id: a no-op when the
/// cached record already carries the supplied values, else an upsert of the
/// member record and a roster insertion. The pending flag and the premium
/// timestamp are absent from such payloads and are taken over from the
/// prior record, if any. No user data is embedded, so the user table and
/// the membership index are untouched.
pub open spec fn apply_partial_member(
    c: CacheView,
    g: u64,
    m: PartialMemberView,
    u: u64,
) -> CacheView {
    let key = (g, u);
    if c.members.contains_key(key) && partial_member_matches(c.members[key], m) {
        c
    } else {
        let pending = if c.members.contains_key(key) {
            c.members[key].pending
        } else {
            false
        };
        let premium_since = if c.members.contains_key(key) {
            c.members[key].premium_since
        } else {
            None
        };
        CacheView {
            members: c.members.insert(
                key,
                partial_member_projection(g, m, u, pending, premium_since),
            ),
            rosters: index_with(c.rosters, g, u),
            ..c
        }
    }
}

/// Caching a member payload embedded in an interaction: a no-op when the
/// cached record already carries the supplied values, else an upsert that
/// takes the voice flags and the pending flag over from the prior record,
/// if any.
pub open spec fn apply_interaction_member(
    c: CacheView,
    g: u64,
    m: InteractionMemberView,
) -> CacheView {
    let key = (g, m.id);
    if c.members.contains_key(key) && interaction_member_matches(c.members[key], m) {
        c
    } else {
        let deaf = if c.members.contains_key(key) {
            c.members[key].deaf
        } else {
            None
        };
        let mute = if c.members.contains_key(key) {
            c.members[key].mute
        } else {
            None
        };
        let pending = if c.members.contains_key(key) {
            c.members[key].pending
        } else {
            false
        };
        CacheView {
            members: c.members.insert(
                key,
                interaction_member_projection(g, m, deaf, mute, pending),
            ),
            rosters: index_with(c.rosters, g, m.id),
            ..c
        }
    }
}

// ---------------------------------------------------------------------------
// The cross-table invariant
// ---------------------------------------------------------------------------

/// The invariant of every reachable cache state:
/// a member record exists at (g, u) exactly when the roster of g lists u;
/// a user record exists exactly when the membership index has an entry,
/// and index entries are never empty; member records carry their own key.
pub open spec fn inv(c: CacheView) -> bool {
    &&& forall|k: (u64, u64)| #[trigger]
        c.members.contains_key(k) ==> c.rosters.contains_key(k.0) && c.rosters[k.0].contains(k.1)
    &&& forall|g: u64, u: u64|
        c.rosters.contains_key(g) && #[trigger] c.rosters[g].contains(u)
            ==> c.members.contains_key((g, u))
    &&& forall|k: (u64, u64)| #[trigger]
        c.members.contains_key(k) ==> c.members[k].guild_id == k.0 && c.members[k].user_id == k.1
    &&& forall|g: u64| #[trigger] c.rosters.contains_key(g) ==> !c.rosters[g].is_empty()
    &&& forall|u: u64| #[trigger] c.users.contains_key(u) ==> c.memberships.contains_key(u)
    &&& forall|u: u64| #[trigger] c.memberships.contains_key(u) ==> c.users.contains_key(u)
    &&& forall|u: u64| #[trigger] c.memberships.contains_key(u) ==> !c.memberships[u].is_empty()
}

/// The roster of a guild; empty when the guild has no entry.
pub open spec fn roster_of(c: CacheView, g: u64) -> Set<u64> {
    entry(c.rosters, g)
}

/// The guilds a user belongs to; empty when the user has no entry.
pub open spec fn membership_of(c: CacheView, u: u64) -> Set<u64> {
    entry(c.memberships, u)
}

/// The empty cache satisfies the invariant.
pub proof fn lemma_empty_inv(resource_types: u64)
    ensures
        inv(empty_cache(resource_types)),
{
}

// ---------------------------------------------------------------------------
// Invariant preservation
// ---------------------------------------------------------------------------

/// Caching a user profile preserves the invariant.
pub proof fn lemma_user_cached_inv(c: CacheView, user: UserView, g: u64)
    requires
        inv(c),
    ensures
        inv(user_cached(c, user, g)),
{
}

/// Caching a full member payload preserves the invariant.
pub proof fn lemma_member_cached_inv(c: CacheView, g: u64, m: MemberPayloadView)
    requires
        inv(c),
    ensures
        inv(member_cached(c, g, m)),
{
}

/// Caching a batch of full member payloads preserves the invariant.
pub proof fn lemma_members_cached_inv(c: CacheView, g: u64, ms: Seq<MemberPayloadView>)
    requires
        inv(c),
    ensures
        inv(members_cached(c, g, ms)),
    decreases ms.len(),
{
    if ms.len() > 0 {
        lemma_member_cached_inv(c, g, ms[0]);
        lemma_members_cached_inv(member_cached(c, g, ms[0]), g, ms.drop_first());
    }
}

/// A member-add event preserves the invariant.
pub proof fn lemma_member_add_inv(c: CacheView, m: MemberPayloadView)
    requires
        inv(c),
    ensures
        inv(apply_member_add(c, m)),
{
    if member_wanted(c) {
        lemma_member_cached_inv(c, m.guild_id, m);
    }
}

/// A member-remove event preserves the invariant.
pub proof fn lemma_member_remove_inv(c: CacheView, g: u64, u: u64)
    requires
        inv(c),
    ensures
        inv(apply_member_remove(c, g, u)),
{
}

/// A member-update event preserves the invariant.
pub proof fn lemma_member_update_inv(c: CacheView, up: MemberUpdateView)
    requires
        inv(c),
    ensures
        inv(apply_member_update(c, up)),
{
}

/// Caching a partial member payload preserves the invariant.
pub proof fn lemma_partial_member_inv(c: CacheView, g: u64, m: PartialMemberView, u: u64)
    requires
        inv(c),
    ensures
        inv(apply_partial_member(c, g, m, u)),
{
}

/// Caching an interaction member payload preserves the invariant.
pub proof fn lemma_interaction_member_inv(c: CacheView, g: u64, m: InteractionMemberView)
    requires
        inv(c),
    ensures
        inv(apply_interaction_member(c, g, m)),
{
}

/// Every member a batch carries has a record once the batch is cached, and
/// caching a batch never drops records, never touches other guilds' roster
/// entries, and only grows the roster of the batch's guild by ids of the
/// batch.
pub proof fn lemma_members_cached_facts(c: CacheView, g: u64, ms: Seq<MemberPayloadView>)
    ensures
        forall|k: (u64, u64)| #[trigger]
            c.members.contains_key(k) ==> members_cached(c, g, ms).members.contains_key(k),
        forall|i: int|
            0 <= i < ms.len() ==> members_cached(c, g, ms).members.contains_key(
                (g, ms[i].user.id),
            ),
        forall|g2: u64| #![trigger members_cached(c, g, ms).rosters.contains_key(g2)]
            g2 != g ==> members_cached(c, g, ms).rosters.contains_key(g2)
                == c.rosters.contains_key(g2),
        forall|g2: u64| #![trigger members_cached(c, g, ms).rosters[g2]]
            g2 != g && c.rosters.contains_key(g2) ==> members_cached(c, g, ms).rosters[g2]
                == c.rosters[g2],
        entry(c.rosters, g).subset_of(entry(members_cached(c, g, ms).rosters, g)),
        entry(members_cached(c, g, ms).rosters, g).subset_of(
            entry(c.rosters, g).union(member_ids(ms)),
        ),
        members_cached(c, g, ms).resource_types == c.resource_types,
    decreases ms.len(),
{
    if ms.len() > 0 {
        let c1 = member_cached(c, g, ms[0]);
        lemma_members_cached_facts(c1, g, ms.drop_first());
        assert(forall|k: (u64, u64)| #[trigger]
            c.members.contains_key(k) ==> c1.members.contains_key(k));
        assert(forall|g2: u64|
            g2 != g ==> (c1.rosters.contains_key(g2) == c.rosters.contains_key(g2)) && (
            c.rosters.contains_key(g2) ==> c1.rosters[g2] == c.rosters[g2]));
        let r = members_cached(c1, g, ms.drop_first());
        assert(members_cached(c, g, ms) == r);
        assert forall|g2: u64| g2 != g implies r.rosters.contains_key(g2)
            == c.rosters.contains_key(g2) by {
            assert(r.rosters.contains_key(g2) == c1.rosters.contains_key(g2));
        }
        assert forall|g2: u64| g2 != g && c.rosters.contains_key(g2) implies r.rosters[g2]
            == c.rosters[g2] by {
            assert(r.rosters[g2] == c1.rosters[g2]);
        }
        assert forall|i: int| 0 <= i < ms.len() implies members_cached(
            c,
            g,
            ms,
        ).members.contains_key((g, ms[i].user.id)) by {
            if i == 0 {
                assert(c1.members.contains_key((g, ms[0].user.id)));
            } else {
                assert(ms.drop_first()[i - 1] == ms[i]);
            }
        }
        assert forall|x: u64|
            entry(members_cached(c, g, ms).rosters, g).contains(x) implies entry(
            c.rosters,
            g,
        ).union(member_ids(ms)).contains(x) by {
            if entry(c1.rosters, g).union(member_ids(ms.drop_first())).contains(x) {
                if member_ids(ms.drop_first()).contains(x) {
                    let vs = ms.drop_first().map_values(|m: MemberPayloadView| m.user.id);
                    let j = choose|j: int| 0 <= j < vs.len() && vs[j] == x;
                    assert(ms.map_values(|m: MemberPayloadView| m.user.id)[j + 1] == x);
                    assert(member_ids(ms).contains(x));
                } else {
                    assert(entry(c1.rosters, g).contains(x));
                    if !entry(c.rosters, g).contains(x) {
                        assert(x == ms[0].user.id);
                        assert(ms.map_values(|m: MemberPayloadView| m.user.id)[0] == x);
                        assert(member_ids(ms).contains(x));
                    }
                }
            }
        }
    }
}

/// A member-chunk event preserves the invariant.
pub proof fn lemma_member_chunk_inv(c: CacheView, g: u64, ms: Seq<MemberPayloadView>)
    requires
        inv(c),
    ensures
        inv(apply_member_chunk(c, g, ms)),
{
    if member_wanted(c) && ms.len() > 0 {
        let c1 = members_cached(c, g, ms);
        lemma_members_cached_inv(c, g, ms);
        lemma_members_cached_facts(c, g, ms);
        let r = apply_member_chunk(c, g, ms);
        assert forall|g2: u64, u: u64|
            r.rosters.contains_key(g2) && #[trigger] r.rosters[g2].contains(u) implies
            r.members.contains_key((g2, u)) by {
            if g2 == g {
                if entry(c1.rosters, g).contains(u) {
                    assert(c1.members.contains_key((g, u)));
                } else {
                    assert(member_ids(ms).contains(u));
                    let vs = ms.map_values(|m: MemberPayloadView| m.user.id);
                    let j = choose|j: int| 0 <= j < vs.len() && vs[j] == u;
                    assert(c1.members.contains_key((g, ms[j].user.id)));
                }
            }
        }
        assert forall|g2: u64| #[trigger] r.rosters.contains_key(g2) implies !r.rosters[g2].is_empty() by {
            if g2 == g {
                let vs = ms.map_values(|m: MemberPayloadView| m.user.id);
                assert(vs[0] == ms[0].user.id);
                assert(member_ids(ms).contains(ms[0].user.id));
                assert(r.rosters[g].contains(ms[0].user.id));
            }
        }
    }
}

} // verus!
