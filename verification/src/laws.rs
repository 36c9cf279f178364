//! Laws of the cache, proved over its mathematical model: idempotency of
//! adds and updates, the meaning of the cross-table invariant, cascade
//! deletion, merge semantics of partial updates, equivalence of bulk and
//! one-at-a-time insertion, and the unknown-update no-op.

use vstd::prelude::*;

use crate::event::MemberUpdateView;
use crate::model::{member_matches, MemberPayloadView, MemberView};
use crate::state::{
    apply_member_add, apply_member_chunk, apply_member_remove, apply_member_update, entry,
    index_with, index_with_all, inv, lemma_members_cached_facts, member_cached, member_ids,
    member_wanted, members_cached, membership_of, merge_update, roster_of, CacheView,
};

verus! {

// ---------------------------------------------------------------------------
// Idempotency
// ---------------------------------------------------------------------------

/// Re-applying an identical member-add event mutates nothing: the state
/// after two applications equals the state after one.
pub proof fn lemma_member_add_idempotent(c: CacheView, m: MemberPayloadView)
    ensures
        apply_member_add(apply_member_add(c, m), m) == apply_member_add(c, m),
{
    if member_wanted(c) {
        let g = m.guild_id;
        let u = m.user.id;
        let c1 = apply_member_add(c, m);
        assert(c1.members.contains_key((g, u)));
        assert(member_matches(c1.members[(g, u)], m));
        assert(member_cached(c1, g, m) == c1);
        assert(c1.rosters.contains_key(g) && c1.rosters[g].contains(u));
        assert(c1.rosters[g].insert(u) =~= c1.rosters[g]);
        assert(index_with(c1.rosters, g, u) =~= c1.rosters);
        assert(apply_member_add(c1, m) == c1);
    }
}

/// Re-applying an identical member-update event mutates nothing.
pub proof fn lemma_member_update_idempotent(c: CacheView, up: MemberUpdateView)
    ensures
        apply_member_update(apply_member_update(c, up), up) == apply_member_update(c, up),
{
    let key = (up.guild_id, up.user.id);
    if member_wanted(c) && c.members.contains_key(key) {
        let c1 = apply_member_update(c, up);
        let m1 = c1.members[key];
        assert(merge_update(m1, up) == m1);
        assert(c1.members.insert(key, m1) =~= c1.members);
        assert(apply_member_update(c1, up) == c1);
    }
}

// ---------------------------------------------------------------------------
// What the invariant says of the queries
// ---------------------------------------------------------------------------

/// In every state satisfying the invariant, a user's membership set is
/// non-empty exactly when the user record is present, and a guild's roster
/// lists a user exactly when the member record is present.
pub proof fn lemma_inv_characterization(c: CacheView)
    requires
        inv(c),
    ensures
        forall|u: u64| !(#[trigger] membership_of(c, u)).is_empty() <==> c.users.contains_key(u),
        forall|g: u64, u: u64| #[trigger]
            roster_of(c, g).contains(u) <==> c.members.contains_key((g, u)),
{
    assert forall|u: u64| !(#[trigger] membership_of(c, u)).is_empty() implies
        c.users.contains_key(u) by {
        assert(c.memberships.contains_key(u));
    }
}

// ---------------------------------------------------------------------------
// Cascade deletion
// ---------------------------------------------------------------------------

/// A user in exactly two guilds: removing the first membership keeps the
/// user record and leaves exactly the second guild; removing the second
/// then drops the membership entry and the user record with it.
pub proof fn lemma_remove_cascade(c: CacheView, g_a: u64, g_b: u64, u: u64)
    requires
        inv(c),
        member_wanted(c),
        g_a != g_b,
        membership_of(c, u) == set![g_a, g_b],
    ensures
        apply_member_remove(c, g_a, u).users.contains_key(u),
        membership_of(apply_member_remove(c, g_a, u), u) == set![g_b],
        !apply_member_remove(apply_member_remove(c, g_a, u), g_b, u).users.contains_key(u),
        membership_of(apply_member_remove(apply_member_remove(c, g_a, u), g_b, u), u).is_empty(),
{
    assert(set![g_a, g_b].contains(g_a));
    assert(c.memberships.contains_key(u)) by {
        if !c.memberships.contains_key(u) {
            assert(membership_of(c, u) == Set::<u64>::empty());
            assert(!Set::<u64>::empty().contains(g_a));
        }
    }
    assert(c.memberships[u].remove(g_a) =~= set![g_b]);
    assert(set![g_b].contains(g_b));
    assert(!c.memberships[u].remove(g_a).is_empty());
    let c1 = apply_member_remove(c, g_a, u);
    assert(c1.users.contains_key(u));
    assert(c1.memberships.contains_key(u) && c1.memberships[u] == set![g_b]);
    assert(c1.memberships[u].remove(g_b) =~= Set::<u64>::empty());
    assert(c1.memberships[u].remove(g_b).is_empty());
    let c2 = apply_member_remove(c1, g_b, u);
    assert(!c2.memberships.contains_key(u));
    assert(membership_of(c2, u).is_empty());
    assert(!c2.users.contains_key(u));
}

// ---------------------------------------------------------------------------
// Merge semantics of partial updates
// ---------------------------------------------------------------------------

/// A merge takes the voice flags from the update only when it supplies
/// them, keeps the premium timestamp and the key fields, and overwrites
/// nickname, role set, pending flag and join timestamp.
pub proof fn lemma_merge_update_fields(m: MemberView, up: MemberUpdateView)
    ensures
        up.deaf is None ==> merge_update(m, up).deaf == m.deaf,
        up.deaf is Some ==> merge_update(m, up).deaf == up.deaf,
        up.mute is None ==> merge_update(m, up).mute == m.mute,
        up.mute is Some ==> merge_update(m, up).mute == up.mute,
        merge_update(m, up).premium_since == m.premium_since,
        merge_update(m, up).guild_id == m.guild_id,
        merge_update(m, up).user_id == m.user_id,
        merge_update(m, up).nick == up.nick,
        merge_update(m, up).roles == up.roles,
        merge_update(m, up).pending == up.pending,
        merge_update(m, up).joined_at == Some(up.joined_at),
{
}

// ---------------------------------------------------------------------------
// Unknown updates
// ---------------------------------------------------------------------------

/// An update for a (guild, user) pair that was never added leaves the
/// state unchanged and creates nothing.
pub proof fn lemma_member_update_unknown_no_op(c: CacheView, up: MemberUpdateView)
    requires
        !c.members.contains_key((up.guild_id, up.user.id)),
    ensures
        apply_member_update(c, up) == c,
{
}

// ---------------------------------------------------------------------------
// Bulk equivalence
// ---------------------------------------------------------------------------

/// The state reached by applying one member-add event per payload, first
/// to last.
pub open spec fn member_adds_applied(c: CacheView, ms: Seq<MemberPayloadView>) -> CacheView
    decreases ms.len(),
{
    if ms.len() == 0 {
        c
    } else {
        member_adds_applied(apply_member_add(c, ms[0]), ms.drop_first())
    }
}

/// With members ungated, one-at-a-time adds change nothing.
proof fn lemma_member_adds_ungated(c: CacheView, ms: Seq<MemberPayloadView>)
    requires
        !member_wanted(c),
    ensures
        member_adds_applied(c, ms) == c,
    decreases ms.len(),
{
    if ms.len() > 0 {
        lemma_member_adds_ungated(c, ms.drop_first());
    }
}

/// Caching one payload treats two states alike on every table but the
/// roster index, whenever they agree on those tables.
proof fn lemma_member_cached_tables(c1: CacheView, c2: CacheView, g: u64, m: MemberPayloadView)
    requires
        c1.members == c2.members,
        c1.users == c2.users,
        c1.memberships == c2.memberships,
        c1.resource_types == c2.resource_types,
    ensures
        member_cached(c1, g, m).members == member_cached(c2, g, m).members,
        member_cached(c1, g, m).users == member_cached(c2, g, m).users,
        member_cached(c1, g, m).memberships == member_cached(c2, g, m).memberships,
        member_cached(c1, g, m).resource_types == member_cached(c2, g, m).resource_types,
{
}

/// One-at-a-time adds and batch caching agree on every table but the
/// roster index.
proof fn lemma_adds_vs_cached_tables(
    c1: CacheView,
    c2: CacheView,
    g: u64,
    ms: Seq<MemberPayloadView>,
)
    requires
        member_wanted(c1),
        forall|i: int| 0 <= i < ms.len() ==> ms[i].guild_id == g,
        c1.members == c2.members,
        c1.users == c2.users,
        c1.memberships == c2.memberships,
        c1.resource_types == c2.resource_types,
    ensures
        member_adds_applied(c1, ms).members == members_cached(c2, g, ms).members,
        member_adds_applied(c1, ms).users == members_cached(c2, g, ms).users,
        member_adds_applied(c1, ms).memberships == members_cached(c2, g, ms).memberships,
        member_adds_applied(c1, ms).resource_types == members_cached(c2, g, ms).resource_types,
    decreases ms.len(),
{
    if ms.len() > 0 {
        let m = ms[0];
        lemma_member_cached_tables(c1, c2, g, m);
        let ca = apply_member_add(c1, m);
        let cc = member_cached(c2, g, m);
        assert(ca.members == cc.members);
        assert(ca.users == cc.users);
        assert(ca.memberships == cc.memberships);
        assert(ca.resource_types == cc.resource_types);
        lemma_adds_vs_cached_tables(ca, cc, g, ms.drop_first());
    }
}

/// The user ids of a non-empty batch are the first payload's id together
/// with the ids of the rest.
proof fn lemma_member_ids_cons(ms: Seq<MemberPayloadView>)
    requires
        ms.len() > 0,
    ensures
        member_ids(ms) == member_ids(ms.drop_first()).insert(ms[0].user.id),
{
    let f = |m: MemberPayloadView| m.user.id;
    let vs = ms.map_values(f);
    let vs1 = ms.drop_first().map_values(f);
    assert(vs1 =~= vs.drop_first());
    assert forall|x: u64| vs.to_set().contains(x) implies vs1.to_set().insert(
        ms[0].user.id,
    ).contains(x) by {
        let j = choose|j: int| 0 <= j < vs.len() && vs[j] == x;
        if j > 0 {
            assert(vs1[j - 1] == x);
            assert(vs1.contains(x));
        }
    }
    assert forall|x: u64| vs1.to_set().insert(ms[0].user.id).contains(x) implies
        vs.to_set().contains(x) by {
        if x == ms[0].user.id {
            assert(vs[0] == x);
            assert(vs.contains(x));
        } else {
            let j = choose|j: int| 0 <= j < vs1.len() && vs1[j] == x;
            assert(vs[j + 1] == x);
            assert(vs.contains(x));
        }
    }
    assert(member_ids(ms) =~= member_ids(ms.drop_first()).insert(ms[0].user.id));
}

/// One-at-a-time adds leave the roster index as one bulk insertion of all
/// the batch's ids would.
proof fn lemma_adds_rosters(c: CacheView, g: u64, ms: Seq<MemberPayloadView>)
    requires
        member_wanted(c),
        ms.len() > 0,
        forall|i: int| 0 <= i < ms.len() ==> ms[i].guild_id == g,
    ensures
        member_adds_applied(c, ms).rosters == index_with_all(c.rosters, g, member_ids(ms)),
    decreases ms.len(),
{
    let m = ms[0];
    let u = m.user.id;
    let ca = apply_member_add(c, m);
    assert(ca.rosters =~= index_with(c.rosters, g, u)) by {
        let mc = member_cached(c, g, m);
        if c.members.contains_key((g, u)) && member_matches(c.members[(g, u)], m) {
            assert(mc.rosters == c.rosters);
        } else {
            assert(mc.rosters == index_with(c.rosters, g, u));
            assert(entry(mc.rosters, g).contains(u));
            assert(entry(mc.rosters, g).insert(u) =~= entry(mc.rosters, g));
            assert(index_with(mc.rosters, g, u) =~= mc.rosters);
        }
    }
    lemma_member_ids_cons(ms);
    if ms.len() == 1 {
        assert(member_adds_applied(ca, ms.drop_first()) == ca);
        assert(member_ids(ms.drop_first()) =~= Set::<u64>::empty()) by {
            assert(ms.drop_first().map_values(|mm: MemberPayloadView| mm.user.id).len() == 0);
        }
        assert(index_with_all(c.rosters, g, member_ids(ms)) =~= index_with(c.rosters, g, u)) by {
            assert(entry(c.rosters, g).union(member_ids(ms)) =~= entry(c.rosters, g).insert(u));
        }
    } else {
        lemma_adds_rosters(ca, g, ms.drop_first());
        assert(member_adds_applied(c, ms).rosters == index_with_all(
            ca.rosters,
            g,
            member_ids(ms.drop_first()),
        ));
        assert(index_with_all(index_with(c.rosters, g, u), g, member_ids(ms.drop_first())) =~=
            index_with_all(c.rosters, g, member_ids(ms))) by {
            assert(entry(index_with(c.rosters, g, u), g) =~= entry(c.rosters, g).insert(u));
            assert(entry(c.rosters, g).insert(u).union(member_ids(ms.drop_first())) =~= entry(
                c.rosters,
                g,
            ).union(member_ids(ms)));
        }
    }
}

/// Bulk equivalence: a member-chunk event yields exactly the state that
/// adding its members one at a time, in the same order, would yield.
///
/// The hypothesis says each payload names the batch's guild. An add event
/// takes its guild from its payload, so every add event built from a
/// chunk's members satisfies it; a payload naming another guild would be
/// cached under that other guild by a one-at-a-time add, and the law
/// would not hold.
pub proof fn lemma_bulk_equivalence(c: CacheView, g: u64, ms: Seq<MemberPayloadView>)
    requires
        forall|i: int| 0 <= i < ms.len() ==> ms[i].guild_id == g,
    ensures
        apply_member_chunk(c, g, ms) == member_adds_applied(c, ms),
{
    if !member_wanted(c) {
        lemma_member_adds_ungated(c, ms);
    } else if ms.len() == 0 {
    } else {
        let fold = member_adds_applied(c, ms);
        let chunk = apply_member_chunk(c, g, ms);
        let cc = members_cached(c, g, ms);
        lemma_adds_vs_cached_tables(c, c, g, ms);
        lemma_adds_rosters(c, g, ms);
        lemma_members_cached_facts(c, g, ms);
        assert(chunk.rosters =~= index_with_all(c.rosters, g, member_ids(ms))) by {
            assert(entry(cc.rosters, g).union(member_ids(ms)) =~= entry(c.rosters, g).union(
                member_ids(ms),
            ));
            assert forall|g2: u64| #[trigger] chunk.rosters.contains_key(g2) implies
                index_with_all(c.rosters, g, member_ids(ms)).contains_key(g2) by {
                if g2 != g {
                    assert(cc.rosters.contains_key(g2) == c.rosters.contains_key(g2));
                }
            }
            assert forall|g2: u64| #[trigger]
                index_with_all(c.rosters, g, member_ids(ms)).contains_key(g2) implies
                chunk.rosters.contains_key(g2) by {
                if g2 != g {
                    assert(cc.rosters.contains_key(g2) == c.rosters.contains_key(g2));
                }
            }
            assert forall|g2: u64|
                #![trigger chunk.rosters[g2]]
                chunk.rosters.contains_key(g2) && g2 != g implies chunk.rosters[g2]
                == index_with_all(c.rosters, g, member_ids(ms))[g2] by {
                assert(cc.rosters.contains_key(g2) == c.rosters.contains_key(g2));
                assert(cc.rosters[g2] == c.rosters[g2]);
            }
        }
        assert(fold.members == chunk.members);
        assert(fold.users == chunk.users);
        assert(fold.memberships == chunk.memberships);
        assert(fold.resource_types == chunk.resource_types);
        assert(fold.rosters == chunk.rosters);
    }
}

} // verus!
