use chat_mirror::cache::InMemoryCache;
use chat_mirror::config::{Config, ResourceType};
use chat_mirror::event::{MemberAdd, MemberChunk, MemberRemove, MemberUpdate};
use chat_mirror::ids::{GuildId, RoleId, UserId};
use chat_mirror::model::{InteractionMember, Member, PartialMember, User};

fn user(id: UserId) -> User {
    User {
        id,
        name: "user".to_owned(),
        discriminator: "0001".to_owned(),
        avatar: None,
    }
}

fn member(id: UserId, guild_id: GuildId) -> Member {
    Member {
        deaf: false,
        guild_id,
        joined_at: None,
        mute: false,
        nick: None,
        pending: false,
        premium_since: None,
        roles: Vec::new(),
        user: user(id),
    }
}

#[test]
fn test_cache_guild_member() {
    let mut cache = InMemoryCache::new();

    // Single inserts
    {
        let guild_1_user_ids = (1..=10).map(UserId).collect::<Vec<_>>();
        let guild_1_members = guild_1_user_ids
            .iter()
            .copied()
            .map(|id| member(id, GuildId(1)))
            .collect::<Vec<_>>();

        for m in &guild_1_members {
            cache.cache_member(GuildId(1), m);
        }

        // Check for the cached guild members ids
        let cached_roles = cache.guild_members(GuildId(1)).unwrap();
        assert_eq!(cached_roles.len(), guild_1_user_ids.len());
        assert!(guild_1_user_ids.iter().all(|id| cached_roles.contains(&id.0)));

        // Check for the cached members
        assert!(guild_1_user_ids
            .iter()
            .all(|id| cache.member(GuildId(1), *id).is_some()));

        // Check for the cached users
        assert!(guild_1_user_ids.iter().all(|id| cache.user(*id).is_some()));
    }

    // Bulk inserts
    {
        let guild_2_user_ids = (1..=10).map(UserId).collect::<Vec<_>>();
        let guild_2_members = guild_2_user_ids
            .iter()
            .copied()
            .map(|id| member(id, GuildId(2)))
            .collect::<Vec<_>>();
        cache.cache_members(GuildId(2), &guild_2_members);

        // Check for the cached guild members ids
        let cached_roles = cache.guild_members(GuildId(1)).unwrap();
        assert_eq!(cached_roles.len(), guild_2_user_ids.len());
        assert!(guild_2_user_ids.iter().all(|id| cached_roles.contains(&id.0)));

        // Check for the cached members
        assert!(guild_2_user_ids
            .iter()
            .copied()
            .all(|id| cache.member(GuildId(1), id).is_some()));

        // Check for the cached users
        assert!(guild_2_user_ids.iter().all(|id| cache.user(*id).is_some()));
    }
}

#[test]
fn test_cache_user_guild_state() {
    let user_id = UserId(2);
    let mut cache = InMemoryCache::new();
    cache.cache_user(&user(user_id), GuildId(1));

    // Test the guild's ID is the only one in the user's set of guilds.
    {
        let user_guilds = cache.user_guilds(user_id).unwrap();
        assert!(user_guilds.contains(&1));
        assert_eq!(1, user_guilds.len());
    }

    // Test that a second guild will cause 2 in the set.
    cache.cache_user(&user(user_id), GuildId(3));

    {
        let user_guilds = cache.user_guilds(user_id).unwrap();
        assert!(user_guilds.contains(&3));
        assert_eq!(2, user_guilds.len());
    }

    // Test that removing a user from a guild will cause the ID to be
    // removed from the set, leaving the other ID.
    cache.update(&MemberRemove {
        guild_id: GuildId(3),
        user: user(user_id),
    });

    {
        let user_guilds = cache.user_guilds(user_id).unwrap();
        assert!(!user_guilds.contains(&3));
        assert_eq!(1, user_guilds.len());
    }

    // Test that removing the user from its last guild removes the user's
    // entry.
    cache.update(&MemberRemove {
        guild_id: GuildId(1),
        user: user(user_id),
    });
    assert!(cache.user(user_id).is_none());
}

#[test]
fn test_member_add_idempotent() {
    let mut cache = InMemoryCache::new();
    let event = MemberAdd(member(UserId(7), GuildId(4)));
    cache.update(&event);
    cache.update(&event);

    let roster = cache.guild_members(GuildId(4)).unwrap();
    assert_eq!(1, roster.len());
    assert!(roster.contains(&7));
    let cached = cache.member(GuildId(4), UserId(7)).unwrap();
    assert_eq!(Some(false), cached.deaf);
    assert_eq!(Some(false), cached.mute);
    assert!(cache.user(UserId(7)).is_some());
}

#[test]
fn test_member_update_partial_merge() {
    let mut cache = InMemoryCache::new();
    let mut payload = member(UserId(5), GuildId(9));
    payload.mute = true;
    payload.deaf = false;
    cache.cache_member(GuildId(9), &payload);

    // The update supplies only the deaf flag; the mute flag is retained.
    cache.update(&MemberUpdate {
        guild_id: GuildId(9),
        deaf: Some(true),
        joined_at: "2021-01-01T00:00:00+00:00".to_owned(),
        mute: None,
        nick: Some("nickname".to_owned()),
        pending: true,
        premium_since: None,
        roles: vec![RoleId(12)],
        user: user(UserId(5)),
    });

    let cached = cache.member(GuildId(9), UserId(5)).unwrap();
    assert_eq!(Some(true), cached.mute);
    assert_eq!(Some(true), cached.deaf);
    assert_eq!(Some("nickname".to_owned()), cached.nick);
    assert_eq!(vec![RoleId(12)], cached.roles);
    assert!(cached.pending);
    assert_eq!(Some("2021-01-01T00:00:00+00:00".to_owned()), cached.joined_at);
}

#[test]
fn test_member_update_unknown_pair_is_dropped() {
    let mut cache = InMemoryCache::new();
    cache.update(&MemberUpdate {
        guild_id: GuildId(1),
        deaf: Some(true),
        joined_at: "2021-01-01T00:00:00+00:00".to_owned(),
        mute: Some(true),
        nick: None,
        pending: false,
        premium_since: None,
        roles: Vec::new(),
        user: user(UserId(1)),
    });

    assert!(cache.member(GuildId(1), UserId(1)).is_none());
    assert!(cache.user(UserId(1)).is_none());
    assert!(cache.guild_members(GuildId(1)).is_none());
    assert!(cache.user_guilds(UserId(1)).is_none());
}

#[test]
fn test_member_remove_cascades_to_user() {
    let mut cache = InMemoryCache::new();
    let id = UserId(11);
    cache.cache_member(GuildId(1), &member(id, GuildId(1)));
    cache.cache_member(GuildId(2), &member(id, GuildId(2)));

    cache.update(&MemberRemove {
        guild_id: GuildId(1),
        user: user(id),
    });
    assert!(cache.user(id).is_some());
    let guilds = cache.user_guilds(id).unwrap();
    assert_eq!(1, guilds.len());
    assert!(guilds.contains(&2));
    assert!(cache.member(GuildId(1), id).is_none());
    assert!(cache.guild_members(GuildId(1)).is_none());

    cache.update(&MemberRemove {
        guild_id: GuildId(2),
        user: user(id),
    });
    assert!(cache.user(id).is_none());
    assert!(cache.user_guilds(id).is_none());
    assert!(cache.member(GuildId(2), id).is_none());
}

#[test]
fn test_member_chunk_matches_single_adds() {
    let ids = [21, 22, 23];
    let mut bulk = InMemoryCache::new();
    bulk.update(&MemberChunk {
        guild_id: GuildId(6),
        members: ids.iter().map(|i| member(UserId(*i), GuildId(6))).collect(),
    });

    let mut single = InMemoryCache::new();
    for i in &ids {
        single.update(&MemberAdd(member(UserId(*i), GuildId(6))));
    }

    let bulk_roster = bulk.guild_members(GuildId(6)).unwrap();
    let single_roster = single.guild_members(GuildId(6)).unwrap();
    assert_eq!(bulk_roster, single_roster);
    for i in &ids {
        let a = bulk.member(GuildId(6), UserId(*i)).unwrap();
        let b = single.member(GuildId(6), UserId(*i)).unwrap();
        assert_eq!(a.nick, b.nick);
        assert_eq!(a.deaf, b.deaf);
        assert_eq!(a.mute, b.mute);
        assert_eq!(a.roles, b.roles);
        assert_eq!(bulk.user_guilds(UserId(*i)), single.user_guilds(UserId(*i)));
    }
}

#[test]
fn test_member_chunk_empty_is_no_op() {
    let mut cache = InMemoryCache::new();
    cache.update(&MemberChunk {
        guild_id: GuildId(6),
        members: Vec::new(),
    });
    assert!(cache.guild_members(GuildId(6)).is_none());
}

#[test]
fn test_partial_member_creates_record_without_user() {
    let mut cache = InMemoryCache::new();
    cache.cache_borrowed_partial_member(
        GuildId(8),
        &PartialMember {
            deaf: true,
            joined_at: Some("2021-02-02T00:00:00+00:00".to_owned()),
            mute: false,
            nick: Some("nick".to_owned()),
            roles: vec![RoleId(3)],
        },
        UserId(30),
    );

    let cached = cache.member(GuildId(8), UserId(30)).unwrap();
    assert_eq!(Some(true), cached.deaf);
    assert_eq!(Some(false), cached.mute);
    assert_eq!(Some("nick".to_owned()), cached.nick);
    assert!(!cached.pending);
    assert_eq!(None, cached.premium_since);
    let roster = cache.guild_members(GuildId(8)).unwrap();
    assert!(roster.contains(&30));
    // Partial payloads embed no user data, so no user record appears.
    assert!(cache.user(UserId(30)).is_none());
}

#[test]
fn test_partial_member_keeps_pending_and_premium() {
    let mut cache = InMemoryCache::new();
    let mut payload = member(UserId(31), GuildId(8));
    payload.pending = true;
    payload.premium_since = Some("2020-06-01T00:00:00+00:00".to_owned());
    cache.cache_member(GuildId(8), &payload);

    // The partial payload carries neither the pending flag nor the premium
    // timestamp; the prior record's values survive the overwrite.
    cache.cache_borrowed_partial_member(
        GuildId(8),
        &PartialMember {
            deaf: false,
            joined_at: None,
            mute: false,
            nick: Some("changed".to_owned()),
            roles: Vec::new(),
        },
        UserId(31),
    );

    let cached = cache.member(GuildId(8), UserId(31)).unwrap();
    assert_eq!(Some("changed".to_owned()), cached.nick);
    assert!(cached.pending);
    assert_eq!(
        Some("2020-06-01T00:00:00+00:00".to_owned()),
        cached.premium_since
    );
}

#[test]
fn test_interaction_member_keeps_voice_flags() {
    let mut cache = InMemoryCache::new();
    let mut payload = member(UserId(40), GuildId(8));
    payload.deaf = true;
    payload.mute = true;
    payload.pending = true;
    cache.cache_member(GuildId(8), &payload);

    cache.cache_borrowed_interaction_member(
        GuildId(8),
        &InteractionMember {
            id: UserId(40),
            joined_at: None,
            nick: Some("other".to_owned()),
            premium_since: None,
            roles: Vec::new(),
        },
    );

    let cached = cache.member(GuildId(8), UserId(40)).unwrap();
    // The interaction payload carries neither the voice flags nor the
    // pending flag; the prior values stay.
    assert_eq!(Some(true), cached.deaf);
    assert_eq!(Some(true), cached.mute);
    assert!(cached.pending);
    assert_eq!(Some("other".to_owned()), cached.nick);
}

#[test]
fn test_ungated_member_events_are_dropped() {
    // A selector without the member flag drops every member event.
    let mut cache = InMemoryCache::with_config(Config {
        resource_types: ResourceType::Message.mask(),
    });
    cache.update(&MemberAdd(member(UserId(3), GuildId(2))));
    assert!(cache.member(GuildId(2), UserId(3)).is_none());
    assert!(cache.guild_members(GuildId(2)).is_none());
    assert!(cache.user(UserId(3)).is_none());
}
