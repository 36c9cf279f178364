use chat_mirror::command::{CommandType, CreateGlobalMessageCommand};
use chat_mirror::ids::{ApplicationId, ChannelId, GuildId, UserId};
use chat_mirror::invite::{InviteCreate, PartialUser};

#[test]
fn test_invite_create_fields() {
    let value = InviteCreate {
        channel_id: ChannelId(1),
        code: "a".repeat(7),
        created_at: "2021-01-01T00:00:00+00:00".to_owned(),
        guild_id: GuildId(2),
        inviter: None,
        max_age: 3600,
        max_uses: 5,
        target_user_type: None,
        target_user: None,
        temporary: false,
        uses: 0,
    };

    assert_eq!(ChannelId(1), value.channel_id);
    assert_eq!("aaaaaaa", value.code);
    assert_eq!("2021-01-01T00:00:00+00:00", value.created_at);
    assert_eq!(GuildId(2), value.guild_id);
    assert_eq!(3600, value.max_age);
    assert_eq!(5, value.max_uses);
    assert!(!value.temporary);
    assert_eq!(0, value.uses);
    assert_eq!(value.clone(), value);
}

#[test]
fn test_partial_user_fields() {
    let value = PartialUser {
        avatar: Some("a".repeat(32)),
        discriminator: "123".to_owned(),
        id: UserId(1),
        username: "streamer".to_owned(),
    };

    assert_eq!(Some("a".repeat(32)), value.avatar);
    assert_eq!("123", value.discriminator);
    assert_eq!(UserId(1), value.id);
    assert_eq!("streamer", value.username);
    assert_eq!(value.clone(), value);
}

#[test]
fn test_create_global_message_command_payload() {
    let builder = CreateGlobalMessageCommand::new(ApplicationId(42), "ping".to_owned());
    let payload = builder.payload();
    assert_eq!(Some(ApplicationId(42)), payload.application_id);
    assert_eq!(None, payload.default_permission);
    assert_eq!(None, payload.description);
    assert_eq!(CommandType::Message, payload.kind);
    assert_eq!("ping", payload.name);
}

#[test]
fn test_default_permission_is_recorded() {
    let builder = CreateGlobalMessageCommand::new(ApplicationId(42), "ping".to_owned())
        .default_permission(true);
    let payload = builder.payload();
    assert_eq!(Some(true), payload.default_permission);
    assert_eq!(CommandType::Message, payload.kind);
}
