//! The remote API's error-code catalog and its error payload records.

use vstd::prelude::*;
use vstd::string::StringExecFns;

verus! {

/// A code the remote API attaches to an error response.
#[derive(Clone, Copy, Debug, Eq, PartialEq, Structural)]
pub enum ErrorCode {
    /// General error (such as a malformed request body, amongst other things)
    GeneralError,
    /// Unknown account
    UnknownAccount,
    /// Unknown application
    UnknownApplication,
    /// Unknown channel
    UnknownChannel,
    /// Unknown guild
    UnknownGuild,
    /// Unknown integration
    UnknownIntegration,
    /// Unknown invite
    UnknownInvite,
    /// Unknown member
    UnknownMember,
    /// Unknown message
    UnknownMessage,
    /// Unknown permission overwrite
    UnknownPermissionOverwrite,
    /// Unknown provider
    UnknownProvider,
    /// Unknown role
    UnknownRole,
    /// Unknown token
    UnknownToken,
    /// Unknown user
    UnknownUser,
    /// Unknown emoji
    UnknownEmoji,
    /// Unknown webhook
    UnknownWebhook,
    /// Unknown webhook service
    UnknownWebhookService,
    /// Unknown session
    UnknownSession,
    /// Unknown ban
    UnknownBan,
    /// Unknown SKU
    UnknownSKU,
    /// Unknown Store Listing
    UnknownStoreListing,
    /// Unknown entitlement
    UnknownEntitlement,
    /// Unknown build
    UnknownBuild,
    /// Unknown lobby
    UnknownLobby,
    /// Unknown branch
    UnknownBranch,
    /// Unknown store directory layout
    UnknownStoreDirectoryLayout,
    /// Unknown redistributable
    UnknownRedistributable,
    /// Unknown gift code
    UnknownGiftCode,
    /// Unknown stream
    UnknownStream,
    /// Unknown premium server subscribe cooldown
    UnknownPremiumServerSubscribeCooldown,
    /// Unknown guild template
    UnknownGuildTemplate,
    /// Unknown discoverable server category
    UnknownDiscoverableServerCategory,
    /// Unknown sticker
    UnknownSticker,
    /// Unknown interaction
    UnknownInteraction,
    /// Unknown application command
    UnknownApplicationCommand,
    /// Unknown application command permissions
    UnknownApplicationCommandPermissions,
    /// Unknown Stage Instance
    UnknownStageInstance,
    /// Unknown Guild Member Verification Form
    UnknownGuildMemberVerificationForm,
    /// Unknown Guild Welcome Screen
    UnknownGuildWelcomeScreen,
    /// Unknown guild scheduled event
    UnknownGuildScheduledEvent,
    /// Unknown guild scheduled event user
    UnknownGuildScheduledEventUser,
    /// Bots cannot use this endpoint
    BotsCannotUseEndpoint,
    /// Only bots can use this endpoint
    OnlyBotsCanUseEndpoint,
    /// Explicit content cannot be sent to the desired recipient(s)
    ExplicitContentSendingBlocked,
    /// You are not authorized to perform this action on this application
    UnauthorizedApplicationAction,
    /// This action cannot be performed due to slowmode rate limit
    SlowModeRateLimitReached,
    /// Only the owner of this account can perform this action
    NotAccountOwner,
    /// Message cannot be edited due to announcement rate limits
    AnnouncementRateLimitReached,
    /// The channel you are writing has hit the write rate limit
    ChannelRateLimitReached,
    /// Your Stage topic, server name, server description, or channel names contain words that are not allowed
    UnallowedWords,
    /// Guild premium subscription level too low
    GuildPremiumTooLow,
    /// Maximum number of guilds reached (100)
    MaximumGuildsReached,
    /// Maximum number of friends reached (1000)
    MaximumFriendsReached,
    /// Maximum number of pins reached for the channel (50)
    MaximumPinsReached,
    /// Maximum number of recipients reached (10)
    MaximumRecipientsReached,
    /// Maximum number of guild roles reached (250)
    MaximumRolesReached,
    /// Maximum number of webhooks reached (10)
    MaximumWebhooksReached,
    /// Maximum number of emojis reached
    MaximumEmojisReached,
    /// Maximum number of reactions reached (20)
    MaximumReactionsReached,
    /// Maximum number of guild channels reached (500)
    MaximumGuildChannelsReached,
    /// Maximum number of attachments in a message reached (10)
    MaximumAttachmentsReached,
    /// Maximum number of invites reached (1000)
    MaximumInvitesReached,
    /// Maximum number of animated emojis reached
    MaximumAnimatedEmojisReached,
    /// Maximum number of server members reached
    MaximumGuildMembersReached,
    /// Maximum number of server categories has been reached
    MaximumServerCategoriesReached,
    /// Guild already has a template
    GuildTemplateAlreadyExist,
    /// Max number of thread participants has been reached
    ThreadMaxParticipants,
    /// Maximum number of bans for non-guild members have been exceeded
    MaximumNonGuildBansReached,
    /// Maximum number of bans fetches has been reached
    MaximumGuildBansFetchesReached,
    /// Maximum number of stickers reached
    MaximumStickersReached,
    /// Maximum number of prune requests has been reached. Try again later
    MaximumPruneRequestsReached,
    /// Unauthorized. Provide a valid token and try again
    Unauthorized,
    /// You need to verify your account in order to perform this action
    AccountNeedsVerification,
    /// You are opening direct messages too fast
    OpeningDirectMessageRateLimitReached,
    /// Request entity too large. Try sending something smaller in size
    RequestEntityTooLarge,
    /// This feature has been temporarily disabled server-side
    FeatureTemporarilyDisabled,
    /// The user is banned from this guild
    UserBannedFromGuild,
    /// Target user is not connected to voice
    UserNotInVoice,
    /// This message has already been crossposted
    MessageAlreadyCrossposted,
    /// An application command with that name already exists
    CommandNameAlreadyExists,
    /// Missing access
    Missingaccess,
    /// Invalid account type
    InvalidAccountType,
    /// Cannot execute action on a DM channel
    InvalidDMChannelAction,
    /// Guild widget disabled
    GuildWidgetDisabled,
    /// Cannot edit a message authored by another user
    MessageNotAuthoredByUser,
    /// Cannot send an empty message
    EmptyMessage,
    /// Cannot send messages to this user
    CannotSendMessageToUser,
    /// Cannot send messages in a voice channel
    CannotSendMessagesInVoiceChannel,
    /// Channel verification level is too high for you to gain access
    VerificationLevelTooHigh,
    /// OAuth2 application does not have a bot
    OAuthApplicationHasNoBot,
    /// OAuth2 application limit reached
    OAuthApplicationLimitReached,
    /// Invalid OAuth2 state
    InvalidOAuthSstate,
    /// You lack permissions to perform that action
    PermissionsLacking,
    /// Invalid authentication token provided
    InvalidAuthenticationTokenProvided,
    /// Note was too long
    NoteTooLong,
    /// Provided too few or too many messages to delete. Must provide at least 2 and fewer than 100 messages to delete
    InvalidMessageDeleteRange,
    /// A message can only be pinned to the channel it was sent in
    MessagePinnedInWrongChannel,
    /// Invite code was either invalid or taken
    InviteCodeInvalidOrTaken,
    /// Cannot execute action on a system message
    InvalidActionOnSystemMessage,
    /// Cannot execute action on this channel type
    CannotExecuteActionOnChannelType,
    /// Invalid OAuth2 access token provided
    InvalidOAuthAccessToken,
    /// Missing required OAuth2 scope
    MissingOAuthScope,
    /// Invalid webhook token provided
    InvalidWebhookToken,
    /// Invalid role
    InvalidRole,
    /// Invalid recipient(s)
    InvalidRecipient,
    /// A message provided was too old to bulk delete
    MessageTooOldToBulkDelete,
    /// Invalid form body (returned for both application/json and multipart/form-data bodies), or invalid Content-Type provided
    InvalidFormBodyOrContentType,
    /// An invite was accepted to a guild the application's bot is not in
    InviteAcceptedToGuildBotNotIn,
    /// Invalid API version provided
    InvalidApiVersion,
    /// Cannot self-redeem this gift
    CannotSelfRedeemGift,
    /// Payment source required to redeem gift
    PaymentRequiredForGift,
    /// Cannot delete a channel required for Community guilds
    CommunityGuildRequired,
    /// Invalid sticker sent
    InvalidStickerSent,
    /// Tried to perform an operation on an archived thread, such as editing a message or adding a
    /// user to the thread
    ThreadArchived,
    /// Invalid thread notification settings
    ThreadInvalidNotificationSettings,
    /// `before` value is earlier than the thread creation date
    ThreadInvalidBeforeValue,
    /// This server is not available in your location
    ServerNotAvailableLocation,
    /// This server needs monetization enabled in order to perform this action
    ServerNeedsMonetiazation,
    /// Two factor is required for this operation.
    TwoFactorRequired,
    /// No users with DiscordTag exist
    NoSuchUser,
    /// Reaction was blocked
    ReactionBlocked,
    /// API resource is currently overloaded. Try again a little later
    ApiResourceOverloaded,
    /// The Stage is already open
    StageAlreadyOpen,
    /// A thread has already been created for this message
    ThreadAlreadyCreated,
    /// Thread is locked
    ThreadLocked,
    /// Maximum number of active threads reached
    MaxActiveThreads,
    /// Maximum number of active announcement threads reached
    MaxActiveAnnouncementThreads,
    /// A status code that the catalog does not have registered.
    Other(u64),
}

/// The number of an error code.
pub open spec fn error_code_num(e: ErrorCode) -> u64 {
    match e {
        ErrorCode::GeneralError => 0,
        ErrorCode::UnknownAccount => 10001,
        ErrorCode::UnknownApplication => 10002,
        ErrorCode::UnknownChannel => 10003,
        ErrorCode::UnknownGuild => 10004,
        ErrorCode::UnknownIntegration => 10005,
        ErrorCode::UnknownInvite => 10006,
        ErrorCode::UnknownMember => 10007,
        ErrorCode::UnknownMessage => 10008,
        ErrorCode::UnknownPermissionOverwrite => 10009,
        ErrorCode::UnknownProvider => 10010,
        ErrorCode::UnknownRole => 10011,
        ErrorCode::UnknownToken => 10012,
        ErrorCode::UnknownUser => 10013,
        ErrorCode::UnknownEmoji => 10014,
        ErrorCode::UnknownWebhook => 10015,
        ErrorCode::UnknownWebhookService => 10016,
        ErrorCode::UnknownSession => 10020,
        ErrorCode::UnknownBan => 10026,
        ErrorCode::UnknownSKU => 10027,
        ErrorCode::UnknownStoreListing => 10028,
        ErrorCode::UnknownEntitlement => 10029,
        ErrorCode::UnknownBuild => 10030,
        ErrorCode::UnknownLobby => 10031,
        ErrorCode::UnknownBranch => 10032,
        ErrorCode::UnknownStoreDirectoryLayout => 10033,
        ErrorCode::UnknownRedistributable => 10036,
        ErrorCode::UnknownGiftCode => 10038,
        ErrorCode::UnknownStream => 10049,
        ErrorCode::UnknownPremiumServerSubscribeCooldown => 10050,
        ErrorCode::UnknownGuildTemplate => 10057,
        ErrorCode::UnknownDiscoverableServerCategory => 10059,
        ErrorCode::UnknownSticker => 10060,
        ErrorCode::UnknownInteraction => 10062,
        ErrorCode::UnknownApplicationCommand => 10063,
        ErrorCode::UnknownApplicationCommandPermissions => 10066,
        ErrorCode::UnknownStageInstance => 10067,
        ErrorCode::UnknownGuildMemberVerificationForm => 10068,
        ErrorCode::UnknownGuildWelcomeScreen => 10069,
        ErrorCode::UnknownGuildScheduledEvent => 10070,
        ErrorCode::UnknownGuildScheduledEventUser => 10071,
        ErrorCode::BotsCannotUseEndpoint => 20001,
        ErrorCode::OnlyBotsCanUseEndpoint => 20002,
        ErrorCode::ExplicitContentSendingBlocked => 20009,
        ErrorCode::UnauthorizedApplicationAction => 20012,
        ErrorCode::SlowModeRateLimitReached => 20016,
        ErrorCode::NotAccountOwner => 20018,
        ErrorCode::AnnouncementRateLimitReached => 20022,
        ErrorCode::ChannelRateLimitReached => 20028,
        ErrorCode::UnallowedWords => 20031,
        ErrorCode::GuildPremiumTooLow => 20035,
        ErrorCode::MaximumGuildsReached => 30001,
        ErrorCode::MaximumFriendsReached => 30002,
        ErrorCode::MaximumPinsReached => 30003,
        ErrorCode::MaximumRecipientsReached => 30004,
        ErrorCode::MaximumRolesReached => 30005,
        ErrorCode::MaximumWebhooksReached => 30007,
        ErrorCode::MaximumEmojisReached => 30008,
        ErrorCode::MaximumReactionsReached => 30010,
        ErrorCode::MaximumGuildChannelsReached => 30013,
        ErrorCode::MaximumAttachmentsReached => 30015,
        ErrorCode::MaximumInvitesReached => 30016,
        ErrorCode::MaximumAnimatedEmojisReached => 30018,
        ErrorCode::MaximumGuildMembersReached => 30019,
        ErrorCode::MaximumServerCategoriesReached => 30030,
        ErrorCode::GuildTemplateAlreadyExist => 30031,
        ErrorCode::ThreadMaxParticipants => 30033,
        ErrorCode::MaximumNonGuildBansReached => 30035,
        ErrorCode::MaximumGuildBansFetchesReached => 30037,
        ErrorCode::MaximumStickersReached => 30039,
        ErrorCode::MaximumPruneRequestsReached => 30040,
        ErrorCode::Unauthorized => 40001,
        ErrorCode::AccountNeedsVerification => 40002,
        ErrorCode::OpeningDirectMessageRateLimitReached => 40003,
        ErrorCode::RequestEntityTooLarge => 40005,
        ErrorCode::FeatureTemporarilyDisabled => 40006,
        ErrorCode::UserBannedFromGuild => 40007,
        ErrorCode::UserNotInVoice => 40032,
        ErrorCode::MessageAlreadyCrossposted => 40033,
        ErrorCode::CommandNameAlreadyExists => 40041,
        ErrorCode::Missingaccess => 50001,
        ErrorCode::InvalidAccountType => 50002,
        ErrorCode::InvalidDMChannelAction => 50003,
        ErrorCode::GuildWidgetDisabled => 50004,
        ErrorCode::MessageNotAuthoredByUser => 50005,
        ErrorCode::EmptyMessage => 50006,
        ErrorCode::CannotSendMessageToUser => 50007,
        ErrorCode::CannotSendMessagesInVoiceChannel => 50008,
        ErrorCode::VerificationLevelTooHigh => 50009,
        ErrorCode::OAuthApplicationHasNoBot => 50010,
        ErrorCode::OAuthApplicationLimitReached => 50011,
        ErrorCode::InvalidOAuthSstate => 50012,
        ErrorCode::PermissionsLacking => 50013,
        ErrorCode::InvalidAuthenticationTokenProvided => 50014,
        ErrorCode::NoteTooLong => 50015,
        ErrorCode::InvalidMessageDeleteRange => 50016,
        ErrorCode::MessagePinnedInWrongChannel => 50019,
        ErrorCode::InviteCodeInvalidOrTaken => 50020,
        ErrorCode::InvalidActionOnSystemMessage => 50021,
        ErrorCode::CannotExecuteActionOnChannelType => 50024,
        ErrorCode::InvalidOAuthAccessToken => 50025,
        ErrorCode::MissingOAuthScope => 50026,
        ErrorCode::InvalidWebhookToken => 50027,
        ErrorCode::InvalidRole => 50028,
        ErrorCode::InvalidRecipient => 50033,
        ErrorCode::MessageTooOldToBulkDelete => 50034,
        ErrorCode::InvalidFormBodyOrContentType => 50035,
        ErrorCode::InviteAcceptedToGuildBotNotIn => 50036,
        ErrorCode::InvalidApiVersion => 50041,
        ErrorCode::CannotSelfRedeemGift => 50054,
        ErrorCode::PaymentRequiredForGift => 50070,
        ErrorCode::CommunityGuildRequired => 50074,
        ErrorCode::InvalidStickerSent => 50081,
        ErrorCode::ThreadArchived => 50083,
        ErrorCode::ThreadInvalidNotificationSettings => 50084,
        ErrorCode::ThreadInvalidBeforeValue => 50085,
        ErrorCode::ServerNotAvailableLocation => 50095,
        ErrorCode::ServerNeedsMonetiazation => 50097,
        ErrorCode::TwoFactorRequired => 60003,
        ErrorCode::NoSuchUser => 80004,
        ErrorCode::ReactionBlocked => 90001,
        ErrorCode::ApiResourceOverloaded => 130000,
        ErrorCode::StageAlreadyOpen => 150006,
        ErrorCode::ThreadAlreadyCreated => 160004,
        ErrorCode::ThreadLocked => 160005,
        ErrorCode::MaxActiveThreads => 160006,
        ErrorCode::MaxActiveAnnouncementThreads => 160007,
        ErrorCode::Other(n) => n,
    }
}

/// The error code a number denotes; an unregistered number is kept as is.
pub open spec fn error_code_from(n: u64) -> ErrorCode {

    if n == 0 {
        ErrorCode::GeneralError
    } else if n == 10001 {
        ErrorCode::UnknownAccount
    } else if n == 10002 {
        ErrorCode::UnknownApplication
    } else if n == 10003 {
        ErrorCode::UnknownChannel
    } else if n == 10004 {
        ErrorCode::UnknownGuild
    } else if n == 10005 {
        ErrorCode::UnknownIntegration
    } else if n == 10006 {
        ErrorCode::UnknownInvite
    } else if n == 10007 {
        ErrorCode::UnknownMember
    } else if n == 10008 {
        ErrorCode::UnknownMessage
    } else if n == 10009 {
        ErrorCode::UnknownPermissionOverwrite
    } else if n == 10010 {
        ErrorCode::UnknownProvider
    } else if n == 10011 {
        ErrorCode::UnknownRole
    } else if n == 10012 {
        ErrorCode::UnknownToken
    } else if n == 10013 {
        ErrorCode::UnknownUser
    } else if n == 10014 {
        ErrorCode::UnknownEmoji
    } else if n == 10015 {
        ErrorCode::UnknownWebhook
    } else if n == 10016 {
        ErrorCode::UnknownWebhookService
    } else if n == 10020 {
        ErrorCode::UnknownSession
    } else if n == 10026 {
        ErrorCode::UnknownBan
    } else if n == 10027 {
        ErrorCode::UnknownSKU
    } else if n == 10028 {
        ErrorCode::UnknownStoreListing
    } else if n == 10029 {
        ErrorCode::UnknownEntitlement
    } else if n == 10030 {
        ErrorCode::UnknownBuild
    } else if n == 10031 {
        ErrorCode::UnknownLobby
    } else if n == 10032 {
        ErrorCode::UnknownBranch
    } else if n == 10033 {
        ErrorCode::UnknownStoreDirectoryLayout
    } else if n == 10036 {
        ErrorCode::UnknownRedistributable
    } else if n == 10038 {
        ErrorCode::UnknownGiftCode
    } else if n == 10049 {
        ErrorCode::UnknownStream
    } else if n == 10050 {
        ErrorCode::UnknownPremiumServerSubscribeCooldown
    } else if n == 10057 {
        ErrorCode::UnknownGuildTemplate
    } else if n == 10059 {
        ErrorCode::UnknownDiscoverableServerCategory
    } else if n == 10060 {
        ErrorCode::UnknownSticker
    } else if n == 10062 {
        ErrorCode::UnknownInteraction
    } else if n == 10063 {
        ErrorCode::UnknownApplicationCommand
    } else if n == 10066 {
        ErrorCode::UnknownApplicationCommandPermissions
    } else if n == 10067 {
        ErrorCode::UnknownStageInstance
    } else if n == 10068 {
        ErrorCode::UnknownGuildMemberVerificationForm
    } else if n == 10069 {
        ErrorCode::UnknownGuildWelcomeScreen
    } else if n == 10070 {
        ErrorCode::UnknownGuildScheduledEvent
    } else if n == 10071 {
        ErrorCode::UnknownGuildScheduledEventUser
    } else if n == 20001 {
        ErrorCode::BotsCannotUseEndpoint
    } else if n == 20002 {
        ErrorCode::OnlyBotsCanUseEndpoint
    } else if n == 20022 {
        ErrorCode::AnnouncementRateLimitReached
    } else if n == 20009 {
        ErrorCode::ExplicitContentSendingBlocked
    } else if n == 20012 {
        ErrorCode::UnauthorizedApplicationAction
    } else if n == 20016 {
        ErrorCode::SlowModeRateLimitReached
    } else if n == 20018 {
        ErrorCode::NotAccountOwner
    } else if n == 20028 {
        ErrorCode::ChannelRateLimitReached
    } else if n == 20031 {
        ErrorCode::UnallowedWords
    } else if n == 20035 {
        ErrorCode::GuildPremiumTooLow
    } else if n == 30001 {
        ErrorCode::MaximumGuildsReached
    } else if n == 30002 {
        ErrorCode::MaximumFriendsReached
    } else if n == 30003 {
        ErrorCode::MaximumPinsReached
    } else if n == 30004 {
        ErrorCode::MaximumRecipientsReached
    } else if n == 30005 {
        ErrorCode::MaximumRolesReached
    } else if n == 30007 {
        ErrorCode::MaximumWebhooksReached
    } else if n == 30008 {
        ErrorCode::MaximumEmojisReached
    } else if n == 30010 {
        ErrorCode::MaximumReactionsReached
    } else if n == 30013 {
        ErrorCode::MaximumGuildChannelsReached
    } else if n == 30015 {
        ErrorCode::MaximumAttachmentsReached
    } else if n == 30016 {
        ErrorCode::MaximumInvitesReached
    } else if n == 30018 {
        ErrorCode::MaximumAnimatedEmojisReached
    } else if n == 30019 {
        ErrorCode::MaximumGuildMembersReached
    } else if n == 30030 {
        ErrorCode::MaximumServerCategoriesReached
    } else if n == 30031 {
        ErrorCode::GuildTemplateAlreadyExist
    } else if n == 30033 {
        ErrorCode::ThreadMaxParticipants
    } else if n == 30035 {
        ErrorCode::MaximumNonGuildBansReached
    } else if n == 30037 {
        ErrorCode::MaximumGuildBansFetchesReached
    } else if n == 30039 {
        ErrorCode::MaximumStickersReached
    } else if n == 30040 {
        ErrorCode::MaximumPruneRequestsReached
    } else if n == 40001 {
        ErrorCode::Unauthorized
    } else if n == 40002 {
        ErrorCode::AccountNeedsVerification
    } else if n == 40003 {
        ErrorCode::OpeningDirectMessageRateLimitReached
    } else if n == 40005 {
        ErrorCode::RequestEntityTooLarge
    } else if n == 40006 {
        ErrorCode::FeatureTemporarilyDisabled
    } else if n == 40007 {
        ErrorCode::UserBannedFromGuild
    } else if n == 40032 {
        ErrorCode::UserNotInVoice
    } else if n == 40033 {
        ErrorCode::MessageAlreadyCrossposted
    } else if n == 40041 {
        ErrorCode::CommandNameAlreadyExists
    } else if n == 50001 {
        ErrorCode::Missingaccess
    } else if n == 50002 {
        ErrorCode::InvalidAccountType
    } else if n == 50003 {
        ErrorCode::InvalidDMChannelAction
    } else if n == 50004 {
        ErrorCode::GuildWidgetDisabled
    } else if n == 50005 {
        ErrorCode::MessageNotAuthoredByUser
    } else if n == 50006 {
        ErrorCode::EmptyMessage
    } else if n == 50007 {
        ErrorCode::CannotSendMessageToUser
    } else if n == 50008 {
        ErrorCode::CannotSendMessagesInVoiceChannel
    } else if n == 50009 {
        ErrorCode::VerificationLevelTooHigh
    } else if n == 50010 {
        ErrorCode::OAuthApplicationHasNoBot
    } else if n == 50011 {
        ErrorCode::OAuthApplicationLimitReached
    } else if n == 50012 {
        ErrorCode::InvalidOAuthSstate
    } else if n == 50013 {
        ErrorCode::PermissionsLacking
    } else if n == 50014 {
        ErrorCode::InvalidAuthenticationTokenProvided
    } else if n == 50015 {
        ErrorCode::NoteTooLong
    } else if n == 50016 {
        ErrorCode::InvalidMessageDeleteRange
    } else if n == 50019 {
        ErrorCode::MessagePinnedInWrongChannel
    } else if n == 50020 {
        ErrorCode::InviteCodeInvalidOrTaken
    } else if n == 50021 {
        ErrorCode::InvalidActionOnSystemMessage
    } else if n == 50024 {
        ErrorCode::CannotExecuteActionOnChannelType
    } else if n == 50025 {
        ErrorCode::InvalidOAuthAccessToken
    } else if n == 50026 {
        ErrorCode::MissingOAuthScope
    } else if n == 50027 {
        ErrorCode::InvalidWebhookToken
    } else if n == 50028 {
        ErrorCode::InvalidRole
    } else if n == 50033 {
        ErrorCode::InvalidRecipient
    } else if n == 50034 {
        ErrorCode::MessageTooOldToBulkDelete
    } else if n == 50035 {
        ErrorCode::InvalidFormBodyOrContentType
    } else if n == 50036 {
        ErrorCode::InviteAcceptedToGuildBotNotIn
    } else if n == 50041 {
        ErrorCode::InvalidApiVersion
    } else if n == 50054 {
        ErrorCode::CannotSelfRedeemGift
    } else if n == 50070 {
        ErrorCode::PaymentRequiredForGift
    } else if n == 50074 {
        ErrorCode::CommunityGuildRequired
    } else if n == 50081 {
        ErrorCode::InvalidStickerSent
    } else if n == 50083 {
        ErrorCode::ThreadArchived
    } else if n == 50084 {
        ErrorCode::ThreadInvalidNotificationSettings
    } else if n == 50085 {
        ErrorCode::ThreadInvalidBeforeValue
    } else if n == 50095 {
        ErrorCode::ServerNotAvailableLocation
    } else if n == 50097 {
        ErrorCode::ServerNeedsMonetiazation
    } else if n == 60003 {
        ErrorCode::TwoFactorRequired
    } else if n == 80004 {
        ErrorCode::NoSuchUser
    } else if n == 90001 {
        ErrorCode::ReactionBlocked
    } else if n == 130000 {
        ErrorCode::ApiResourceOverloaded
    } else if n == 150006 {
        ErrorCode::StageAlreadyOpen
    } else if n == 160004 {
        ErrorCode::ThreadAlreadyCreated
    } else if n == 160005 {
        ErrorCode::ThreadLocked
    } else if n == 160006 {
        ErrorCode::MaxActiveThreads
    } else if n == 160007 {
        ErrorCode::MaxActiveAnnouncementThreads
    } else {
        ErrorCode::Other(n)
    }
}

/// The description of an error code.
pub open spec fn error_code_message(e: ErrorCode) -> Seq<char> {
    match e {
        ErrorCode::GeneralError => "General error (such as a malformed request body, amongst other things)"@,
        ErrorCode::UnknownAccount => "Unknown account"@,
        ErrorCode::UnknownApplication => "Unknown application"@,
        ErrorCode::UnknownChannel => "Unknown channel"@,
        ErrorCode::UnknownGuild => "Unknown guild"@,
        ErrorCode::UnknownIntegration => "Unknown integration"@,
        ErrorCode::UnknownInvite => "Unknown invite"@,
        ErrorCode::UnknownMember => "Unknown member"@,
        ErrorCode::UnknownMessage => "Unknown message"@,
        ErrorCode::UnknownPermissionOverwrite => "Unknown permission overwrite"@,
        ErrorCode::UnknownProvider => "Unknown provider"@,
        ErrorCode::UnknownRole => "Unknown role"@,
        ErrorCode::UnknownToken => "Unknown token"@,
        ErrorCode::UnknownUser => "Unknown user"@,
        ErrorCode::UnknownEmoji => "Unknown emoji"@,
        ErrorCode::UnknownWebhook => "Unknown webhook"@,
        ErrorCode::UnknownWebhookService => "Unknown webhook service"@,
        ErrorCode::UnknownSession => "Unknown session"@,
        ErrorCode::UnknownBan => "Unknown ban"@,
        ErrorCode::UnknownSKU => "Unknown SKU"@,
        ErrorCode::UnknownStoreListing => "Unknown Store Listing"@,
        ErrorCode::UnknownEntitlement => "Unknown entitlement"@,
        ErrorCode::UnknownBuild => "Unknown build"@,
        ErrorCode::UnknownLobby => "Unknown lobby"@,
        ErrorCode::UnknownBranch => "Unknown branch"@,
        ErrorCode::UnknownStoreDirectoryLayout => "Unknown store directory layout"@,
        ErrorCode::UnknownRedistributable => "Unknown redistributable"@,
        ErrorCode::UnknownGiftCode => "Unknown gift code"@,
        ErrorCode::UnknownStream => "Unknown stream"@,
        ErrorCode::UnknownPremiumServerSubscribeCooldown => "Unknown premium server subscribe cooldown"@,
        ErrorCode::UnknownGuildTemplate => "Unknown guild template"@,
        ErrorCode::UnknownDiscoverableServerCategory => "Unknown discoverable server category"@,
        ErrorCode::UnknownSticker => "Unknown sticker"@,
        ErrorCode::UnknownInteraction => "Unknown interaction"@,
        ErrorCode::UnknownApplicationCommand => "Unknown application command"@,
        ErrorCode::UnknownApplicationCommandPermissions => "Unknown application command permissions"@,
        ErrorCode::UnknownStageInstance => "Unknown Stage Instance"@,
        ErrorCode::UnknownGuildMemberVerificationForm => "Unknown Guild Member Verification Form"@,
        ErrorCode::UnknownGuildWelcomeScreen => "Unknown Guild Welcome Screen"@,
        ErrorCode::UnknownGuildScheduledEvent => "Unknown Guild Scheduled Event"@,
        ErrorCode::UnknownGuildScheduledEventUser => "Unknown Guild Scheduled Event User"@,
        ErrorCode::BotsCannotUseEndpoint => "Bots cannot use this endpoint"@,
        ErrorCode::OnlyBotsCanUseEndpoint => "Only bots can use this endpoint"@,
        ErrorCode::ExplicitContentSendingBlocked => "Explicit content cannot be sent to the desired recipient(s)"@,
        ErrorCode::UnauthorizedApplicationAction => "You are not authorized to perform this action on this application"@,
        ErrorCode::SlowModeRateLimitReached => "This action cannot be performed due to slowmode rate limit"@,
        ErrorCode::NotAccountOwner => "Only the owner of this account can perform this action"@,
        ErrorCode::AnnouncementRateLimitReached => "Message cannot be edited due to announcement rate limits"@,
        ErrorCode::ChannelRateLimitReached => "The channel you are writing has hit the write rate limit"@,
        ErrorCode::UnallowedWords => "Your Stage topic, server name, server description, or channel names contain words that are not allowed"@,
        ErrorCode::GuildPremiumTooLow => "Guild premium subscription level too low"@,
        ErrorCode::MaximumGuildsReached => "Maximum number of guilds reached (100)"@,
        ErrorCode::MaximumFriendsReached => "Maximum number of friends reached (1000)"@,
        ErrorCode::MaximumPinsReached => "Maximum number of pins reached for the channel (50)"@,
        ErrorCode::MaximumRecipientsReached => "Maximum number of recipients reached (10)"@,
        ErrorCode::MaximumRolesReached => "Maximum number of guild roles reached (250)"@,
        ErrorCode::MaximumWebhooksReached => "Maximum number of webhooks reached (10)"@,
        ErrorCode::MaximumEmojisReached => "Maximum number of emojis reached"@,
        ErrorCode::MaximumReactionsReached => "Maximum number of reactions reached (20)"@,
        ErrorCode::MaximumGuildChannelsReached => "Maximum number of guild channels reached (500)"@,
        ErrorCode::MaximumAttachmentsReached => "Maximum number of attachments in a message reached (10)"@,
        ErrorCode::MaximumInvitesReached => "Maximum number of invites reached (1000)"@,
        ErrorCode::MaximumAnimatedEmojisReached => "Maximum animated emojis reached"@,
        ErrorCode::MaximumGuildMembersReached => "Maximum number of server members reached"@,
        ErrorCode::MaximumServerCategoriesReached => "Maximum number of server categories has been reached"@,
        ErrorCode::GuildTemplateAlreadyExist => "Guild already has a template"@,
        ErrorCode::ThreadMaxParticipants => "Max number of thread participants has been reached"@,
        ErrorCode::MaximumNonGuildBansReached => "Maximum number of bans for non-guild members have been exceeded"@,
        ErrorCode::MaximumGuildBansFetchesReached => "Maximum number of bans fetches has been reached"@,
        ErrorCode::MaximumStickersReached => "Maximum number of stickers reached"@,
        ErrorCode::MaximumPruneRequestsReached => "Maximum number of prune requests has been reached. Try again later"@,
        ErrorCode::Unauthorized => "Unauthorized. Provide a valid token and try again"@,
        ErrorCode::AccountNeedsVerification => "You need to verify your account in order to perform this action"@,
        ErrorCode::OpeningDirectMessageRateLimitReached => "You are opening direct messages too fast"@,
        ErrorCode::RequestEntityTooLarge => "Request entity too large. Try sending something smaller in size"@,
        ErrorCode::FeatureTemporarilyDisabled => "This feature has been temporarily disabled server-side"@,
        ErrorCode::UserBannedFromGuild => "The user is banned from this guild"@,
        ErrorCode::UserNotInVoice => "Target user is not connected to voice"@,
        ErrorCode::MessageAlreadyCrossposted => "This message has already been crossposted"@,
        ErrorCode::CommandNameAlreadyExists => "An application command with that name already exists"@,
        ErrorCode::Missingaccess => "Missing access"@,
        ErrorCode::InvalidAccountType => "Invalid account type"@,
        ErrorCode::InvalidDMChannelAction => "Cannot execute action on a DM channel"@,
        ErrorCode::GuildWidgetDisabled => "Guild widget disabled"@,
        ErrorCode::MessageNotAuthoredByUser => "Cannot edit a message authored by another user"@,
        ErrorCode::EmptyMessage => "Cannot send an empty message"@,
        ErrorCode::CannotSendMessageToUser => "Cannot send messages to this user"@,
        ErrorCode::CannotSendMessagesInVoiceChannel => "Cannot send messages in a voice channel"@,
        ErrorCode::VerificationLevelTooHigh => "Channel verification level is too high for you to gain access"@,
        ErrorCode::OAuthApplicationHasNoBot => "OAuth2 application does not have a bot"@,
        ErrorCode::OAuthApplicationLimitReached => "OAuth2 application limit reached"@,
        ErrorCode::InvalidOAuthSstate => "Invalid OAuth2 state"@,
        ErrorCode::PermissionsLacking => "You lack permissions to perform that action"@,
        ErrorCode::InvalidAuthenticationTokenProvided => "Invalid authentication token provided"@,
        ErrorCode::NoteTooLong => "Note was too long"@,
        ErrorCode::InvalidMessageDeleteRange => "Provided too few or too many messages to delete. Must provide at least 2 and fewer than 100 messages to delete"@,
        ErrorCode::MessagePinnedInWrongChannel => "A message can only be pinned to the channel it was sent in"@,
        ErrorCode::InviteCodeInvalidOrTaken => "Invite code was either invalid or taken"@,
        ErrorCode::InvalidActionOnSystemMessage => "Cannot execute action on a system message"@,
        ErrorCode::CannotExecuteActionOnChannelType => "Cannot execute action on channel type"@,
        ErrorCode::InvalidOAuthAccessToken => "Invalid OAuth2 access token provided"@,
        ErrorCode::MissingOAuthScope => "Missing required OAuth2 scope"@,
        ErrorCode::InvalidWebhookToken => "Invalid webhook token provided."@,
        ErrorCode::InvalidRole => "Invalid role"@,
        ErrorCode::InvalidRecipient => "Invalid recipient(s)"@,
        ErrorCode::MessageTooOldToBulkDelete => "A message provided was too old to bulk delete"@,
        ErrorCode::InvalidFormBodyOrContentType => "Invalid form body (returned for both application/json and multipart/form-data bodies), or invalid Content-Type provided"@,
        ErrorCode::InviteAcceptedToGuildBotNotIn => "An invite was accepted to a guild the application's bot is not in"@,
        ErrorCode::InvalidApiVersion => "Invalid API version provided"@,
        ErrorCode::CannotSelfRedeemGift => "Cannot self-redeem this gift"@,
        ErrorCode::PaymentRequiredForGift => "Payment source required to redeem gift"@,
        ErrorCode::CommunityGuildRequired => "Cannot delete a channel required for Community guilds"@,
        ErrorCode::InvalidStickerSent => "Invalid sticker sent"@,
        ErrorCode::ThreadArchived => "Tried to perform an operation on an archived thread, such as editing a message or adding a user to the thread"@,
        ErrorCode::ThreadInvalidNotificationSettings => "Invalid thread notification settings"@,
        ErrorCode::ThreadInvalidBeforeValue => "`before` value is earlier than the thread creation date"@,
        ErrorCode::ServerNotAvailableLocation => "This server is not available in your location"@,
        ErrorCode::ServerNeedsMonetiazation => "This server needs monetization enabled in order to perform this action"@,
        ErrorCode::TwoFactorRequired => "Two factor is required for this operation"@,
        ErrorCode::NoSuchUser => "No users with DiscordTag exist"@,
        ErrorCode::ReactionBlocked => "Reaction was blocked"@,
        ErrorCode::ApiResourceOverloaded => "API resource is currently overloaded. Try again a little later"@,
        ErrorCode::StageAlreadyOpen => "The Stage is already open"@,
        ErrorCode::ThreadAlreadyCreated => "A thread has already been created for this message"@,
        ErrorCode::ThreadLocked => "Thread is locked"@,
        ErrorCode::MaxActiveThreads => "Maximum number of active threads reached"@,
        ErrorCode::MaxActiveAnnouncementThreads => "Maximum number of active announcement threads reached"@,
        ErrorCode::Other(n) => "An error code Twilight doesn't have registered: "@ + dec_str(n),
    }
}

impl ErrorCode {
    /// The number of this error code.
    pub fn num(&self) -> (r: u64)
        ensures
            r == error_code_num(*self),
    {
        match self {
            Self::GeneralError => 0,
            Self::UnknownAccount => 10001,
            Self::UnknownApplication => 10002,
            Self::UnknownChannel => 10003,
            Self::UnknownGuild => 10004,
            Self::UnknownIntegration => 10005,
            Self::UnknownInvite => 10006,
            Self::UnknownMember => 10007,
            Self::UnknownMessage => 10008,
            Self::UnknownPermissionOverwrite => 10009,
            Self::UnknownProvider => 10010,
            Self::UnknownRole => 10011,
            Self::UnknownToken => 10012,
            Self::UnknownUser => 10013,
            Self::UnknownEmoji => 10014,
            Self::UnknownWebhook => 10015,
            Self::UnknownWebhookService => 10016,
            Self::UnknownSession => 10020,
            Self::UnknownBan => 10026,
            Self::UnknownSKU => 10027,
            Self::UnknownStoreListing => 10028,
            Self::UnknownEntitlement => 10029,
            Self::UnknownBuild => 10030,
            Self::UnknownLobby => 10031,
            Self::UnknownBranch => 10032,
            Self::UnknownStoreDirectoryLayout => 10033,
            Self::UnknownRedistributable => 10036,
            Self::UnknownGiftCode => 10038,
            Self::UnknownStream => 10049,
            Self::UnknownPremiumServerSubscribeCooldown => 10050,
            Self::UnknownGuildTemplate => 10057,
            Self::UnknownDiscoverableServerCategory => 10059,
            Self::UnknownSticker => 10060,
            Self::UnknownInteraction => 10062,
            Self::UnknownApplicationCommand => 10063,
            Self::UnknownApplicationCommandPermissions => 10066,
            Self::UnknownStageInstance => 10067,
            Self::UnknownGuildMemberVerificationForm => 10068,
            Self::UnknownGuildWelcomeScreen => 10069,
            Self::UnknownGuildScheduledEvent => 10070,
            Self::UnknownGuildScheduledEventUser => 10071,
            Self::BotsCannotUseEndpoint => 20001,
            Self::OnlyBotsCanUseEndpoint => 20002,
            Self::ExplicitContentSendingBlocked => 20009,
            Self::UnauthorizedApplicationAction => 20012,
            Self::SlowModeRateLimitReached => 20016,
            Self::NotAccountOwner => 20018,
            Self::AnnouncementRateLimitReached => 20022,
            Self::ChannelRateLimitReached => 20028,
            Self::UnallowedWords => 20031,
            Self::GuildPremiumTooLow => 20035,
            Self::MaximumGuildsReached => 30001,
            Self::MaximumFriendsReached => 30002,
            Self::MaximumPinsReached => 30003,
            Self::MaximumRecipientsReached => 30004,
            Self::MaximumRolesReached => 30005,
            Self::MaximumWebhooksReached => 30007,
            Self::MaximumEmojisReached => 30008,
            Self::MaximumReactionsReached => 30010,
            Self::MaximumGuildChannelsReached => 30013,
            Self::MaximumAttachmentsReached => 30015,
            Self::MaximumInvitesReached => 30016,
            Self::MaximumAnimatedEmojisReached => 30018,
            Self::MaximumGuildMembersReached => 30019,
            Self::MaximumServerCategoriesReached => 30030,
            Self::GuildTemplateAlreadyExist => 30031,
            Self::ThreadMaxParticipants => 30033,
            Self::MaximumNonGuildBansReached => 30035,
            Self::MaximumGuildBansFetchesReached => 30037,
            Self::MaximumStickersReached => 30039,
            Self::MaximumPruneRequestsReached => 30040,
            Self::Unauthorized => 40001,
            Self::AccountNeedsVerification => 40002,
            Self::OpeningDirectMessageRateLimitReached => 40003,
            Self::RequestEntityTooLarge => 40005,
            Self::FeatureTemporarilyDisabled => 40006,
            Self::UserBannedFromGuild => 40007,
            Self::UserNotInVoice => 40032,
            Self::MessageAlreadyCrossposted => 40033,
            Self::CommandNameAlreadyExists => 40041,
            Self::Missingaccess => 50001,
            Self::InvalidAccountType => 50002,
            Self::InvalidDMChannelAction => 50003,
            Self::GuildWidgetDisabled => 50004,
            Self::MessageNotAuthoredByUser => 50005,
            Self::EmptyMessage => 50006,
            Self::CannotSendMessageToUser => 50007,
            Self::CannotSendMessagesInVoiceChannel => 50008,
            Self::VerificationLevelTooHigh => 50009,
            Self::OAuthApplicationHasNoBot => 50010,
            Self::OAuthApplicationLimitReached => 50011,
            Self::InvalidOAuthSstate => 50012,
            Self::PermissionsLacking => 50013,
            Self::InvalidAuthenticationTokenProvided => 50014,
            Self::NoteTooLong => 50015,
            Self::InvalidMessageDeleteRange => 50016,
            Self::MessagePinnedInWrongChannel => 50019,
            Self::InviteCodeInvalidOrTaken => 50020,
            Self::InvalidActionOnSystemMessage => 50021,
            Self::CannotExecuteActionOnChannelType => 50024,
            Self::InvalidOAuthAccessToken => 50025,
            Self::MissingOAuthScope => 50026,
            Self::InvalidWebhookToken => 50027,
            Self::InvalidRole => 50028,
            Self::InvalidRecipient => 50033,
            Self::MessageTooOldToBulkDelete => 50034,
            Self::InvalidFormBodyOrContentType => 50035,
            Self::InviteAcceptedToGuildBotNotIn => 50036,
            Self::InvalidApiVersion => 50041,
            Self::CannotSelfRedeemGift => 50054,
            Self::PaymentRequiredForGift => 50070,
            Self::CommunityGuildRequired => 50074,
            Self::InvalidStickerSent => 50081,
            Self::ThreadArchived => 50083,
            Self::ThreadInvalidNotificationSettings => 50084,
            Self::ThreadInvalidBeforeValue => 50085,
            Self::ServerNotAvailableLocation => 50095,
            Self::ServerNeedsMonetiazation => 50097,
            Self::TwoFactorRequired => 60003,
            Self::NoSuchUser => 80004,
            Self::ReactionBlocked => 90001,
            Self::ApiResourceOverloaded => 130000,
            Self::StageAlreadyOpen => 150006,
            Self::ThreadAlreadyCreated => 160004,
            Self::ThreadLocked => 160005,
            Self::MaxActiveThreads => 160006,
            Self::MaxActiveAnnouncementThreads => 160007,
            Self::Other(other) => *other,
        }
    }

    /// The description of this error code.
    pub fn message(&self) -> (r: String)
        ensures
            r@ == error_code_message(*self),
    {
        match self {
            Self::GeneralError => "General error (such as a malformed request body, amongst other things)".to_owned(),
            Self::UnknownAccount => "Unknown account".to_owned(),
            Self::UnknownApplication => "Unknown application".to_owned(),
            Self::UnknownChannel => "Unknown channel".to_owned(),
            Self::UnknownGuild => "Unknown guild".to_owned(),
            Self::UnknownIntegration => "Unknown integration".to_owned(),
            Self::UnknownInvite => "Unknown invite".to_owned(),
            Self::UnknownMember => "Unknown member".to_owned(),
            Self::UnknownMessage => "Unknown message".to_owned(),
            Self::UnknownPermissionOverwrite => "Unknown permission overwrite".to_owned(),
            Self::UnknownProvider => "Unknown provider".to_owned(),
            Self::UnknownRole => "Unknown role".to_owned(),
            Self::UnknownToken => "Unknown token".to_owned(),
            Self::UnknownUser => "Unknown user".to_owned(),
            Self::UnknownEmoji => "Unknown emoji".to_owned(),
            Self::UnknownWebhook => "Unknown webhook".to_owned(),
            Self::UnknownWebhookService => "Unknown webhook service".to_owned(),
            Self::UnknownSession => "Unknown session".to_owned(),
            Self::UnknownBan => "Unknown ban".to_owned(),
            Self::UnknownSKU => "Unknown SKU".to_owned(),
            Self::UnknownStoreListing => "Unknown Store Listing".to_owned(),
            Self::UnknownEntitlement => "Unknown entitlement".to_owned(),
            Self::UnknownBuild => "Unknown build".to_owned(),
            Self::UnknownLobby => "Unknown lobby".to_owned(),
            Self::UnknownBranch => "Unknown branch".to_owned(),
            Self::UnknownStoreDirectoryLayout => "Unknown store directory layout".to_owned(),
            Self::UnknownRedistributable => "Unknown redistributable".to_owned(),
            Self::UnknownGiftCode => "Unknown gift code".to_owned(),
            Self::UnknownStream => "Unknown stream".to_owned(),
            Self::UnknownPremiumServerSubscribeCooldown => "Unknown premium server subscribe cooldown".to_owned(),
            Self::UnknownGuildTemplate => "Unknown guild template".to_owned(),
            Self::UnknownDiscoverableServerCategory => "Unknown discoverable server category".to_owned(),
            Self::UnknownSticker => "Unknown sticker".to_owned(),
            Self::UnknownInteraction => "Unknown interaction".to_owned(),
            Self::UnknownApplicationCommand => "Unknown application command".to_owned(),
            Self::UnknownApplicationCommandPermissions => "Unknown application command permissions".to_owned(),
            Self::UnknownStageInstance => "Unknown Stage Instance".to_owned(),
            Self::UnknownGuildMemberVerificationForm => "Unknown Guild Member Verification Form".to_owned(),
            Self::UnknownGuildWelcomeScreen => "Unknown Guild Welcome Screen".to_owned(),
            Self::UnknownGuildScheduledEvent => "Unknown Guild Scheduled Event".to_owned(),
            Self::UnknownGuildScheduledEventUser => "Unknown Guild Scheduled Event User".to_owned(),
            Self::BotsCannotUseEndpoint => "Bots cannot use this endpoint".to_owned(),
            Self::OnlyBotsCanUseEndpoint => "Only bots can use this endpoint".to_owned(),
            Self::ExplicitContentSendingBlocked => "Explicit content cannot be sent to the desired recipient(s)".to_owned(),
            Self::UnauthorizedApplicationAction => "You are not authorized to perform this action on this application".to_owned(),
            Self::SlowModeRateLimitReached => "This action cannot be performed due to slowmode rate limit".to_owned(),
            Self::NotAccountOwner => "Only the owner of this account can perform this action".to_owned(),
            Self::AnnouncementRateLimitReached => "Message cannot be edited due to announcement rate limits".to_owned(),
            Self::ChannelRateLimitReached => "The channel you are writing has hit the write rate limit".to_owned(),
            Self::UnallowedWords => "Your Stage topic, server name, server description, or channel names contain words that are not allowed".to_owned(),
            Self::GuildPremiumTooLow => "Guild premium subscription level too low".to_owned(),
            Self::MaximumGuildsReached => "Maximum number of guilds reached (100)".to_owned(),
            Self::MaximumFriendsReached => "Maximum number of friends reached (1000)".to_owned(),
            Self::MaximumPinsReached => "Maximum number of pins reached for the channel (50)".to_owned(),
            Self::MaximumRecipientsReached => "Maximum number of recipients reached (10)".to_owned(),
            Self::MaximumRolesReached => "Maximum number of guild roles reached (250)".to_owned(),
            Self::MaximumWebhooksReached => "Maximum number of webhooks reached (10)".to_owned(),
            Self::MaximumEmojisReached => "Maximum number of emojis reached".to_owned(),
            Self::MaximumReactionsReached => "Maximum number of reactions reached (20)".to_owned(),
            Self::MaximumGuildChannelsReached => "Maximum number of guild channels reached (500)".to_owned(),
            Self::MaximumAttachmentsReached => "Maximum number of attachments in a message reached (10)".to_owned(),
            Self::MaximumInvitesReached => "Maximum number of invites reached (1000)".to_owned(),
            Self::MaximumAnimatedEmojisReached => "Maximum animated emojis reached".to_owned(),
            Self::MaximumGuildMembersReached => "Maximum number of server members reached".to_owned(),
            Self::MaximumServerCategoriesReached => "Maximum number of server categories has been reached".to_owned(),
            Self::GuildTemplateAlreadyExist => "Guild already has a template".to_owned(),
            Self::ThreadMaxParticipants => "Max number of thread participants has been reached".to_owned(),
            Self::MaximumNonGuildBansReached => "Maximum number of bans for non-guild members have been exceeded".to_owned(),
            Self::MaximumGuildBansFetchesReached => "Maximum number of bans fetches has been reached".to_owned(),
            Self::MaximumStickersReached => "Maximum number of stickers reached".to_owned(),
            Self::MaximumPruneRequestsReached => "Maximum number of prune requests has been reached. Try again later".to_owned(),
            Self::Unauthorized => "Unauthorized. Provide a valid token and try again".to_owned(),
            Self::AccountNeedsVerification => "You need to verify your account in order to perform this action".to_owned(),
            Self::OpeningDirectMessageRateLimitReached => "You are opening direct messages too fast".to_owned(),
            Self::RequestEntityTooLarge => "Request entity too large. Try sending something smaller in size".to_owned(),
            Self::FeatureTemporarilyDisabled => "This feature has been temporarily disabled server-side".to_owned(),
            Self::UserBannedFromGuild => "The user is banned from this guild".to_owned(),
            Self::UserNotInVoice => "Target user is not connected to voice".to_owned(),
            Self::MessageAlreadyCrossposted => "This message has already been crossposted".to_owned(),
            Self::CommandNameAlreadyExists => "An application command with that name already exists".to_owned(),
            Self::Missingaccess => "Missing access".to_owned(),
            Self::InvalidAccountType => "Invalid account type".to_owned(),
            Self::InvalidDMChannelAction => "Cannot execute action on a DM channel".to_owned(),
            Self::GuildWidgetDisabled => "Guild widget disabled".to_owned(),
            Self::MessageNotAuthoredByUser => "Cannot edit a message authored by another user".to_owned(),
            Self::EmptyMessage => "Cannot send an empty message".to_owned(),
            Self::CannotSendMessageToUser => "Cannot send messages to this user".to_owned(),
            Self::CannotSendMessagesInVoiceChannel => "Cannot send messages in a voice channel".to_owned(),
            Self::VerificationLevelTooHigh => "Channel verification level is too high for you to gain access".to_owned(),
            Self::OAuthApplicationHasNoBot => "OAuth2 application does not have a bot".to_owned(),
            Self::OAuthApplicationLimitReached => "OAuth2 application limit reached".to_owned(),
            Self::InvalidOAuthSstate => "Invalid OAuth2 state".to_owned(),
            Self::PermissionsLacking => "You lack permissions to perform that action".to_owned(),
            Self::InvalidAuthenticationTokenProvided => "Invalid authentication token provided".to_owned(),
            Self::NoteTooLong => "Note was too long".to_owned(),
            Self::InvalidMessageDeleteRange => "Provided too few or too many messages to delete. Must provide at least 2 and fewer than 100 messages to delete".to_owned(),
            Self::MessagePinnedInWrongChannel => "A message can only be pinned to the channel it was sent in".to_owned(),
            Self::InviteCodeInvalidOrTaken => "Invite code was either invalid or taken".to_owned(),
            Self::InvalidActionOnSystemMessage => "Cannot execute action on a system message".to_owned(),
            Self::CannotExecuteActionOnChannelType => "Cannot execute action on channel type".to_owned(),
            Self::InvalidOAuthAccessToken => "Invalid OAuth2 access token provided".to_owned(),
            Self::MissingOAuthScope => "Missing required OAuth2 scope".to_owned(),
            Self::InvalidWebhookToken => "Invalid webhook token provided.".to_owned(),
            Self::InvalidRole => "Invalid role".to_owned(),
            Self::InvalidRecipient => "Invalid recipient(s)".to_owned(),
            Self::MessageTooOldToBulkDelete => "A message provided was too old to bulk delete".to_owned(),
            Self::InvalidFormBodyOrContentType => "Invalid form body (returned for both application/json and multipart/form-data bodies), or invalid Content-Type provided".to_owned(),
            Self::InviteAcceptedToGuildBotNotIn => "An invite was accepted to a guild the application's bot is not in".to_owned(),
            Self::InvalidApiVersion => "Invalid API version provided".to_owned(),
            Self::CannotSelfRedeemGift => "Cannot self-redeem this gift".to_owned(),
            Self::PaymentRequiredForGift => "Payment source required to redeem gift".to_owned(),
            Self::CommunityGuildRequired => "Cannot delete a channel required for Community guilds".to_owned(),
            Self::InvalidStickerSent => "Invalid sticker sent".to_owned(),
            Self::ThreadArchived => "Tried to perform an operation on an archived thread, such as editing a message or adding a user to the thread".to_owned(),
            Self::ThreadInvalidNotificationSettings => "Invalid thread notification settings".to_owned(),
            Self::ThreadInvalidBeforeValue => "`before` value is earlier than the thread creation date".to_owned(),
            Self::ServerNotAvailableLocation => "This server is not available in your location".to_owned(),
            Self::ServerNeedsMonetiazation => "This server needs monetization enabled in order to perform this action".to_owned(),
            Self::TwoFactorRequired => "Two factor is required for this operation".to_owned(),
            Self::NoSuchUser => "No users with DiscordTag exist".to_owned(),
            Self::ReactionBlocked => "Reaction was blocked".to_owned(),
            Self::ApiResourceOverloaded => "API resource is currently overloaded. Try again a little later".to_owned(),
            Self::StageAlreadyOpen => "The Stage is already open".to_owned(),
            Self::ThreadAlreadyCreated => "A thread has already been created for this message".to_owned(),
            Self::ThreadLocked => "Thread is locked".to_owned(),
            Self::MaxActiveThreads => "Maximum number of active threads reached".to_owned(),
            Self::MaxActiveAnnouncementThreads => "Maximum number of active announcement threads reached".to_owned(),
            Self::Other(n) => {
                let mut s = "An error code Twilight doesn't have registered: ".to_owned();
                s.append(decimal_string(*n).as_str());
                s
            },
        }
    }
}

impl From<u64> for ErrorCode {
    /// The error code a number denotes; an unregistered number is kept
    /// as is, so that no response is lost.
    fn from(n: u64) -> (r: Self) {
        match n {
            0 => Self::GeneralError,
            10001 => Self::UnknownAccount,
            10002 => Self::UnknownApplication,
            10003 => Self::UnknownChannel,
            10004 => Self::UnknownGuild,
            10005 => Self::UnknownIntegration,
            10006 => Self::UnknownInvite,
            10007 => Self::UnknownMember,
            10008 => Self::UnknownMessage,
            10009 => Self::UnknownPermissionOverwrite,
            10010 => Self::UnknownProvider,
            10011 => Self::UnknownRole,
            10012 => Self::UnknownToken,
            10013 => Self::UnknownUser,
            10014 => Self::UnknownEmoji,
            10015 => Self::UnknownWebhook,
            10016 => Self::UnknownWebhookService,
            10020 => Self::UnknownSession,
            10026 => Self::UnknownBan,
            10027 => Self::UnknownSKU,
            10028 => Self::UnknownStoreListing,
            10029 => Self::UnknownEntitlement,
            10030 => Self::UnknownBuild,
            10031 => Self::UnknownLobby,
            10032 => Self::UnknownBranch,
            10033 => Self::UnknownStoreDirectoryLayout,
            10036 => Self::UnknownRedistributable,
            10038 => Self::UnknownGiftCode,
            10049 => Self::UnknownStream,
            10050 => Self::UnknownPremiumServerSubscribeCooldown,
            10057 => Self::UnknownGuildTemplate,
            10059 => Self::UnknownDiscoverableServerCategory,
            10060 => Self::UnknownSticker,
            10062 => Self::UnknownInteraction,
            10063 => Self::UnknownApplicationCommand,
            10066 => Self::UnknownApplicationCommandPermissions,
            10067 => Self::UnknownStageInstance,
            10068 => Self::UnknownGuildMemberVerificationForm,
            10069 => Self::UnknownGuildWelcomeScreen,
            10070 => Self::UnknownGuildScheduledEvent,
            10071 => Self::UnknownGuildScheduledEventUser,
            20001 => Self::BotsCannotUseEndpoint,
            20002 => Self::OnlyBotsCanUseEndpoint,
            20022 => Self::AnnouncementRateLimitReached,
            20009 => Self::ExplicitContentSendingBlocked,
            20012 => Self::UnauthorizedApplicationAction,
            20016 => Self::SlowModeRateLimitReached,
            20018 => Self::NotAccountOwner,
            20028 => Self::ChannelRateLimitReached,
            20031 => Self::UnallowedWords,
            20035 => Self::GuildPremiumTooLow,
            30001 => Self::MaximumGuildsReached,
            30002 => Self::MaximumFriendsReached,
            30003 => Self::MaximumPinsReached,
            30004 => Self::MaximumRecipientsReached,
            30005 => Self::MaximumRolesReached,
            30007 => Self::MaximumWebhooksReached,
            30008 => Self::MaximumEmojisReached,
            30010 => Self::MaximumReactionsReached,
            30013 => Self::MaximumGuildChannelsReached,
            30015 => Self::MaximumAttachmentsReached,
            30016 => Self::MaximumInvitesReached,
            30018 => Self::MaximumAnimatedEmojisReached,
            30019 => Self::MaximumGuildMembersReached,
            30030 => Self::MaximumServerCategoriesReached,
            30031 => Self::GuildTemplateAlreadyExist,
            30033 => Self::ThreadMaxParticipants,
            30035 => Self::MaximumNonGuildBansReached,
            30037 => Self::MaximumGuildBansFetchesReached,
            30039 => Self::MaximumStickersReached,
            30040 => Self::MaximumPruneRequestsReached,
            40001 => Self::Unauthorized,
            40002 => Self::AccountNeedsVerification,
            40003 => Self::OpeningDirectMessageRateLimitReached,
            40005 => Self::RequestEntityTooLarge,
            40006 => Self::FeatureTemporarilyDisabled,
            40007 => Self::UserBannedFromGuild,
            40032 => Self::UserNotInVoice,
            40033 => Self::MessageAlreadyCrossposted,
            40041 => Self::CommandNameAlreadyExists,
            50001 => Self::Missingaccess,
            50002 => Self::InvalidAccountType,
            50003 => Self::InvalidDMChannelAction,
            50004 => Self::GuildWidgetDisabled,
            50005 => Self::MessageNotAuthoredByUser,
            50006 => Self::EmptyMessage,
            50007 => Self::CannotSendMessageToUser,
            50008 => Self::CannotSendMessagesInVoiceChannel,
            50009 => Self::VerificationLevelTooHigh,
            50010 => Self::OAuthApplicationHasNoBot,
            50011 => Self::OAuthApplicationLimitReached,
            50012 => Self::InvalidOAuthSstate,
            50013 => Self::PermissionsLacking,
            50014 => Self::InvalidAuthenticationTokenProvided,
            50015 => Self::NoteTooLong,
            50016 => Self::InvalidMessageDeleteRange,
            50019 => Self::MessagePinnedInWrongChannel,
            50020 => Self::InviteCodeInvalidOrTaken,
            50021 => Self::InvalidActionOnSystemMessage,
            50024 => Self::CannotExecuteActionOnChannelType,
            50025 => Self::InvalidOAuthAccessToken,
            50026 => Self::MissingOAuthScope,
            50027 => Self::InvalidWebhookToken,
            50028 => Self::InvalidRole,
            50033 => Self::InvalidRecipient,
            50034 => Self::MessageTooOldToBulkDelete,
            50035 => Self::InvalidFormBodyOrContentType,
            50036 => Self::InviteAcceptedToGuildBotNotIn,
            50041 => Self::InvalidApiVersion,
            50054 => Self::CannotSelfRedeemGift,
            50070 => Self::PaymentRequiredForGift,
            50074 => Self::CommunityGuildRequired,
            50081 => Self::InvalidStickerSent,
            50083 => Self::ThreadArchived,
            50084 => Self::ThreadInvalidNotificationSettings,
            50085 => Self::ThreadInvalidBeforeValue,
            50095 => Self::ServerNotAvailableLocation,
            50097 => Self::ServerNeedsMonetiazation,
            60003 => Self::TwoFactorRequired,
            80004 => Self::NoSuchUser,
            90001 => Self::ReactionBlocked,
            130000 => Self::ApiResourceOverloaded,
            150006 => Self::StageAlreadyOpen,
            160004 => Self::ThreadAlreadyCreated,
            160005 => Self::ThreadLocked,
            160006 => Self::MaxActiveThreads,
            160007 => Self::MaxActiveAnnouncementThreads,
            other => Self::Other(other),
        }
    }
}

impl vstd::std_specs::convert::FromSpecImpl<u64> for ErrorCode {
    open spec fn obeys_from_spec() -> bool {
        true
    }

    open spec fn from_spec(v: u64) -> Self {
        error_code_from(v)
    }
}

/// Every number maps to an error code bearing that number.
pub proof fn lemma_error_code_roundtrip(n: u64)
    ensures
        error_code_num(error_code_from(n)) == n,
{
}

/// Every code whose number is registered in the catalog maps back from
/// its number.
pub proof fn lemma_error_code_canonical(e: ErrorCode)
    requires
        e matches ErrorCode::Other(n) ==> error_code_from(n) is Other,
    ensures
        error_code_from(error_code_num(e)) == e,
{
}
// ---------------------------------------------------------------------------
// Decimal rendering of code numbers
// ---------------------------------------------------------------------------

/// The digit character of one decimal digit.
pub open spec fn digit_char(d: u64) -> char
    recommends
        d < 10,
{
    if d == 0 {
        '0'
    } else if d == 1 {
        '1'
    } else if d == 2 {
        '2'
    } else if d == 3 {
        '3'
    } else if d == 4 {
        '4'
    } else if d == 5 {
        '5'
    } else if d == 6 {
        '6'
    } else if d == 7 {
        '7'
    } else if d == 8 {
        '8'
    } else {
        '9'
    }
}

/// The decimal rendering of a number, most significant digit first.
pub open spec fn dec_str(n: u64) -> Seq<char>
    decreases n,
{
    if n < 10 {
        seq![digit_char(n)]
    } else {
        dec_str(n / 10).push(digit_char(n % 10))
    }
}

/// The one-character string of one decimal digit.
fn digit_str(d: u64) -> (r: &'static str)
    requires
        d < 10,
    ensures
        r@ == seq![digit_char(d)],
{
    if d == 0 {
        proof {
            reveal_strlit("0");
            assert("0"@ =~= seq![digit_char(0)]);
        }
        "0"
    } else if d == 1 {
        proof {
            reveal_strlit("1");
            assert("1"@ =~= seq![digit_char(1)]);
        }
        "1"
    } else if d == 2 {
        proof {
            reveal_strlit("2");
            assert("2"@ =~= seq![digit_char(2)]);
        }
        "2"
    } else if d == 3 {
        proof {
            reveal_strlit("3");
            assert("3"@ =~= seq![digit_char(3)]);
        }
        "3"
    } else if d == 4 {
        proof {
            reveal_strlit("4");
            assert("4"@ =~= seq![digit_char(4)]);
        }
        "4"
    } else if d == 5 {
        proof {
            reveal_strlit("5");
            assert("5"@ =~= seq![digit_char(5)]);
        }
        "5"
    } else if d == 6 {
        proof {
            reveal_strlit("6");
            assert("6"@ =~= seq![digit_char(6)]);
        }
        "6"
    } else if d == 7 {
        proof {
            reveal_strlit("7");
            assert("7"@ =~= seq![digit_char(7)]);
        }
        "7"
    } else if d == 8 {
        proof {
            reveal_strlit("8");
            assert("8"@ =~= seq![digit_char(8)]);
        }
        "8"
    } else {
        proof {
            reveal_strlit("9");
            assert("9"@ =~= seq![digit_char(9)]);
        }
        "9"
    }
}

/// The decimal rendering of a number.
pub fn decimal_string(n: u64) -> (s: String)
    ensures
        s@ == dec_str(n),
    decreases n,
{
    if n < 10 {
        digit_str(n).to_owned()
    } else {
        proof {
            assert(n / 10 < n) by (nonlinear_arith)
                requires
                    n >= 10,
            ;
        }
        let mut s = decimal_string(n / 10);
        s.append(digit_str(n % 10));
        proof {
            assert(dec_str(n / 10).push(digit_char(n % 10)) =~= dec_str(n / 10) + seq![
                digit_char(n % 10),
            ]);
        }
        s
    }
}

// ---------------------------------------------------------------------------
// Error payload records
// ---------------------------------------------------------------------------

/// Mathematical view of a general error payload.
pub ghost struct GeneralApiErrorView {
    pub code: ErrorCode,
    pub message: Seq<char>,
}

/// An error response carrying a code and the server's message.
pub struct GeneralApiError {
    pub code: ErrorCode,
    pub message: String,
}

impl View for GeneralApiError {
    type V = GeneralApiErrorView;

    open spec fn view(&self) -> GeneralApiErrorView {
        GeneralApiErrorView { code: self.code, message: self.message@ }
    }
}

/// The display line of a general error: its code's number, then the
/// server's message.
pub open spec fn general_api_error_display(e: GeneralApiErrorView) -> Seq<char> {
    "Error code "@ + dec_str(error_code_num(e.code)) + ": "@ + e.message
}

impl GeneralApiError {
    /// The display line of this error.
    pub fn display_string(&self) -> (r: String)
        ensures
            r@ == general_api_error_display(self@),
    {
        let mut s = "Error code ".to_owned();
        s.append(decimal_string(self.code.num()).as_str());
        s.append(": ");
        s.append(self.message.as_str());
        s
    }
}

/// A field of an embed that the API rejected.
#[derive(Clone, Copy, Debug, Eq, PartialEq, Structural)]
pub enum MessageApiErrorEmbedField {
    /// Something was wrong with the provided fields.
    Fields,
    /// The provided timestamp wasn't a valid RFC3339 string.
    Timestamp,
}

/// The display word of an embed field.
pub open spec fn embed_field_display(f: MessageApiErrorEmbedField) -> Seq<char> {
    match f {
        MessageApiErrorEmbedField::Fields => "fields"@,
        MessageApiErrorEmbedField::Timestamp => "timestamp"@,
    }
}

impl MessageApiErrorEmbedField {
    /// The display word of this embed field.
    pub fn display_string(&self) -> (r: String)
        ensures
            r@ == embed_field_display(*self),
    {
        match self {
            Self::Fields => "fields".to_owned(),
            Self::Timestamp => "timestamp".to_owned(),
        }
    }
}

/// Mathematical view of a message error payload.
pub ghost struct MessageApiErrorView {
    pub embed: Option<Seq<MessageApiErrorEmbedField>>,
}

/// Sending a message failed because the provided fields contained
/// invalid input.
pub struct MessageApiError {
    /// Fields within a provided embed were invalid.
    pub embed: Option<Vec<MessageApiErrorEmbedField>>,
}

impl View for MessageApiError {
    type V = MessageApiErrorView;

    open spec fn view(&self) -> MessageApiErrorView {
        MessageApiErrorView {
            embed: match self.embed {
                None => None,
                Some(v) => Some(v@),
            },
        }
    }
}

/// The display words of a list of embed fields, one after the other.
pub open spec fn embed_fields_concat(fs: Seq<MessageApiErrorEmbedField>) -> Seq<char>
    decreases fs.len(),
{
    if fs.len() == 0 {
        Seq::empty()
    } else {
        embed_field_display(fs[0]) + embed_fields_concat(fs.drop_first())
    }
}

/// Appending one more field appends its display word.
pub proof fn lemma_embed_fields_concat_push(
    fs: Seq<MessageApiErrorEmbedField>,
    f: MessageApiErrorEmbedField,
)
    ensures
        embed_fields_concat(fs.push(f)) == embed_fields_concat(fs) + embed_field_display(f),
    decreases fs.len(),
{
    if fs.len() == 0 {
        assert(fs.push(f)[0] == f);
        assert(fs.push(f).drop_first() =~= Seq::<MessageApiErrorEmbedField>::empty());
        assert(embed_fields_concat(fs.push(f).drop_first()) == Seq::<char>::empty());
        assert(embed_field_display(f) + Seq::<char>::empty() =~= embed_field_display(f));
        assert(embed_fields_concat(fs.push(f)) =~= embed_field_display(f));
        assert(embed_fields_concat(fs) + embed_field_display(f) =~= embed_field_display(f));
    } else {
        assert(fs.push(f)[0] == fs[0]);
        assert(fs.push(f).drop_first() =~= fs.drop_first().push(f));
        lemma_embed_fields_concat_push(fs.drop_first(), f);
        assert(embed_field_display(fs[0]) + (embed_fields_concat(fs.drop_first())
            + embed_field_display(f)) =~= (embed_field_display(fs[0]) + embed_fields_concat(
            fs.drop_first(),
        )) + embed_field_display(f));
    }
}

/// The display line of a message error: the embed fields in order, with a
/// separator written after the last one.
pub open spec fn message_api_error_display(e: MessageApiErrorView) -> Seq<char> {
    "message fields invalid: "@ + match e.embed {
        None => Seq::empty(),
        Some(fs) => "embed ("@ + (if fs.len() == 0 {
            Seq::empty()
        } else {
            embed_fields_concat(fs) + ", "@
        }) + ")"@,
    }
}

impl MessageApiError {
    /// The display line of this error.
    pub fn display_string(&self) -> (r: String)
        ensures
            r@ == message_api_error_display(self@),
    {
        let mut s = "message fields invalid: ".to_owned();
        match &self.embed {
            None => {
                proof {
                    assert(s@ =~= message_api_error_display(self@));
                }
            },
            Some(embed) => {
                s.append("embed (");
                let ghost base = "message fields invalid: "@ + "embed ("@;
                let field_count = if embed.len() > 0 {
                    embed.len() - 1
                } else {
                    0
                };
                let mut idx: usize = 0;
                while idx < embed.len()
                    invariant
                        idx <= embed@.len(),
                        field_count == if embed@.len() > 0 {
                            embed@.len() - 1
                        } else {
                            0
                        },
                        idx < embed@.len() ==> s@ == base + embed_fields_concat(
                            embed@.take(idx as int),
                        ),
                        idx == embed@.len() && embed@.len() > 0 ==> s@ == base
                            + embed_fields_concat(embed@) + ", "@,
                        idx == 0 ==> s@ == base,
                    decreases embed@.len() - idx,
                {
                    let word = embed[idx].display_string();
                    s.append(word.as_str());
                    proof {
                        assert(embed@.take(idx as int).push(embed@[idx as int]) =~= embed@.take(
                            idx as int + 1,
                        ));
                        lemma_embed_fields_concat_push(embed@.take(idx as int), embed@[idx as int]);
                    }
                    if idx == field_count {
                        s.append(", ");
                    }
                    idx = idx + 1;
                    proof {
                        assert(embed@.take(embed@.len() as int) =~= embed@);
                    }
                }
                s.append(")");
                proof {
                    assert(s@ =~= message_api_error_display(self@));
                }
            },
        }
        s
    }
}

} // verus!
