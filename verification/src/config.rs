//! Resource selection: which entity kinds the cache mirrors.

use vstd::prelude::*;

verus! {

/// One mirrorable entity kind.
#[derive(Clone, Copy, Debug, PartialEq, Eq, Structural)]
pub enum ResourceType {
    Channel,
    Emoji,
    Guild,
    Member,
    Message,
    Presence,
    Reaction,
    Role,
    UserCurrent,
    User,
    VoiceState,
}

/// The selector bit of one entity kind.
pub open spec fn resource_mask(rt: ResourceType) -> u64 {
    match rt {
        ResourceType::Channel => 0x1,
        ResourceType::Emoji => 0x2,
        ResourceType::Guild => 0x4,
        ResourceType::Member => 0x8,
        ResourceType::Message => 0x10,
        ResourceType::Presence => 0x20,
        ResourceType::Reaction => 0x40,
        ResourceType::Role => 0x80,
        ResourceType::UserCurrent => 0x100,
        ResourceType::User => 0x200,
        ResourceType::VoiceState => 0x400,
    }
}

/// The selector bitset covering every entity kind.
pub open spec fn all_resources_mask() -> u64 {
    0x7ff
}

impl ResourceType {
    /// The selector bit of this entity kind.
    pub fn mask(self) -> (r: u64)
        ensures
            r == resource_mask(self),
    {
        match self {
            ResourceType::Channel => 0x1,
            ResourceType::Emoji => 0x2,
            ResourceType::Guild => 0x4,
            ResourceType::Member => 0x8,
            ResourceType::Message => 0x10,
            ResourceType::Presence => 0x20,
            ResourceType::Reaction => 0x40,
            ResourceType::Role => 0x80,
            ResourceType::UserCurrent => 0x100,
            ResourceType::User => 0x200,
            ResourceType::VoiceState => 0x400,
        }
    }
}

/// Construction-time configuration: a resource-selector bitset with one bit
/// per entity kind.
pub struct Config {
    pub resource_types: u64,
}

impl Config {
    /// A configuration that mirrors every entity kind.
    pub fn all() -> (r: Config)
        ensures
            r.resource_types == all_resources_mask(),
    {
        Config { resource_types: 0x7ff }
    }
}

} // verus!
