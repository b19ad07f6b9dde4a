//! The data model: users, servers, channels, messages and the records that
//! travel over the gateway.

use vstd::prelude::*;

pub mod channel;
pub mod embed;
pub mod error;
pub mod events;
pub mod file;
pub mod message;
pub mod revolt;
pub mod server;
pub mod timestamp;
pub mod user;

verus! {

/// What an emoji is attached to: a server, or nothing.
#[derive(Debug, Clone, PartialEq)]
pub enum Parent {
    Server { id: String },
    Detached,
}

/// A custom emoji.
#[derive(Debug, Clone, PartialEq)]
pub struct Emoji {
    pub id: String,
    pub parent: Parent,
    pub creator_id: String,
    pub name: String,
    pub animated: bool,
    pub nsfw: bool,
}

/// A permission a member may hold in a server or channel.
#[derive(Debug, Clone, Copy, PartialEq, Eq, Structural)]
pub enum Permission {
    ManageChannel,
    ManageServer,
    ManagePermissions,
    ManageRole,
    ManageCustomisation,
    KickMembers,
    BanMembers,
    TimeoutMembers,
    AssignRoles,
    ChangeNickname,
    ManageNicknames,
    ChangeAvatar,
    RemoveAvatars,
    ViewChannel,
    ReadMessageHistory,
    SendMessage,
    ManageMessages,
    ManageWebhooks,
    InviteOthers,
    SendEmbeds,
    UploadFiles,
    Masquerade,
    React,
    Connect,
    Speak,
    Video,
    MuteMembers,
    DeafenMembers,
    MoveMembers,
    GrantAllSafe,
    GrantAll,
}

impl Permission {
    /// The bit (or bit mask) this permission occupies in a permission set.
    pub open spec fn spec_bits(self) -> u64 {
        match self {
            Permission::ManageChannel => 1u64 << 0,
            Permission::ManageServer => 1u64 << 1,
            Permission::ManagePermissions => 1u64 << 2,
            Permission::ManageRole => 1u64 << 3,
            Permission::ManageCustomisation => 1u64 << 4,
            Permission::KickMembers => 1u64 << 6,
            Permission::BanMembers => 1u64 << 7,
            Permission::TimeoutMembers => 1u64 << 8,
            Permission::AssignRoles => 1u64 << 9,
            Permission::ChangeNickname => 1u64 << 10,
            Permission::ManageNicknames => 1u64 << 11,
            Permission::ChangeAvatar => 1u64 << 12,
            Permission::RemoveAvatars => 1u64 << 13,
            Permission::ViewChannel => 1u64 << 20,
            Permission::ReadMessageHistory => 1u64 << 21,
            Permission::SendMessage => 1u64 << 22,
            Permission::ManageMessages => 1u64 << 23,
            Permission::ManageWebhooks => 1u64 << 24,
            Permission::InviteOthers => 1u64 << 25,
            Permission::SendEmbeds => 1u64 << 26,
            Permission::UploadFiles => 1u64 << 27,
            Permission::Masquerade => 1u64 << 28,
            Permission::React => 1u64 << 29,
            Permission::Connect => 1u64 << 30,
            Permission::Speak => 1u64 << 31,
            Permission::Video => 1u64 << 32,
            Permission::MuteMembers => 1u64 << 33,
            Permission::DeafenMembers => 1u64 << 34,
            Permission::MoveMembers => 1u64 << 35,
            Permission::GrantAllSafe => 0x000F_FFFF_FFFF_FFFF,
            Permission::GrantAll => 0xFFFF_FFFF_FFFF_FFFF,
        }
    }

    /// The bit (or bit mask) this permission occupies in a permission set.
    #[verifier::when_used_as_spec(spec_bits)]
    pub fn bits(self) -> (r: u64)
        ensures
            r == self.spec_bits(),
    {
        match self {
            Permission::ManageChannel => 1u64 << 0,
            Permission::ManageServer => 1u64 << 1,
            Permission::ManagePermissions => 1u64 << 2,
            Permission::ManageRole => 1u64 << 3,
            Permission::ManageCustomisation => 1u64 << 4,
            Permission::KickMembers => 1u64 << 6,
            Permission::BanMembers => 1u64 << 7,
            Permission::TimeoutMembers => 1u64 << 8,
            Permission::AssignRoles => 1u64 << 9,
            Permission::ChangeNickname => 1u64 << 10,
            Permission::ManageNicknames => 1u64 << 11,
            Permission::ChangeAvatar => 1u64 << 12,
            Permission::RemoveAvatars => 1u64 << 13,
            Permission::ViewChannel => 1u64 << 20,
            Permission::ReadMessageHistory => 1u64 << 21,
            Permission::SendMessage => 1u64 << 22,
            Permission::ManageMessages => 1u64 << 23,
            Permission::ManageWebhooks => 1u64 << 24,
            Permission::InviteOthers => 1u64 << 25,
            Permission::SendEmbeds => 1u64 << 26,
            Permission::UploadFiles => 1u64 << 27,
            Permission::Masquerade => 1u64 << 28,
            Permission::React => 1u64 << 29,
            Permission::Connect => 1u64 << 30,
            Permission::Speak => 1u64 << 31,
            Permission::Video => 1u64 << 32,
            Permission::MuteMembers => 1u64 << 33,
            Permission::DeafenMembers => 1u64 << 34,
            Permission::MoveMembers => 1u64 << 35,
            Permission::GrantAllSafe => 0x000F_FFFF_FFFF_FFFF,
            Permission::GrantAll => 0xFFFF_FFFF_FFFF_FFFF,
        }
    }
}

/// A badge shown on a user's profile.
#[derive(Debug, Clone, Copy, PartialEq, Eq, Structural)]
pub enum Badge {
    Developer,
    Translator,
    Supporter,
    ResponsibleDisclosure,
    Founder,
    PlatformModeration,
    ActiveSupporter,
    Paw,
    EarlyAdopter,
    ReservedRelevantJokeBadge1,
    ReservedRelevantJokeBadge2,
}

impl Badge {
    /// The bit this badge occupies in a user's badge set.
    pub open spec fn spec_bits(self) -> i32 {
        match self {
            Badge::Developer => 1,
            Badge::Translator => 2,
            Badge::Supporter => 4,
            Badge::ResponsibleDisclosure => 8,
            Badge::Founder => 16,
            Badge::PlatformModeration => 32,
            Badge::ActiveSupporter => 64,
            Badge::Paw => 128,
            Badge::EarlyAdopter => 256,
            Badge::ReservedRelevantJokeBadge1 => 512,
            Badge::ReservedRelevantJokeBadge2 => 1024,
        }
    }

    /// The bit this badge occupies in a user's badge set.
    #[verifier::when_used_as_spec(spec_bits)]
    pub fn bits(self) -> (r: i32)
        ensures
            r == self.spec_bits(),
    {
        match self {
            Badge::Developer => 1,
            Badge::Translator => 2,
            Badge::Supporter => 4,
            Badge::ResponsibleDisclosure => 8,
            Badge::Founder => 16,
            Badge::PlatformModeration => 32,
            Badge::ActiveSupporter => 64,
            Badge::Paw => 128,
            Badge::EarlyAdopter => 256,
            Badge::ReservedRelevantJokeBadge1 => 512,
            Badge::ReservedRelevantJokeBadge2 => 1024,
        }
    }
}

/// A moderation flag set on an account.
#[derive(Debug, Clone, Copy, PartialEq, Eq, Structural)]
pub enum Flag {
    Suspended,
    Deleted,
    Banned,
    Spam,
}

impl Flag {
    /// The bit this flag occupies in an account's flag set.
    pub open spec fn spec_bits(self) -> i32 {
        match self {
            Flag::Suspended => 1,
            Flag::Deleted => 2,
            Flag::Banned => 4,
            Flag::Spam => 8,
        }
    }

    /// The bit this flag occupies in an account's flag set.
    #[verifier::when_used_as_spec(spec_bits)]
    pub fn bits(self) -> (r: i32)
        ensures
            r == self.spec_bits(),
    {
        match self {
            Flag::Suspended => 1,
            Flag::Deleted => 2,
            Flag::Banned => 4,
            Flag::Spam => 8,
        }
    }
}

} // verus!
