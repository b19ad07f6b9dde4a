//! Events the gateway delivers to the client.

use vstd::prelude::*;

use crate::models::channel::Channel;
use crate::models::channel::partial_channel::PartialChannel;
use crate::models::embed::Embed;
use crate::models::file::File;
use crate::models::message::Message;
use crate::models::message::PartialMessage;
use crate::models::server::PartialServer;
use crate::models::server::Server;
use crate::models::timestamp::Timestamp;
use crate::models::user::RelationshipStatus;
use crate::models::user::User;
use crate::models::Emoji;

verus! {

/// An error the gateway reports in-band.
#[derive(Debug, Clone, Copy, PartialEq, Eq, Structural)]
pub enum ServerError {
    LabelMe,
    InternalError,
    InvalidSession,
    OnboardingNotFinished,
    AlreadyAuthenticated,
}

impl ServerError {
    /// A human-readable description of the error, one fixed text per
    /// variant.
    pub fn describe(&self) -> (r: &'static str)
        ensures
            r@ == (match self {
                ServerError::LabelMe => "Uncategorized error"@,
                ServerError::InternalError => "The server has encountered an error"@,
                ServerError::InvalidSession => "Authentication details are incorrect"@,
                ServerError::OnboardingNotFinished => "User has not chosen a username"@,
                ServerError::AlreadyAuthenticated => "This connection is already authenticated"@,
            }),
    {
        proof {
            reveal_strlit("Uncategorized error");
            reveal_strlit("The server has encountered an error");
            reveal_strlit("Authentication details are incorrect");
            reveal_strlit("User has not chosen a username");
            reveal_strlit("This connection is already authenticated");
        }
        match self {
            ServerError::LabelMe => "Uncategorized error",
            ServerError::InternalError => "The server has encountered an error",
            ServerError::InvalidSession => "Authentication details are incorrect",
            ServerError::OnboardingNotFinished => "User has not chosen a username",
            ServerError::AlreadyAuthenticated => "This connection is already authenticated",
        }
    }
}

/// A request to drop one session of a user.
#[derive(Debug, Clone, PartialEq)]
pub struct DeleteSession {
    pub user_id: String,
    pub session_id: String,
}

/// A request to drop every session of a user but one.
#[derive(Debug, Clone, PartialEq)]
pub struct DeleteAllSessions {
    pub user_id: String,
    pub exclude_session_id: String,
}

/// An authentication-lifecycle event.
#[derive(Debug, Clone, PartialEq)]
pub enum AuthEvent {
    DeleteSession(DeleteSession),
    DeleteAllSessions(DeleteAllSessions),
}

/// A user was wiped from the platform.
#[derive(Debug, Clone, PartialEq)]
pub struct UserPlatformWipeEvent {
    pub user_id: String,
    pub flags: i32,
}

/// The relationship between the current user and another changed.
#[derive(Debug, Clone, PartialEq)]
pub struct UserRelationshipEvent {
    pub id: String,
    pub user: User,
    pub status: RelationshipStatus,
}

/// A field of a user record that an update clears.
#[derive(Debug, Clone, Copy, PartialEq, Eq, Structural)]
pub enum UserClear {
    ProfileContent,
    ProfileBackground,
    StatusText,
    Avatar,
}

/// A sparse patch for a user record.
#[derive(Debug, Clone, PartialEq)]
pub struct PartialUser {}

/// A user record changed.
#[derive(Debug, Clone, PartialEq)]
pub struct UserUpdate {
    pub id: String,
    pub data: PartialUser,
    pub clear: Option<Vec<UserClear>>,
}

/// A role was deleted.
#[derive(Debug, Clone, PartialEq)]
pub struct RoleEvent {}

/// A sparse patch for a role.
#[derive(Debug, Clone, PartialEq)]
pub struct PartialRole {
    pub id: String,
    pub server: String,
}

/// A field of a role that an update clears.
#[derive(Debug, Clone, Copy, PartialEq, Eq, Structural)]
pub enum RoleClear {
    Colour,
}

/// A role of a server changed.
#[derive(Debug, Clone, PartialEq)]
pub struct ServerRoleUpdate {
    pub id: String,
    pub server: String,
    pub data: PartialRole,
    pub clear: Option<Vec<RoleClear>>,
}

/// The pair that identifies a member: the server and the user.
#[derive(Debug, Clone, PartialEq)]
pub struct ServerMemberId {
    pub server: String,
    pub user: String,
}

/// A sparse patch for a server member.
#[derive(Debug, Clone, PartialEq)]
pub struct PartialServerMember {}

/// A field of a member record that an update clears.
#[derive(Debug, Clone, Copy, PartialEq, Eq, Structural)]
pub enum ServerMemberClear {
    Nickname,
    Avatar,
}

/// A member of a server changed.
#[derive(Debug, Clone, PartialEq)]
pub struct ServerMemberUpdate {
    pub id: ServerMemberId,
    pub data: PartialServerMember,
    pub clear: Option<Vec<ServerMemberClear>>,
}

/// A server record changed.
#[derive(Debug, Clone)]
pub struct ServerUpdateEvent {
    pub id: String,
    pub data: PartialServer,
    pub clear: Option<Vec<ClearField>>,
}

/// A user acknowledged messages in a channel up to some message.
#[derive(Debug, Clone, PartialEq)]
pub struct ChannelMessageAcknowledgeEvent {
    pub id: String,
    pub user: String,
    pub message_id: String,
}

/// A minimal channel/user event: who did something, and where.
#[derive(Debug, Clone, PartialEq)]
pub struct Event {
    pub id: String,
    pub user: String,
}

/// A field of a channel or server record that an update clears.
#[derive(Debug, Clone, Copy, PartialEq, Eq, Structural)]
pub enum ClearField {
    Icon,
    Banner,
    Description,
}

/// A channel record changed.
#[derive(Debug, Clone)]
pub struct ChannelUpdateEvent {
    pub id: String,
    pub data: PartialChannel,
    pub clear: Vec<ClearField>,
}

/// Every reaction under one emoji was removed from a message.
#[derive(Debug, Clone, PartialEq)]
pub struct RemoveReactionEvent {
    pub id: String,
    pub channel_id: String,
    pub emoji_id: String,
}

/// A user reacted, or removed their reaction, on a message.
#[derive(Debug, Clone, PartialEq)]
pub struct MessageReactEvent {
    pub id: String,
    pub channel_id: String,
    pub user_id: String,
    pub emoji_id: String,
}

/// A message was deleted.
#[derive(Debug, Clone, PartialEq)]
pub struct MessageDeleteEvent {
    pub id: String,
    pub channel: String,
}

/// Embeds were appended to an existing message.
#[derive(Debug, Clone)]
pub struct EmbedAppendEvent {
    pub message: String,
    pub channel: String,
    pub append: EmbedAppends,
}

/// The embeds appended by an [`EmbedAppendEvent`].
#[derive(Debug)]
pub struct EmbedAppends {
    pub embeds: Option<Vec<Embed>>,
}

impl Clone for EmbedAppends {
    fn clone(&self) -> (res: Self)
        ensures
            res.embeds.deep_view() == self.embeds.deep_view(),
    {
        let embeds = self.embeds.clone();
        proof {
            assert(embeds.deep_view() =~= self.embeds.deep_view());
        }
        EmbedAppends { embeds }
    }
}

/// A message changed.
#[derive(Debug, Clone)]
pub struct MessageUpdateEvent {
    pub id: String,
    pub channel: String,
    pub data: PartialMessage,
}

/// The initial snapshot the gateway delivers after authentication.
#[derive(Debug, Clone)]
pub struct ReadyEvent {
    pub users: Vec<User>,
    pub servers: Vec<Server>,
    pub channels: Vec<Channel>,
    pub members: Vec<Member>,
    pub emojis: Option<Vec<Emoji>>,
}

/// A user's membership record in one server.
#[derive(Debug, Clone)]
pub struct Member {
    pub id: MemberId,
    pub joined_at: Timestamp,
    pub nickname: Option<String>,
    pub avatar: Option<File>,
    pub roles: Vec<String>,
    pub timeout: Option<Timestamp>,
}

/// The pair that identifies a membership record.
#[derive(Debug, Clone, PartialEq)]
pub struct MemberId {
    pub server: String,
    pub user: String,
}

/// Several gateway events delivered as one frame.
#[derive(Debug)]
pub struct BulkEvent {
    pub events: Vec<ServerEvent>,
}

/// The gateway's answer to a heartbeat ping.
#[derive(Debug, Clone, PartialEq)]
pub struct PongEvent {
    pub data: i32,
}

/// An inbound gateway event, one variant per event kind the wire protocol
/// defines, plus a catch-all for kinds this library does not know.
#[derive(Debug)]
pub enum ServerEvent {
    Error { error: ServerError },
    Authenticated,
    Bulk(BulkEvent),
    Pong(PongEvent),
    Ready(ReadyEvent),
    Message(Message),
    MessageUpdate(MessageUpdateEvent),
    MessageAppend(EmbedAppendEvent),
    MessageDelete(MessageDeleteEvent),
    MessageReact(MessageReactEvent),
    MessageUnreact(MessageReactEvent),
    MessageRemoveReaction(RemoveReactionEvent),
    ChannelCreate(Channel),
    ChannelUpdate(ChannelUpdateEvent),
    ChannelDelete { id: String },
    ChannelGroupJoin(Event),
    ChannelGroupLeave(Event),
    ChannelStartTyping(Event),
    ChannelStopTyping(Event),
    ChannelAck(ChannelMessageAcknowledgeEvent),
    ServerCreate(Server),
    ServerUpdate(ServerUpdateEvent),
    ServerDelete { id: String },
    ServerMemberUpdate(ServerMemberUpdate),
    ServerMemberJoin(Event),
    ServerMemberLeave(Event),
    ServerRoleUpdate(ServerRoleUpdate),
    ServerRoleDelete(RoleEvent),
    UserUpdate(UserUpdate),
    UserRelationship(UserRelationshipEvent),
    UserPlatformWipe(UserPlatformWipeEvent),
    EmojiCreate(Emoji),
    EmojiDelete { id: String },
    Auth(AuthEvent),
    /// A received event that has no richer representation here.
    Unknown,
}

} // verus!
