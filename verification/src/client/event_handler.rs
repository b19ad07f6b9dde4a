//! The outward-facing callback surface: one method per event kind, each
//! defaulting to a no-op.

use vstd::prelude::*;

use crate::client::context::Context;
use crate::models::channel::Channel;
use crate::models::events::server::AuthEvent;
use crate::models::events::server::BulkEvent;
use crate::models::events::server::ChannelMessageAcknowledgeEvent;
use crate::models::events::server::ChannelUpdateEvent;
use crate::models::events::server::EmbedAppendEvent;
use crate::models::events::server::Event;
use crate::models::events::server::MessageReactEvent;
use crate::models::events::server::PongEvent;
use crate::models::events::server::ReadyEvent;
use crate::models::events::server::RemoveReactionEvent;
use crate::models::events::server::RoleEvent;
use crate::models::events::server::ServerError;
use crate::models::events::server::ServerMemberUpdate;
use crate::models::events::server::ServerRoleUpdate;
use crate::models::events::server::ServerUpdateEvent;
use crate::models::events::server::UserPlatformWipeEvent;
use crate::models::events::server::UserRelationshipEvent;
use crate::models::events::server::UserUpdate;
use crate::models::message::Message;
use crate::models::message::PartialMessage;
use crate::models::server::Server;
use crate::models::Emoji;
use crate::websocket::SocketError;

verus! {

/// One method per event kind the gateway can deliver; every method
/// defaults to a no-op, so an implementation overrides only what it cares
/// about. Exactly one method is invoked per inbound item, with the
/// per-event [`Context`]; it runs to completion before the dispatch loop
/// takes the next item.
pub trait EventHandler {
    /// A received event kind this library has no richer representation for.
    fn received_unhandled_event(&self) {
    }

    /// A transport or decode error was delivered on the inbound queue.
    fn socket_error(&self, _ctx: &mut Context, _socket_error: SocketError) {
    }

    /// The gateway reported an error in-band.
    fn server_error(&self, _ctx: &mut Context, _server_error: ServerError) {
    }

    /// The session's authentication was accepted.
    fn authenticated(&self, _ctx: &mut Context) {
    }

    /// Several events arrived as one frame.
    fn bulk(&self, _ctx: &mut Context, _bulk: BulkEvent) {
    }

    /// The gateway answered a heartbeat ping.
    fn pong(&self, _ctx: &mut Context, _pong: PongEvent) {
    }

    /// The initial snapshot arrived.
    fn ready(&self, _ctx: &mut Context, _ready: ReadyEvent) {
    }

    /// A message was posted.
    fn message_received(&self, _ctx: &mut Context, _msg: Message) {
    }

    /// A message was edited.
    fn message_updated(&self, _ctx: &mut Context, _msg: PartialMessage) {
    }

    /// Embeds were appended to a message.
    fn embed_append(&self, _ctx: &mut Context, _append: EmbedAppendEvent) {
    }

    /// A message was deleted; the deleted message itself is passed when it
    /// was cached, and is absent otherwise.
    fn message_deleted(&self, _ctx: &mut Context, _msg: Option<Message>) {
    }

    /// A user reacted on a message.
    fn message_reacted(&self, _ctx: &mut Context, _msg_react: MessageReactEvent) {
    }

    /// A user removed their reaction from a message.
    fn message_unreacted(&self, _ctx: &mut Context, _msg_react: MessageReactEvent) {
    }

    /// Every reaction under one emoji was removed from a message.
    fn message_react_removed(&self, _ctx: &mut Context, _react_remove: RemoveReactionEvent) {
    }

    /// A channel was created.
    fn channel_created(&self, _ctx: &mut Context, _channel: Channel) {
    }

    /// A channel record changed.
    fn channel_updated(&self, _ctx: &mut Context, _channel_event: ChannelUpdateEvent) {
    }

    /// A channel was deleted.
    fn channel_deleted(&self, _ctx: &mut Context, _channel_id: String) {
    }

    /// A user joined a group channel.
    fn user_joined_group(&self, _ctx: &mut Context, _channel_event: Event) {
    }

    /// A user left a group channel.
    fn user_left_group(&self, _ctx: &mut Context, _channel_event: Event) {
    }

    /// A user started typing in a channel.
    fn user_started_typing(&self, _ctx: &mut Context, _channel_event: Event) {
    }

    /// A user stopped typing in a channel.
    fn user_stopped_typing(&self, _ctx: &mut Context, _channel_event: Event) {
    }

    /// A user acknowledged messages in a channel.
    fn messages_acknowledged(
        &self,
        _ctx: &mut Context,
        _acknowlege_event: ChannelMessageAcknowledgeEvent,
    ) {
    }

    /// A server was created or joined.
    fn server_created(&self, _ctx: &mut Context, _server: Server) {
    }

    /// A server record changed.
    fn server_updated(&self, _ctx: &mut Context, _server_event: ServerUpdateEvent) {
    }

    /// A server was deleted or left.
    fn server_deleted(&self, _ctx: &mut Context, _server_id: String) {
    }

    /// A member's record in a server changed.
    fn member_updated(&self, _ctx: &mut Context, _member_update: ServerMemberUpdate) {
    }

    /// A user joined a server.
    fn member_joined(&self, _ctx: &mut Context, _member_event: Event) {
    }

    /// Another user left a server.
    fn member_left(&self, _ctx: &mut Context, _member_event: Event) {
    }

    /// A role of a server changed.
    fn role_updated(&self, _ctx: &mut Context, _role_update: ServerRoleUpdate) {
    }

    /// A role of a server was deleted.
    fn role_deleted(&self, _ctx: &mut Context, _role_event: RoleEvent) {
    }

    /// A user record changed.
    fn user_updated(&self, _ctx: &mut Context, _user_update: UserUpdate) {
    }

    /// The relationship with another user changed.
    fn relationship_update(&self, _ctx: &mut Context, _relationship_update: UserRelationshipEvent) {
    }

    /// A user was wiped from the platform.
    fn user_wiped_from_platform(&self, _ctx: &mut Context, _wipe_event: UserPlatformWipeEvent) {
    }

    /// A custom emoji was created.
    fn emoji_created(&self, _ctx: &mut Context, _emoji: Emoji) {
    }

    /// A custom emoji was deleted.
    fn emoji_deleted(&self, _ctx: &mut Context, _emoji_id: String) {
    }

    /// An authentication-lifecycle event arrived.
    fn auth(&self, _ctx: &mut Context, _auth_event: AuthEvent) {
    }
}

} // verus!
