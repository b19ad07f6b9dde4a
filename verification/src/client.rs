//! The session client and its event dispatch loop.
//!
//! Per inbound item the loop steps `Idle -> Resolving -> Dispatching ->
//! Merging -> Idle`: a fresh [`Context`] with an empty overlay is built
//! ([`RevoltClient::begin_event`]); the entities a message-bearing event
//! references are resolved channel-first ([`Context::set_context_data`],
//! with the caller performing the network fetches resolution asks for);
//! exactly one callback fires ([`handle_events`]); and the overlay is
//! merged back into the session cache ([`RevoltClient::finish_event`]).
//! The merge runs only after the handler has returned normally — a
//! handler that fails mid-way merges nothing (all-or-nothing) — while a
//! failed resolution still merges whatever partial overlay state already
//! exists before the loop continues.
//!
//! The loop is strictly sequential: one event is fully resolved,
//! dispatched and merged before the next is taken off the inbound queue,
//! so every event observes the cache state left by all previously
//! processed events and never a partially-merged overlay.

use vstd::prelude::*;

pub mod builder;
pub mod colors;
pub mod context;
pub mod event_handler;
pub mod harmony_error;

use crate::cache::Cache;
use crate::cache::CacheView;
use crate::cache::lemma_lookup_after_stored_message;
use crate::cache::lemma_lookup_after_upsert_server;
use crate::cache::lookup_channel;
use crate::cache::lookup_message;
use crate::cache::lookup_server;
use crate::cache::merge_channels;
use crate::cache::merge_messages;
use crate::cache::merge_servers;
use crate::cache::patched_messages;
use crate::cache::stored_messages;
use crate::cache::upsert_channel;
use crate::cache::upsert_server;
use crate::client::context::lemma_admitted_channel_is_hit;
use crate::client::context::Context;
use crate::client::event_handler::EventHandler;
use crate::models::channel::ChannelView;
use crate::models::events::client::ClientEvent;
use crate::models::events::client::ClientEventView;
use crate::models::events::server::ServerEvent;
use crate::models::message::MessageView;
use crate::models::message::PartialMessage;
use crate::models::message::PartialMessageView;
use crate::models::server::ServerView;
use crate::models::user::User;
use crate::websocket::SocketClient;
use crate::websocket::SocketError;

verus! {

/// A terminal session error: why `listen` gave up.
#[derive(Debug, Clone, PartialEq)]
pub enum RevoltClientError {
    /// No token was configured, so the session cannot authenticate.
    TokenMissing,
    /// The transport failed terminally.
    SocketError(SocketError),
    /// The inbound queue closed: the transport session is over.
    RecvError,
}

/// The callback a dispatched event fired, one variant per method of
/// [`EventHandler`].
#[derive(Debug, Clone, Copy, PartialEq, Eq, Structural)]
pub enum CallbackKind {
    ServerError,
    Authenticated,
    Bulk,
    Pong,
    Ready,
    MessageReceived,
    MessageUpdated,
    EmbedAppend,
    MessageDeleted,
    MessageReacted,
    MessageUnreacted,
    MessageReactRemoved,
    ChannelCreated,
    ChannelUpdated,
    ChannelDeleted,
    UserJoinedGroup,
    UserLeftGroup,
    UserStartedTyping,
    UserStoppedTyping,
    MessagesAcknowledged,
    ServerCreated,
    ServerUpdated,
    ServerDeleted,
    MemberUpdated,
    MemberJoined,
    MemberLeft,
    RoleUpdated,
    RoleDeleted,
    UserUpdated,
    RelationshipUpdate,
    UserWipedFromPlatform,
    EmojiCreated,
    EmojiDeleted,
    Auth,
    UnhandledEvent,
    SocketErrorCallback,
}

/// Which callback an event dispatches to: exactly one per event kind.
pub open spec fn spec_callback_for(event: ServerEvent) -> CallbackKind {
    match event {
        ServerEvent::Error { .. } => CallbackKind::ServerError,
        ServerEvent::Authenticated => CallbackKind::Authenticated,
        ServerEvent::Bulk(..) => CallbackKind::Bulk,
        ServerEvent::Pong(..) => CallbackKind::Pong,
        ServerEvent::Ready(..) => CallbackKind::Ready,
        ServerEvent::Message(..) => CallbackKind::MessageReceived,
        ServerEvent::MessageUpdate(..) => CallbackKind::MessageUpdated,
        ServerEvent::MessageAppend(..) => CallbackKind::EmbedAppend,
        ServerEvent::MessageDelete(..) => CallbackKind::MessageDeleted,
        ServerEvent::MessageReact(..) => CallbackKind::MessageReacted,
        ServerEvent::MessageUnreact(..) => CallbackKind::MessageUnreacted,
        ServerEvent::MessageRemoveReaction(..) => CallbackKind::MessageReactRemoved,
        ServerEvent::ChannelCreate(..) => CallbackKind::ChannelCreated,
        ServerEvent::ChannelUpdate(..) => CallbackKind::ChannelUpdated,
        ServerEvent::ChannelDelete { .. } => CallbackKind::ChannelDeleted,
        ServerEvent::ChannelGroupJoin(..) => CallbackKind::UserJoinedGroup,
        ServerEvent::ChannelGroupLeave(..) => CallbackKind::UserLeftGroup,
        ServerEvent::ChannelStartTyping(..) => CallbackKind::UserStartedTyping,
        ServerEvent::ChannelStopTyping(..) => CallbackKind::UserStoppedTyping,
        ServerEvent::ChannelAck(..) => CallbackKind::MessagesAcknowledged,
        ServerEvent::ServerCreate(..) => CallbackKind::ServerCreated,
        ServerEvent::ServerUpdate(..) => CallbackKind::ServerUpdated,
        ServerEvent::ServerDelete { .. } => CallbackKind::ServerDeleted,
        ServerEvent::ServerMemberUpdate(..) => CallbackKind::MemberUpdated,
        ServerEvent::ServerMemberJoin(..) => CallbackKind::MemberJoined,
        ServerEvent::ServerMemberLeave(..) => CallbackKind::MemberLeft,
        ServerEvent::ServerRoleUpdate(..) => CallbackKind::RoleUpdated,
        ServerEvent::ServerRoleDelete(..) => CallbackKind::RoleDeleted,
        ServerEvent::UserUpdate(..) => CallbackKind::UserUpdated,
        ServerEvent::UserRelationship(..) => CallbackKind::RelationshipUpdate,
        ServerEvent::UserPlatformWipe(..) => CallbackKind::UserWipedFromPlatform,
        ServerEvent::EmojiCreate(..) => CallbackKind::EmojiCreated,
        ServerEvent::EmojiDelete { .. } => CallbackKind::EmojiDeleted,
        ServerEvent::Auth(..) => CallbackKind::Auth,
        ServerEvent::Unknown => CallbackKind::UnhandledEvent,
    }
}

/// The channel — and, where present, message — a message-bearing event
/// references and the dispatch loop must resolve before its callback
/// fires; `None` for every other event kind, which dispatches without
/// resolution.
pub fn resolution_request(event: &ServerEvent) -> (r: Option<(String, Option<String>)>)
    ensures
        match event {
            ServerEvent::Message(m) => r matches Some((c, mid)) && c@ == m.channel@ && (
            mid matches Some(i) && i@ == m.id@),
            ServerEvent::MessageUpdate(e) => r matches Some((c, mid)) && c@ == e.channel@ && (
            mid matches Some(i) && i@ == e.id@),
            ServerEvent::MessageAppend(e) => r matches Some((c, mid)) && c@ == e.channel@ && (
            mid matches Some(i) && i@ == e.message@),
            ServerEvent::MessageDelete(e) => r matches Some((c, mid)) && c@ == e.channel@ && (
            mid matches Some(i) && i@ == e.id@),
            ServerEvent::MessageReact(e) => r matches Some((c, mid)) && c@ == e.channel_id@ && (
            mid matches Some(i) && i@ == e.id@),
            _ => r is None,
        },
{
    match event {
        ServerEvent::Message(m) => Some((m.channel.clone(), Some(m.id.clone()))),
        ServerEvent::MessageUpdate(e) => Some((e.channel.clone(), Some(e.id.clone()))),
        ServerEvent::MessageAppend(e) => Some((e.channel.clone(), Some(e.message.clone()))),
        ServerEvent::MessageDelete(e) => Some((e.channel.clone(), Some(e.id.clone()))),
        ServerEvent::MessageReact(e) => Some((e.channel_id.clone(), Some(e.id.clone()))),
        _ => None,
    }
}

/// The sparse patch an embed-append event amounts to: only the embeds
/// field, when the event carries any.
pub open spec fn spec_append_patch(embeds: Option<Seq<crate::models::embed::EmbedView>>)
    -> PartialMessageView {
    PartialMessageView {
        content: None,
        attachments: None,
        embeds,
        replies: None,
        masquerade: None,
    }
}

/// Stage an event's cache writes before its callback runs. Total: every
/// input is handled, and an edit or append whose message was not cached
/// stages nothing (there is no original to patch; the patch itself would
/// be a no-op on an absent ID).
///
/// A new message goes into both the session cache and the overlay (each
/// under its own bound). An edit stages the cached original into the
/// overlay and patches it there; an embed append does the same with the
/// patch the appended embeds amount to. No other event kind touches a
/// cache.
pub fn stage_event(ctx: &mut Context, event: &ServerEvent)
    ensures
        final(ctx).user == old(ctx).user,
        final(ctx).server == old(ctx).server,
        final(ctx).channel == old(ctx).channel,
        final(ctx).message == old(ctx).message,
        final(ctx).cache@.users == old(ctx).cache@.users,
        final(ctx).cache@.channels == old(ctx).cache@.channels,
        final(ctx).cache@.servers == old(ctx).cache@.servers,
        final(ctx).cache@.max_messages == old(ctx).cache@.max_messages,
        final(ctx).updated_cache@.users == old(ctx).updated_cache@.users,
        final(ctx).updated_cache@.channels == old(ctx).updated_cache@.channels,
        final(ctx).updated_cache@.servers == old(ctx).updated_cache@.servers,
        final(ctx).updated_cache@.max_messages == old(ctx).updated_cache@.max_messages,
        match event {
            ServerEvent::Message(m) => {
                &&& final(ctx).cache@.messages == stored_messages(
                    old(ctx).cache@.messages,
                    old(ctx).cache@.max_messages,
                    m@,
                )
                &&& final(ctx).updated_cache@.messages == stored_messages(
                    old(ctx).updated_cache@.messages,
                    old(ctx).updated_cache@.max_messages,
                    m@,
                )
            },
            ServerEvent::MessageUpdate(e) => {
                &&& final(ctx).cache@.messages == old(ctx).cache@.messages
                &&& final(ctx).updated_cache@.messages == (match old(ctx).message {
                    Some(m) => patched_messages(
                        stored_messages(
                            old(ctx).updated_cache@.messages,
                            old(ctx).updated_cache@.max_messages,
                            m@,
                        ),
                        e.id@,
                        e.data@,
                    ),
                    None => old(ctx).updated_cache@.messages,
                })
            },
            ServerEvent::MessageAppend(e) => {
                &&& final(ctx).cache@.messages == old(ctx).cache@.messages
                &&& final(ctx).updated_cache@.messages == (match old(ctx).message {
                    Some(m) => patched_messages(
                        stored_messages(
                            old(ctx).updated_cache@.messages,
                            old(ctx).updated_cache@.max_messages,
                            m@,
                        ),
                        e.message@,
                        spec_append_patch(e.append.embeds.deep_view()),
                    ),
                    None => old(ctx).updated_cache@.messages,
                })
            },
            _ => {
                &&& final(ctx).cache@.messages == old(ctx).cache@.messages
                &&& final(ctx).updated_cache@.messages == old(ctx).updated_cache@.messages
            },
        },
{
    match event {
        ServerEvent::Message(message) => {
            ctx.cache.add_message(message.clone());
            ctx.updated_cache.add_message(message.clone());
        },
        ServerEvent::MessageUpdate(msg_update) => {
            let original = match &ctx.message {
                Some(m) => m.clone(),
                None => {
                    return ;
                },
            };
            ctx.updated_cache.add_message(original);
            ctx.updated_cache.update_message(msg_update.id.as_str(), msg_update.data.clone());
        },
        ServerEvent::MessageAppend(append) => {
            let original = match &ctx.message {
                Some(m) => m.clone(),
                None => {
                    return ;
                },
            };
            let embeds = if let Some(e) = &append.append.embeds {
                let v = e.clone();
                proof {
                    assert(v.deep_view() =~= e.deep_view());
                }
                Some(v)
            } else {
                None
            };
            let partial = PartialMessage {
                content: None,
                attachments: None,
                embeds,
                replies: None,
                masquerade: None,
            };
            ctx.updated_cache.add_message(original);
            ctx.updated_cache.update_message(append.message.as_str(), partial);
        },
        _ => {},
    }
}

/// Dispatch one decoded event: stage its cache writes, then invoke
/// exactly one callback — the one the event's kind selects — passing the
/// context and the event's payload; the callback runs to completion
/// before this returns. Total: every event dispatches, never zero
/// callbacks and never two. The returned kind names the callback that
/// fired.
pub fn handle_events<H: EventHandler>(
    event_handler: &H,
    ctx: &mut Context,
    server_event: ServerEvent,
) -> (fired: CallbackKind)
    ensures
        fired == spec_callback_for(server_event),
{
    stage_event(ctx, &server_event);
    match server_event {
        ServerEvent::Error { error } => {
            event_handler.server_error(ctx, error);
            CallbackKind::ServerError
        },
        ServerEvent::Authenticated => {
            event_handler.authenticated(ctx);
            CallbackKind::Authenticated
        },
        ServerEvent::Bulk(bulk) => {
            event_handler.bulk(ctx, bulk);
            CallbackKind::Bulk
        },
        ServerEvent::Pong(pong) => {
            event_handler.pong(ctx, pong);
            CallbackKind::Pong
        },
        ServerEvent::Ready(ready) => {
            event_handler.ready(ctx, ready);
            CallbackKind::Ready
        },
        ServerEvent::Message(message) => {
            event_handler.message_received(ctx, message);
            CallbackKind::MessageReceived
        },
        ServerEvent::MessageUpdate(msg_update) => {
            event_handler.message_updated(ctx, msg_update.data);
            CallbackKind::MessageUpdated
        },
        ServerEvent::MessageAppend(append) => {
            event_handler.embed_append(ctx, append);
            CallbackKind::EmbedAppend
        },
        ServerEvent::MessageDelete(_msg_delete) => {
            let msg = match &ctx.message {
                Some(m) => Some(m.clone()),
                None => None,
            };
            event_handler.message_deleted(ctx, msg);
            CallbackKind::MessageDeleted
        },
        ServerEvent::MessageReact(msg_react) => {
            event_handler.message_reacted(ctx, msg_react);
            CallbackKind::MessageReacted
        },
        ServerEvent::MessageUnreact(msg_react) => {
            event_handler.message_unreacted(ctx, msg_react);
            CallbackKind::MessageUnreacted
        },
        ServerEvent::MessageRemoveReaction(react_remove) => {
            event_handler.message_react_removed(ctx, react_remove);
            CallbackKind::MessageReactRemoved
        },
        ServerEvent::ChannelCreate(channel) => {
            event_handler.channel_created(ctx, channel);
            CallbackKind::ChannelCreated
        },
        ServerEvent::ChannelUpdate(channel_event) => {
            event_handler.channel_updated(ctx, channel_event);
            CallbackKind::ChannelUpdated
        },
        ServerEvent::ChannelDelete { id } => {
            event_handler.channel_deleted(ctx, id);
            CallbackKind::ChannelDeleted
        },
        ServerEvent::ChannelGroupJoin(channel_event) => {
            event_handler.user_joined_group(ctx, channel_event);
            CallbackKind::UserJoinedGroup
        },
        ServerEvent::ChannelGroupLeave(channel_event) => {
            event_handler.user_left_group(ctx, channel_event);
            CallbackKind::UserLeftGroup
        },
        ServerEvent::ChannelStartTyping(channel_event) => {
            event_handler.user_started_typing(ctx, channel_event);
            CallbackKind::UserStartedTyping
        },
        ServerEvent::ChannelStopTyping(channel_event) => {
            event_handler.user_stopped_typing(ctx, channel_event);
            CallbackKind::UserStoppedTyping
        },
        ServerEvent::ChannelAck(acknowlege_event) => {
            event_handler.messages_acknowledged(ctx, acknowlege_event);
            CallbackKind::MessagesAcknowledged
        },
        ServerEvent::ServerCreate(server) => {
            event_handler.server_created(ctx, server);
            CallbackKind::ServerCreated
        },
        ServerEvent::ServerUpdate(server_event) => {
            event_handler.server_updated(ctx, server_event);
            CallbackKind::ServerUpdated
        },
        ServerEvent::ServerDelete { id } => {
            event_handler.server_deleted(ctx, id);
            CallbackKind::ServerDeleted
        },
        ServerEvent::ServerMemberUpdate(member_update) => {
            event_handler.member_updated(ctx, member_update);
            CallbackKind::MemberUpdated
        },
        ServerEvent::ServerMemberJoin(member_event) => {
            event_handler.member_joined(ctx, member_event);
            CallbackKind::MemberJoined
        },
        ServerEvent::ServerMemberLeave(member_event) => {
            event_handler.member_left(ctx, member_event);
            CallbackKind::MemberLeft
        },
        ServerEvent::ServerRoleUpdate(role_update) => {
            event_handler.role_updated(ctx, role_update);
            CallbackKind::RoleUpdated
        },
        ServerEvent::ServerRoleDelete(role_event) => {
            event_handler.role_deleted(ctx, role_event);
            CallbackKind::RoleDeleted
        },
        ServerEvent::UserUpdate(user_update) => {
            event_handler.user_updated(ctx, user_update);
            CallbackKind::UserUpdated
        },
        ServerEvent::UserRelationship(relationship_update) => {
            event_handler.relationship_update(ctx, relationship_update);
            CallbackKind::RelationshipUpdate
        },
        ServerEvent::UserPlatformWipe(wipe_event) => {
            event_handler.user_wiped_from_platform(ctx, wipe_event);
            CallbackKind::UserWipedFromPlatform
        },
        ServerEvent::EmojiCreate(emoji) => {
            event_handler.emoji_created(ctx, emoji);
            CallbackKind::EmojiCreated
        },
        ServerEvent::EmojiDelete { id } => {
            event_handler.emoji_deleted(ctx, id);
            CallbackKind::EmojiDeleted
        },
        ServerEvent::Auth(auth_event) => {
            event_handler.auth(ctx, auth_event);
            CallbackKind::Auth
        },
        ServerEvent::Unknown => {
            event_handler.received_unhandled_event();
            CallbackKind::UnhandledEvent
        },
    }
}

/// Dispatch a transport or decode error item: the single socket-error
/// callback fires with a minimal context; no cache interaction.
pub fn dispatch_socket_error<H: EventHandler>(
    event_handler: &H,
    ctx: &mut Context,
    error: SocketError,
) -> (fired: CallbackKind)
    ensures
        fired == CallbackKind::SocketErrorCallback,
{
    event_handler.socket_error(ctx, error);
    CallbackKind::SocketErrorCallback
}

/// A realtime session: the shared cache, the transport session, and the
/// configured token.
pub struct RevoltClient {
    pub cache: Cache,
    pub socket: SocketClient,
    pub token: Option<String>,
}

impl RevoltClient {
    /// Start assembling a session.
    pub fn builder() -> (r: builder::RevoltClientBuilder)
        ensures
            r.token is None,
            r.max_messages == 256,
    {
        builder::RevoltClientBuilder::new()
    }

    /// A session over a connected transport, with an empty cache.
    pub fn new(socket: SocketClient, max_messages: usize, token: Option<String>) -> (r:
        RevoltClient)
        ensures
            r.cache@.is_empty(),
            r.cache@.max_messages == max_messages,
            r.socket == socket,
            r.token == token,
    {
        RevoltClient { cache: Cache::new(max_messages), socket, token }
    }

    /// Authenticate the session: enqueue the authenticate event carrying
    /// the configured token. Fails with `TokenMissing` exactly when no
    /// token was configured, and passes a terminal send failure through.
    pub fn login(&mut self) -> (r: Result<(), RevoltClientError>)
        ensures
            final(self).cache == old(self).cache,
            final(self).token == old(self).token,
            old(self).token is None <==> r == Err::<(), RevoltClientError>(
                RevoltClientError::TokenMissing,
            ),
            r matches Err(e) ==> (e == RevoltClientError::TokenMissing || e
                == RevoltClientError::SocketError(SocketError::SendError)),
    {
        let event = match self.login_event() {
            Some(event) => event,
            None => {
                return Err(RevoltClientError::TokenMissing);
            },
        };
        if let Err(socket_err) = self.socket.send(event) {
            Err(RevoltClientError::SocketError(socket_err))
        } else {
            Ok(())
        }
    }

    /// Begin one event's dispatch: move the session cache into a fresh
    /// context with an empty overlay; `current_user` is the ambient
    /// account record the callbacks see.
    pub fn begin_event(&mut self, current_user: User) -> (ctx: Context)
        ensures
            ctx.user == current_user,
            ctx.server is None,
            ctx.channel is None,
            ctx.message is None,
            ctx.cache == old(self).cache,
            ctx.updated_cache@.is_empty(),
            ctx.updated_cache@.max_messages == old(self).cache@.max_messages,
            final(self).cache@.is_empty(),
            final(self).cache@.max_messages == old(self).cache@.max_messages,
            final(self).socket == old(self).socket,
            final(self).token == old(self).token,
    {
        let mut cache = Cache::new(self.cache.max_messages);
        core::mem::swap(&mut self.cache, &mut cache);
        Context::new(current_user, cache)
    }

    /// Finish one event's dispatch: reclaim the session cache from the
    /// context and merge the overlay into it. Runs only after the event's
    /// handler has returned, so an event that fails before this point
    /// merges nothing; merging an empty overlay is a no-op, so an event
    /// that staged nothing leaves the cache exactly as it was.
    pub fn finish_event(&mut self, ctx: Context)
        ensures
            final(self).cache@ == ctx.cache@.merged(ctx.updated_cache@),
            final(self).socket == old(self).socket,
            final(self).token == old(self).token,
    {
        let Context { cache, updated_cache, .. } = ctx;
        self.cache = cache;
        if !updated_cache.is_empty() {
            self.cache.merge_overlay(updated_cache);
        } else {
            proof {
                assert(self.cache@.merged(updated_cache@) == self.cache@);
            }
        }
    }

    /// The authenticate event `login` enqueues for the configured token.
    pub fn login_event(&self) -> (r: Option<ClientEvent>)
        ensures
            match r {
                Some(ev) => self.token matches Some(t) && ev@ == (
                ClientEventView::Authenticate { token: t@ }),
                None => self.token is None,
            },
    {
        match &self.token {
            Some(t) => Some(ClientEvent::Authenticate { token: t.clone() }),
            None => None,
        }
    }
}

/// Law (end-to-end message dispatch): for any session cache, dispatching
/// a message event whose channel was not cached — admit the fetched
/// channel, admit its server, stage the message, merge the overlay those
/// steps leave behind — ends with the channel, the server and the message
/// all present in the session cache. Together with the contracts of
/// `begin_event`, `Context::admit_channel`, `Context::admit_server`,
/// `stage_event` and `finish_event`, this pins the cache state after one
/// message event's dispatch for every input.
pub proof fn lemma_message_dispatch_lands_in_cache(
    c: CacheView,
    ch: ChannelView,
    sv: ServerView,
    m: MessageView,
)
    ensures
        ({
            // the session cache after the two admits and the staging
            let session = CacheView {
                users: c.users,
                channels: upsert_channel(c.channels, ch),
                servers: upsert_server(c.servers, sv),
                messages: stored_messages(c.messages, c.max_messages, m),
                max_messages: c.max_messages,
            };
            // the overlay the same steps leave behind
            let overlay = CacheView {
                users: Seq::empty(),
                channels: seq![ch],
                servers: seq![sv],
                messages: seq![m],
                max_messages: c.max_messages,
            };
            let merged = session.merged(overlay);
            &&& lookup_channel(merged.channels, ch.id()) == Some(ch)
            &&& lookup_server(merged.servers, sv.id) == Some(sv)
            &&& lookup_message(merged.messages, m.id) == Some(m)
        }),
{
    reveal_with_fuel(merge_channels, 2);
    reveal_with_fuel(merge_servers, 2);
    reveal_with_fuel(merge_messages, 2);
    let session_channels = upsert_channel(c.channels, ch);
    let session_servers = upsert_server(c.servers, sv);
    let session_messages = stored_messages(c.messages, c.max_messages, m);
    assert(seq![ch].drop_first() =~= Seq::<ChannelView>::empty());
    assert(seq![ch][0] == ch);
    assert(merge_channels(session_channels, seq![ch]) == upsert_channel(session_channels, ch));
    lemma_admitted_channel_is_hit(session_channels, ch);
    assert(seq![sv].drop_first() =~= Seq::<ServerView>::empty());
    assert(seq![sv][0] == sv);
    assert(merge_servers(session_servers, seq![sv]) == upsert_server(session_servers, sv));
    lemma_lookup_after_upsert_server(session_servers, sv);
    assert(seq![m].drop_first() =~= Seq::<MessageView>::empty());
    assert(seq![m][0] == m);
    assert(merge_messages(session_messages, c.max_messages, seq![m]) == stored_messages(
        session_messages,
        c.max_messages,
        m,
    ));
    lemma_lookup_after_stored_message(session_messages, c.max_messages, m);
}

} // verus!
