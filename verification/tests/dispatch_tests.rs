use std::cell::RefCell;

use harmony::cache::Cache;
use harmony::client::context::Context;
use harmony::client::context::Resolve;
use harmony::client::context::ResolveOutcome;
use harmony::client::dispatch_socket_error;
use harmony::client::event_handler::EventHandler;
use harmony::client::handle_events;
use harmony::client::resolution_request;
use harmony::client::CallbackKind;
use harmony::client::RevoltClient;
use harmony::client::RevoltClientError;
use harmony::models::channel::group_channel::GroupChannel;
use harmony::models::channel::text_channel::TextChannel;
use harmony::models::channel::Channel;
use harmony::models::events::server::Event;
use harmony::models::events::server::MessageUpdateEvent;
use harmony::models::events::server::ReadyEvent;
use harmony::models::events::server::ServerEvent;
use harmony::models::message::Interactions;
use harmony::models::message::Message;
use harmony::models::message::PartialMessage;
use harmony::models::server::PermissionOverride;
use harmony::models::server::Server;
use harmony::models::user::RelationshipStatus;
use harmony::models::user::Status;
use harmony::models::user::User;
use harmony::models::user::UserProfile;
use harmony::websocket::SocketClient;
use harmony::websocket::SocketError;

fn sample_user(id: &str) -> User {
    User {
        id: id.to_string(),
        username: format!("name-{id}"),
        discriminator: "0001".to_string(),
        display_name: None,
        avatar: None,
        relations: vec![],
        badges: 0,
        status: Status::empty(),
        profile: UserProfile::empty(),
        flags: 0,
        privileged: false,
        bot: None,
        relationship: RelationshipStatus::Unrelated,
        online: false,
    }
}

fn sample_server(id: &str) -> Server {
    Server {
        id: id.to_string(),
        owner: "owner".to_string(),
        name: format!("server-{id}"),
        description: None,
        channels: vec![],
        categories: vec![],
        system_messages: None,
        roles: vec![],
        default_permissions: 0,
        icon: None,
        banner: None,
        flags: 0,
        nsfw: false,
        analytics: false,
        discoverable: false,
    }
}

fn sample_text_channel(id: &str, server_id: &str) -> Channel {
    Channel::TextChannel(TextChannel {
        server_id: server_id.to_string(),
        id: id.to_string(),
        name: format!("text-{id}"),
        description: None,
        icon: None,
        last_message_id: None,
        default_permissions: PermissionOverride::empty(),
        role_permissions: PermissionOverride::empty(),
        nsfw: false,
    })
}

fn sample_group_channel(id: &str) -> Channel {
    Channel::Group(GroupChannel {
        id: id.to_string(),
        name: format!("group-{id}"),
        owner_id: "owner".to_string(),
        description: None,
        recipients: vec![],
        icon: None,
        last_message_id: None,
        permissions: 0,
        nsfw: false,
    })
}

fn sample_message(id: &str, channel: &str, content: &str) -> Message {
    Message {
        id: id.to_string(),
        nonce: None,
        channel: channel.to_string(),
        author: "U1".to_string(),
        webhook: None,
        content: Some(content.to_string()),
        system: None,
        attachments: vec![],
        edited: None,
        embeds: vec![],
        replies: vec![],
        reactions: vec![],
        interactions: Interactions {
            reactions: vec![],
            restrict_reactions: false,
        },
        masquerade: None,
    }
}

fn socket() -> SocketClient {
    let (client_sender, client_receiver) = async_channel::unbounded();
    let (server_sender, server_receiver) = async_channel::unbounded();
    SocketClient {
        ws: "wss://ws.example".to_string(),
        heartbeat_interval: 15,
        client_sender,
        client_receiver,
        server_sender,
        server_receiver,
    }
}

#[derive(Default)]
struct Recorder {
    fired: RefCell<Vec<CallbackKind>>,
    seen_channel_ids: RefCell<Vec<Option<String>>>,
    deleted_channel_ids: RefCell<Vec<String>>,
    deleted_message_was_cached: RefCell<Vec<bool>>,
}

impl EventHandler for Recorder {
    fn received_unhandled_event(&self) {
        self.fired.borrow_mut().push(CallbackKind::UnhandledEvent);
    }

    fn socket_error(&self, _ctx: &mut Context, _socket_error: SocketError) {
        self.fired
            .borrow_mut()
            .push(CallbackKind::SocketErrorCallback);
    }

    fn ready(&self, _ctx: &mut Context, _ready: ReadyEvent) {
        self.fired.borrow_mut().push(CallbackKind::Ready);
    }

    fn message_received(&self, ctx: &mut Context, _msg: Message) {
        self.fired.borrow_mut().push(CallbackKind::MessageReceived);
        self.seen_channel_ids
            .borrow_mut()
            .push(ctx.channel.as_ref().map(|c| c.get_id()));
    }

    fn message_updated(&self, _ctx: &mut Context, _msg: PartialMessage) {
        self.fired.borrow_mut().push(CallbackKind::MessageUpdated);
    }

    fn message_deleted(&self, _ctx: &mut Context, msg: Option<Message>) {
        self.fired.borrow_mut().push(CallbackKind::MessageDeleted);
        self.deleted_message_was_cached
            .borrow_mut()
            .push(msg.is_some());
    }

    fn channel_deleted(&self, _ctx: &mut Context, channel_id: String) {
        self.fired.borrow_mut().push(CallbackKind::ChannelDeleted);
        self.deleted_channel_ids.borrow_mut().push(channel_id);
    }

    fn member_left(&self, _ctx: &mut Context, _member_event: Event) {
        self.fired.borrow_mut().push(CallbackKind::MemberLeft);
    }
}

/// A handler that stages two entities in the overlay, as a callback is
/// allowed to.
struct StagingHandler;

impl EventHandler for StagingHandler {
    fn ready(&self, ctx: &mut Context, _ready: ReadyEvent) {
        ctx.updated_cache.put_user(sample_user("staged-user"));
        ctx.updated_cache.put_server(sample_server("staged-server"));
    }
}

/// Drive one decoded event through a full dispatch cycle the way `listen`
/// does: resolve with fetch-through (serving channel/server fetches from
/// the given closures), invoke the callback, merge. Returns the callback
/// that fired and how many network fetches were issued.
fn drive_event(
    client: &mut RevoltClient,
    handler: &Recorder,
    event: ServerEvent,
    fetch_channel: impl Fn(&str) -> Option<Channel>,
    fetch_server: impl Fn(&str) -> Option<Server>,
) -> (CallbackKind, usize) {
    let mut fetches = 0usize;
    let mut ctx = client.begin_event(sample_user("self"));
    if let Some((channel_id, message_id)) = resolution_request(&event) {
        loop {
            match ctx.set_context_data(&channel_id, message_id.as_deref()) {
                ResolveOutcome::Ready => break,
                ResolveOutcome::NeedChannel(id) => {
                    fetches += 1;
                    let fetched = fetch_channel(&id).expect("channel fetch failed");
                    ctx.admit_channel(fetched);
                }
                ResolveOutcome::NeedServer(id) => {
                    fetches += 1;
                    let fetched = fetch_server(&id).expect("server fetch failed");
                    ctx.admit_server(fetched);
                }
            }
        }
    }
    let fired = handle_events(handler, &mut ctx, event);
    client.finish_event(ctx);
    (fired, fetches)
}

#[test]
fn scenario_uncached_channel_fetches_channel_then_server() {
    // Inbound message in an uncached text channel: one fetch for the
    // channel, one for its server; the handler sees the fetched channel;
    // afterwards the cache holds the channel and the message.
    let mut client = RevoltClient::new(socket(), 16, None);
    let recorder = Recorder::default();
    let event = ServerEvent::Message(sample_message("m1", "C1", "!ping"));
    let (fired, fetches) = drive_event(
        &mut client,
        &recorder,
        event,
        |id| {
            assert_eq!(id, "C1");
            Some(sample_text_channel("C1", "S1"))
        },
        |id| {
            assert_eq!(id, "S1");
            Some(sample_server("S1"))
        },
    );
    assert_eq!(fired, CallbackKind::MessageReceived);
    assert_eq!(fetches, 2);
    assert_eq!(
        recorder.seen_channel_ids.borrow().as_slice(),
        &[Some("C1".to_string())]
    );
    assert_eq!(
        client.cache.get_channel("C1").unwrap(),
        sample_text_channel("C1", "S1")
    );
    assert_eq!(client.cache.get_server("S1").unwrap(), sample_server("S1"));
    assert_eq!(
        client.cache.get_message("m1").unwrap(),
        sample_message("m1", "C1", "!ping")
    );
}

#[test]
fn scenario_channel_delete_needs_no_resolution() {
    // A channel-delete event resolves nothing: the callback gets the ID,
    // no fetch is attempted and the cache is untouched.
    let mut client = RevoltClient::new(socket(), 16, None);
    let recorder = Recorder::default();
    let event = ServerEvent::ChannelDelete {
        id: "C2".to_string(),
    };
    let (fired, fetches) = drive_event(
        &mut client,
        &recorder,
        event,
        |_| panic!("no channel fetch expected"),
        |_| panic!("no server fetch expected"),
    );
    assert_eq!(fired, CallbackKind::ChannelDeleted);
    assert_eq!(fetches, 0);
    assert_eq!(
        recorder.deleted_channel_ids.borrow().as_slice(),
        &["C2".to_string()]
    );
    assert!(client.cache.is_empty());
}

#[test]
fn scenario_decode_error_then_ready_fire_in_order() {
    // A decode error on one frame followed by a valid ready frame: the
    // socket-error callback fires once, then the ready callback, in that
    // order; the loop continues past the bad frame.
    let mut client = RevoltClient::new(socket(), 16, None);
    let recorder = Recorder::default();

    // the bad frame: a decode error item, dispatched with a minimal
    // context and no cache interaction
    let mut ctx = client.begin_event(sample_user("self"));
    let fired = dispatch_socket_error(
        &recorder,
        &mut ctx,
        SocketError::JsonSerializationError("bad frame".to_string()),
    );
    assert_eq!(fired, CallbackKind::SocketErrorCallback);
    client.finish_event(ctx);

    // the next frame: a valid ready event
    let ready = ServerEvent::Ready(ReadyEvent {
        users: vec![],
        servers: vec![],
        channels: vec![],
        members: vec![],
        emojis: None,
    });
    let (fired, fetches) = drive_event(
        &mut client,
        &recorder,
        ready,
        |_| None,
        |_| None,
    );
    assert_eq!(fired, CallbackKind::Ready);
    assert_eq!(fetches, 0);
    assert_eq!(
        recorder.fired.borrow().as_slice(),
        &[CallbackKind::SocketErrorCallback, CallbackKind::Ready]
    );
}

#[test]
fn merge_lands_all_staged_entities() {
    // A handler stages two entities in the overlay; after the handler
    // returns, the merge lands both in the session cache together.
    let mut client = RevoltClient::new(socket(), 16, None);
    let handler = StagingHandler;
    let mut ctx = client.begin_event(sample_user("self"));
    let fired = handle_events(
        &handler,
        &mut ctx,
        ServerEvent::Ready(ReadyEvent {
            users: vec![],
            servers: vec![],
            channels: vec![],
            members: vec![],
            emojis: None,
        }),
    );
    assert_eq!(fired, CallbackKind::Ready);
    client.finish_event(ctx);
    assert_eq!(
        client.cache.get_user("staged-user").unwrap(),
        sample_user("staged-user")
    );
    assert_eq!(
        client.cache.get_server("staged-server").unwrap(),
        sample_server("staged-server")
    );
}

#[test]
fn message_update_patches_cached_message() {
    let mut client = RevoltClient::new(socket(), 16, None);
    client.cache.put_channel(sample_group_channel("C1"));
    client.cache.add_message(sample_message("m1", "C1", "A"));
    let recorder = Recorder::default();
    let event = ServerEvent::MessageUpdate(MessageUpdateEvent {
        id: "m1".to_string(),
        channel: "C1".to_string(),
        data: PartialMessage {
            content: Some("B".to_string()),
            attachments: None,
            embeds: None,
            replies: None,
            masquerade: None,
        },
    });
    let (fired, fetches) = drive_event(&mut client, &recorder, event, |_| None, |_| None);
    assert_eq!(fired, CallbackKind::MessageUpdated);
    assert_eq!(fetches, 0);
    assert_eq!(
        client.cache.get_message("m1").unwrap().content.as_deref(),
        Some("B")
    );
}

#[test]
fn member_leave_of_current_user_fires_member_left() {
    // exactly one callback per event, the account's own leave included
    let mut client = RevoltClient::new(socket(), 16, None);
    let recorder = Recorder::default();
    let event = ServerEvent::ServerMemberLeave(Event {
        id: "S1".to_string(),
        user: "self".to_string(),
    });
    let (fired, _) = drive_event(&mut client, &recorder, event, |_| None, |_| None);
    assert_eq!(fired, CallbackKind::MemberLeft);
    assert_eq!(
        recorder.fired.borrow().as_slice(),
        &[CallbackKind::MemberLeft]
    );
}

#[test]
fn member_leave_of_other_user_fires_member_left() {
    let mut client = RevoltClient::new(socket(), 16, None);
    let recorder = Recorder::default();
    let event = ServerEvent::ServerMemberLeave(Event {
        id: "S1".to_string(),
        user: "someone-else".to_string(),
    });
    let (fired, _) = drive_event(&mut client, &recorder, event, |_| None, |_| None);
    assert_eq!(fired, CallbackKind::MemberLeft);
    assert_eq!(
        recorder.fired.borrow().as_slice(),
        &[CallbackKind::MemberLeft]
    );
}

#[test]
fn message_update_with_uncached_message_stages_nothing() {
    // an edit of a message the cache never held: the dispatch is total,
    // the callback still fires, and nothing is staged or patched
    let mut client = RevoltClient::new(socket(), 16, None);
    client.cache.put_channel(sample_group_channel("C1"));
    let recorder = Recorder::default();
    let event = ServerEvent::MessageUpdate(MessageUpdateEvent {
        id: "m-missing".to_string(),
        channel: "C1".to_string(),
        data: PartialMessage {
            content: Some("B".to_string()),
            attachments: None,
            embeds: None,
            replies: None,
            masquerade: None,
        },
    });
    let (fired, fetches) = drive_event(&mut client, &recorder, event, |_| None, |_| None);
    assert_eq!(fired, CallbackKind::MessageUpdated);
    assert_eq!(fetches, 0);
    assert!(client.cache.messages.is_empty());
}

#[test]
fn message_delete_of_uncached_message_passes_absent() {
    let mut client = RevoltClient::new(socket(), 16, None);
    client.cache.put_channel(sample_group_channel("C1"));
    let recorder = Recorder::default();
    let event = ServerEvent::MessageDelete(
        harmony::models::events::server::MessageDeleteEvent {
            id: "m-missing".to_string(),
            channel: "C1".to_string(),
        },
    );
    let (fired, _) = drive_event(&mut client, &recorder, event, |_| None, |_| None);
    assert_eq!(fired, CallbackKind::MessageDeleted);
    assert_eq!(recorder.deleted_message_was_cached.borrow().as_slice(), &[false]);
}

#[test]
fn message_delete_of_cached_message_passes_it() {
    let mut client = RevoltClient::new(socket(), 16, None);
    client.cache.put_channel(sample_group_channel("C1"));
    client.cache.add_message(sample_message("m1", "C1", "A"));
    let recorder = Recorder::default();
    let event = ServerEvent::MessageDelete(
        harmony::models::events::server::MessageDeleteEvent {
            id: "m1".to_string(),
            channel: "C1".to_string(),
        },
    );
    let (fired, _) = drive_event(&mut client, &recorder, event, |_| None, |_| None);
    assert_eq!(fired, CallbackKind::MessageDeleted);
    assert_eq!(recorder.deleted_message_was_cached.borrow().as_slice(), &[true]);
}

#[test]
fn unknown_event_fires_unhandled_callback() {
    let mut client = RevoltClient::new(socket(), 16, None);
    let recorder = Recorder::default();
    let (fired, _) = drive_event(&mut client, &recorder, ServerEvent::Unknown, |_| None, |_| None);
    assert_eq!(fired, CallbackKind::UnhandledEvent);
    assert_eq!(
        recorder.fired.borrow().as_slice(),
        &[CallbackKind::UnhandledEvent]
    );
}

#[test]
fn login_without_token_is_token_missing() {
    let mut client = RevoltClient::new(socket(), 16, None);
    assert_eq!(client.login(), Err(RevoltClientError::TokenMissing));
}

#[test]
fn login_enqueues_authenticate_event() {
    let mut client = RevoltClient::new(socket(), 16, Some("tok-123".to_string()));
    client.login().expect("login should succeed");
    let event = client
        .socket
        .client_receiver
        .try_recv()
        .expect("an outbound event should be queued");
    match event {
        harmony::models::events::client::ClientEvent::Authenticate { token } => {
            assert_eq!(token, "tok-123");
        }
        other => panic!("unexpected outbound event: {other:?}"),
    }
}

#[test]
fn fetch_through_resolves_each_channel_once() {
    // Resolving the same channel ID twice issues at most one fetch: the
    // second resolution hits the cache the admit wrote through.
    let client_cache = Cache::new(16);
    let mut ctx = Context::new(sample_user("self"), client_cache);
    match ctx.channel("C1") {
        Resolve::Fetch => {
            ctx.admit_channel(sample_text_channel("C1", "S1"));
        }
        Resolve::Hit(_) => panic!("channel must not be cached yet"),
    }
    match ctx.channel("C1") {
        Resolve::Hit(c) => assert_eq!(c, sample_text_channel("C1", "S1")),
        Resolve::Fetch => panic!("second resolution must hit the cache"),
    }
    // the fetch is also staged in the overlay, so the merge carries it
    // to later events
    assert_eq!(
        ctx.updated_cache.get_channel("C1").unwrap(),
        sample_text_channel("C1", "S1")
    );
}

#[test]
fn login_send_failure_is_a_socket_error() {
    let mut client = RevoltClient::new(socket(), 16, Some("tok".to_string()));
    // drop the outbound queue's receiving end: sending becomes terminal
    let (keep_sender, replacement) = async_channel::unbounded();
    drop(std::mem::replace(
        &mut client.socket.client_receiver,
        replacement,
    ));
    drop(keep_sender);
    assert_eq!(
        client.login(),
        Err(RevoltClientError::SocketError(SocketError::SendError))
    );
}
