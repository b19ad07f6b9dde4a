use harmony::cache::Cache;
use harmony::client::context::Context;
use harmony::client::context::Resolve;
use harmony::client::context::ResolveOutcome;
use harmony::models::channel::group_channel::GroupChannel;
use harmony::models::channel::text_channel::TextChannel;
use harmony::models::channel::Channel;
use harmony::models::message::Interactions;
use harmony::models::message::Message;
use harmony::models::server::PermissionOverride;
use harmony::models::server::Server;
use harmony::models::user::RelationshipStatus;
use harmony::models::user::Status;
use harmony::models::user::User;
use harmony::models::user::UserProfile;

fn user(id: &str) -> User {
    User {
        id: id.to_string(),
        username: format!("name-{id}"),
        discriminator: "0001".to_string(),
        display_name: None,
        avatar: None,
        relations: vec![],
        badges: 0,
        status: Status::empty(),
        profile: UserProfile::empty(),
        flags: 0,
        privileged: false,
        bot: None,
        relationship: RelationshipStatus::Unrelated,
        online: false,
    }
}

fn server(id: &str) -> Server {
    Server {
        id: id.to_string(),
        owner: "owner".to_string(),
        name: format!("server-{id}"),
        description: None,
        channels: vec![],
        categories: vec![],
        system_messages: None,
        roles: vec![],
        default_permissions: 0,
        icon: None,
        banner: None,
        flags: 0,
        nsfw: false,
        analytics: false,
        discoverable: false,
    }
}

fn text_channel(id: &str, server_id: &str) -> Channel {
    Channel::TextChannel(TextChannel {
        server_id: server_id.to_string(),
        id: id.to_string(),
        name: format!("text-{id}"),
        description: None,
        icon: None,
        last_message_id: None,
        default_permissions: PermissionOverride::empty(),
        role_permissions: PermissionOverride::empty(),
        nsfw: false,
    })
}

fn group_channel(id: &str) -> Channel {
    Channel::Group(GroupChannel {
        id: id.to_string(),
        name: format!("group-{id}"),
        owner_id: "owner".to_string(),
        description: None,
        recipients: vec![],
        icon: None,
        last_message_id: None,
        permissions: 0,
        nsfw: false,
    })
}

fn message(id: &str, channel: &str) -> Message {
    Message {
        id: id.to_string(),
        nonce: None,
        channel: channel.to_string(),
        author: "author".to_string(),
        webhook: None,
        content: Some("hi".to_string()),
        system: None,
        attachments: vec![],
        edited: None,
        embeds: vec![],
        replies: vec![],
        reactions: vec![],
        interactions: Interactions {
            reactions: vec![],
            restrict_reactions: false,
        },
        masquerade: None,
    }
}

#[test]
fn user_resolution_hit_and_miss() {
    let mut cache = Cache::new(8);
    cache.put_user(user("u1"));
    let ctx = Context::new(user("self"), cache);
    match ctx.user("u1") {
        Resolve::Hit(u) => assert_eq!(u, user("u1")),
        Resolve::Fetch => panic!("cached user must be a hit"),
    }
    assert!(matches!(ctx.user("u2"), Resolve::Fetch));
}

#[test]
fn admit_user_writes_through_both_caches() {
    let mut ctx = Context::new(user("self"), Cache::new(8));
    ctx.admit_user(user("u1"));
    assert_eq!(ctx.cache.get_user("u1").unwrap(), user("u1"));
    assert_eq!(ctx.updated_cache.get_user("u1").unwrap(), user("u1"));
}

#[test]
fn cached_resolution_stages_nothing() {
    // A hit is used as-is: no redundant write-back of unchanged data
    // into the overlay.
    let mut cache = Cache::new(8);
    cache.put_user(user("u1"));
    let ctx = Context::new(user("self"), cache);
    match ctx.user("u1") {
        Resolve::Hit(_) => {}
        Resolve::Fetch => panic!("cached user must be a hit"),
    }
    assert!(ctx.updated_cache.is_empty());
}

#[test]
fn message_lookup_is_cache_only() {
    // A message miss is simply absent: no fetch obligation arises.
    let mut cache = Cache::new(8);
    cache.add_message(message("m1", "c1"));
    let ctx = Context::new(user("self"), cache);
    assert_eq!(ctx.message("c1", "m1").unwrap(), message("m1", "c1"));
    assert!(ctx.message("c1", "m-missing").is_none());
}

#[test]
fn admit_message_respects_each_bound() {
    let mut ctx = Context::new(user("self"), Cache::new(1));
    ctx.admit_message(message("m1", "c1"));
    ctx.admit_message(message("m2", "c1"));
    assert_eq!(ctx.cache.messages.len(), 1);
    assert_eq!(ctx.cache.messages[0].id, "m2");
    assert_eq!(ctx.updated_cache.messages.len(), 1);
    assert_eq!(ctx.updated_cache.messages[0].id, "m2");
}

#[test]
fn set_context_data_missing_channel_asks_for_it() {
    let mut ctx = Context::new(user("self"), Cache::new(8));
    match ctx.set_context_data("C1", None) {
        ResolveOutcome::NeedChannel(id) => assert_eq!(id, "C1"),
        other => panic!("expected a channel fetch, got {other:?}"),
    }
    assert!(ctx.channel.is_none());
}

#[test]
fn set_context_data_group_channel_resolves_without_server() {
    let mut cache = Cache::new(8);
    cache.put_channel(group_channel("C1"));
    let mut ctx = Context::new(user("self"), cache);
    assert_eq!(ctx.set_context_data("C1", None), ResolveOutcome::Ready);
    assert_eq!(ctx.channel.as_ref().unwrap(), &group_channel("C1"));
    assert!(ctx.server.is_none());
}

#[test]
fn set_context_data_resolves_channel_before_server() {
    // server resolution depends on the channel's server-ID field, so the
    // channel is asked for first, the server second, and a resumed call
    // completes.
    let mut ctx = Context::new(user("self"), Cache::new(8));
    match ctx.set_context_data("C1", None) {
        ResolveOutcome::NeedChannel(id) => {
            assert_eq!(id, "C1");
            ctx.admit_channel(text_channel("C1", "S1"));
        }
        other => panic!("expected a channel fetch, got {other:?}"),
    }
    match ctx.set_context_data("C1", None) {
        ResolveOutcome::NeedServer(id) => {
            assert_eq!(id, "S1");
            ctx.admit_server(server("S1"));
        }
        other => panic!("expected a server fetch, got {other:?}"),
    }
    assert_eq!(ctx.set_context_data("C1", None), ResolveOutcome::Ready);
    assert_eq!(ctx.channel.as_ref().unwrap(), &text_channel("C1", "S1"));
    assert_eq!(ctx.server.as_ref().unwrap(), &server("S1"));
}

#[test]
fn set_context_data_sets_message_from_cache_only() {
    let mut cache = Cache::new(8);
    cache.put_channel(group_channel("C1"));
    cache.add_message(message("m1", "C1"));
    let mut ctx = Context::new(user("self"), cache);
    assert_eq!(
        ctx.set_context_data("C1", Some("m1")),
        ResolveOutcome::Ready
    );
    assert_eq!(ctx.message.as_ref().unwrap(), &message("m1", "C1"));

    let mut cache = Cache::new(8);
    cache.put_channel(group_channel("C1"));
    let mut ctx = Context::new(user("self"), cache);
    assert_eq!(
        ctx.set_context_data("C1", Some("m-missing")),
        ResolveOutcome::Ready
    );
    assert!(ctx.message.is_none());
}
