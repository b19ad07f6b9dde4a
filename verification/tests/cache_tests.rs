use harmony::cache::Cache;
use harmony::models::channel::group_channel::GroupChannel;
use harmony::models::channel::Channel;
use harmony::models::message::Interactions;
use harmony::models::message::Message;
use harmony::models::message::PartialMessage;
use harmony::models::server::Server;
use harmony::models::user::RelationshipStatus;
use harmony::models::user::Status;
use harmony::models::user::User;
use harmony::models::user::UserProfile;

fn sample_user(id: &str) -> User {
    User {
        id: id.to_string(),
        username: format!("name-{id}"),
        discriminator: "0001".to_string(),
        display_name: None,
        avatar: None,
        relations: vec![],
        badges: 0,
        status: Status::empty(),
        profile: UserProfile::empty(),
        flags: 0,
        privileged: false,
        bot: None,
        relationship: RelationshipStatus::Unrelated,
        online: false,
    }
}

fn sample_group_channel(id: &str) -> Channel {
    Channel::Group(GroupChannel {
        id: id.to_string(),
        name: format!("group-{id}"),
        owner_id: "owner".to_string(),
        description: None,
        recipients: vec![],
        icon: None,
        last_message_id: None,
        permissions: 0,
        nsfw: false,
    })
}

fn sample_server(id: &str) -> Server {
    Server {
        id: id.to_string(),
        owner: "owner".to_string(),
        name: format!("server-{id}"),
        description: None,
        channels: vec![],
        categories: vec![],
        system_messages: None,
        roles: vec![],
        default_permissions: 0,
        icon: None,
        banner: None,
        flags: 0,
        nsfw: false,
        analytics: false,
        discoverable: false,
    }
}

fn sample_message(id: &str, channel: &str, content: &str) -> Message {
    Message {
        id: id.to_string(),
        nonce: None,
        channel: channel.to_string(),
        author: "author".to_string(),
        webhook: None,
        content: Some(content.to_string()),
        system: None,
        attachments: vec![],
        edited: None,
        embeds: vec![],
        replies: vec![],
        reactions: vec![],
        interactions: Interactions {
            reactions: vec![],
            restrict_reactions: false,
        },
        masquerade: None,
    }
}

#[test]
fn new_cache_is_empty() {
    let cache = Cache::new(16);
    assert!(cache.is_empty());
    assert_eq!(cache.max_messages, 16);
    assert!(cache.get_user("u1").is_none());
    assert!(cache.get_channel("c1").is_none());
    assert!(cache.get_server("s1").is_none());
    assert!(cache.get_message("m1").is_none());
}

#[test]
fn put_and_get_user() {
    let mut cache = Cache::new(16);
    cache.put_user(sample_user("u1"));
    let got = cache.get_user("u1").expect("user should be cached");
    assert_eq!(got, sample_user("u1"));
    assert!(cache.get_user("u2").is_none());
}

#[test]
fn put_user_replaces_same_id() {
    let mut cache = Cache::new(16);
    cache.put_user(sample_user("u1"));
    let mut updated = sample_user("u1");
    updated.username = "renamed".to_string();
    cache.put_user(updated.clone());
    assert_eq!(cache.users.len(), 1);
    assert_eq!(cache.get_user("u1").unwrap(), updated);
}

#[test]
fn put_and_get_channel_and_server() {
    let mut cache = Cache::new(16);
    cache.put_channel(sample_group_channel("c1"));
    cache.put_server(sample_server("s1"));
    assert_eq!(cache.get_channel("c1").unwrap(), sample_group_channel("c1"));
    assert_eq!(cache.get_server("s1").unwrap(), sample_server("s1"));
}

#[test]
fn add_message_and_get() {
    let mut cache = Cache::new(16);
    cache.add_message(sample_message("m1", "c1", "hello"));
    assert_eq!(
        cache.get_message("m1").unwrap(),
        sample_message("m1", "c1", "hello")
    );
}

#[test]
fn cache_bound_fifo_evicts_oldest() {
    // Five messages through a bound of three: exactly the three most
    // recently inserted stay, in insertion order.
    let mut cache = Cache::new(3);
    for i in 1..=5 {
        cache.add_message(sample_message(&format!("m{i}"), "c1", "x"));
    }
    assert_eq!(cache.messages.len(), 3);
    let ids: Vec<&str> = cache.messages.iter().map(|m| m.id.as_str()).collect();
    assert_eq!(ids, vec!["m3", "m4", "m5"]);
    assert!(cache.get_message("m1").is_none());
    assert!(cache.get_message("m2").is_none());
    assert!(cache.get_message("m3").is_some());
}

#[test]
fn add_message_same_id_replaces_without_eviction() {
    let mut cache = Cache::new(2);
    cache.add_message(sample_message("m1", "c1", "a"));
    cache.add_message(sample_message("m2", "c1", "b"));
    cache.add_message(sample_message("m1", "c1", "edited"));
    assert_eq!(cache.messages.len(), 2);
    let ids: Vec<&str> = cache.messages.iter().map(|m| m.id.as_str()).collect();
    assert_eq!(ids, vec!["m1", "m2"]);
    assert_eq!(
        cache.get_message("m1").unwrap().content.as_deref(),
        Some("edited")
    );
}

#[test]
fn cache_bound_zero_keeps_only_newest() {
    let mut cache = Cache::new(0);
    cache.add_message(sample_message("m1", "c1", "a"));
    cache.add_message(sample_message("m2", "c1", "b"));
    assert_eq!(cache.messages.len(), 1);
    assert_eq!(cache.messages[0].id, "m2");
}

#[test]
fn empty_patch_leaves_message_identical() {
    let mut cache = Cache::new(4);
    let original = sample_message("m1", "c1", "A");
    cache.add_message(original.clone());
    cache.update_message("m1", PartialMessage::empty());
    assert_eq!(cache.get_message("m1").unwrap(), original);
}

#[test]
fn patch_replaces_only_content() {
    let mut cache = Cache::new(4);
    let original = sample_message("m1", "c1", "A");
    cache.add_message(original.clone());
    let patch = PartialMessage {
        content: Some("B".to_string()),
        attachments: None,
        embeds: None,
        replies: None,
        masquerade: None,
    };
    cache.update_message("m1", patch);
    let got = cache.get_message("m1").unwrap();
    assert_eq!(got.content.as_deref(), Some("B"));
    assert_eq!(got.id, original.id);
    assert_eq!(got.channel, original.channel);
    assert_eq!(got.author, original.author);
    assert_eq!(got.attachments, original.attachments);
    assert_eq!(got.replies, original.replies);
    assert_eq!(got.masquerade, original.masquerade);
}

#[test]
fn update_message_absent_is_noop() {
    let mut cache = Cache::new(4);
    cache.add_message(sample_message("m1", "c1", "A"));
    let before = cache.messages.clone();
    let patch = PartialMessage {
        content: Some("B".to_string()),
        attachments: None,
        embeds: None,
        replies: None,
        masquerade: None,
    };
    cache.update_message("missing", patch);
    assert_eq!(cache.messages, before);
}

#[test]
fn apply_partial_is_copy_then_patch() {
    let original = sample_message("m1", "c1", "A");
    let patch = PartialMessage {
        content: Some("B".to_string()),
        attachments: None,
        embeds: None,
        replies: None,
        masquerade: None,
    };
    let patched = original.apply_partial(&patch);
    // the original is untouched; the copy carries the new content
    assert_eq!(original.content.as_deref(), Some("A"));
    assert_eq!(patched.content.as_deref(), Some("B"));
    assert_eq!(patched.id, original.id);
}

#[test]
fn merge_overlay_upserts_every_kind() {
    let mut cache = Cache::new(8);
    cache.put_user(sample_user("u1"));
    let mut stale = sample_user("u2");
    stale.username = "stale".to_string();
    cache.put_user(stale);

    let mut overlay = Cache::new(8);
    overlay.put_user(sample_user("u2"));
    overlay.put_channel(sample_group_channel("c1"));
    overlay.put_server(sample_server("s1"));
    overlay.add_message(sample_message("m1", "c1", "hello"));

    cache.merge_overlay(overlay);

    assert_eq!(cache.get_user("u1").unwrap(), sample_user("u1"));
    assert_eq!(cache.get_user("u2").unwrap(), sample_user("u2"));
    assert_eq!(cache.get_channel("c1").unwrap(), sample_group_channel("c1"));
    assert_eq!(cache.get_server("s1").unwrap(), sample_server("s1"));
    assert_eq!(
        cache.get_message("m1").unwrap(),
        sample_message("m1", "c1", "hello")
    );
}

#[test]
fn merge_overlay_respects_message_bound() {
    let mut cache = Cache::new(2);
    cache.add_message(sample_message("m1", "c1", "a"));
    let mut overlay = Cache::new(2);
    overlay.add_message(sample_message("m2", "c1", "b"));
    overlay.add_message(sample_message("m3", "c1", "c"));
    cache.merge_overlay(overlay);
    assert_eq!(cache.messages.len(), 2);
    let ids: Vec<&str> = cache.messages.iter().map(|m| m.id.as_str()).collect();
    assert_eq!(ids, vec!["m2", "m3"]);
}
