use harmony::models::channel::notes_channel::NotesChannel;
use harmony::models::channel::text_channel::TextChannel;
use harmony::models::channel::voice_channel::VoiceChannel;
use harmony::models::channel::Channel;
use harmony::models::events::server::ServerError;
use harmony::models::server::PermissionOverride;
use harmony::models::Badge;
use harmony::models::Flag;
use harmony::models::Permission;

fn notes(id: &str) -> Channel {
    Channel::SavedMessages(NotesChannel {
        id: id.to_string(),
        user: "me".to_string(),
    })
}

fn text(id: &str, server_id: &str) -> Channel {
    Channel::TextChannel(TextChannel {
        server_id: server_id.to_string(),
        id: id.to_string(),
        name: "general".to_string(),
        description: None,
        icon: None,
        last_message_id: None,
        default_permissions: PermissionOverride::empty(),
        role_permissions: PermissionOverride::empty(),
        nsfw: false,
    })
}

fn voice(id: &str, server_id: &str) -> Channel {
    Channel::VoiceChannel(VoiceChannel {
        server_id: server_id.to_string(),
        id: id.to_string(),
        name: "voice".to_string(),
        description: None,
        icon: None,
        default_permissions: PermissionOverride::empty(),
        role_permissions: PermissionOverride::empty(),
        nsfw: false,
    })
}

#[test]
fn channel_kind_predicates() {
    assert!(notes("c1").is_notes());
    assert!(!notes("c1").is_text());
    assert!(text("c2", "s1").is_text());
    assert!(voice("c3", "s1").is_voice());
    assert!(!voice("c3", "s1").is_dm());
}

#[test]
fn channel_id_and_name() {
    assert_eq!(notes("c1").get_id(), "c1");
    assert_eq!(text("c2", "s1").get_id(), "c2");
    assert!(notes("c1").get_name().is_none());
    assert_eq!(text("c2", "s1").get_name().as_deref(), Some("general"));
}

#[test]
fn text_channel_projection() {
    let channel = text("c2", "s1");
    let t = channel.get_text_channel().expect("is a text channel");
    assert_eq!(t.get_server_id(), "s1");
    assert!(channel.get_voice_channel().is_none());
    assert!(notes("c1").get_text_channel().is_none());
}

#[test]
fn permission_bits_are_the_documented_masks() {
    assert_eq!(Permission::ManageChannel.bits(), 1);
    assert_eq!(Permission::KickMembers.bits(), 1 << 6);
    assert_eq!(Permission::Speak.bits(), 1 << 31);
    assert_eq!(Permission::MoveMembers.bits(), 1 << 35);
    assert_eq!(Permission::GrantAllSafe.bits(), 0x000F_FFFF_FFFF_FFFF);
    assert_eq!(Permission::GrantAll.bits(), u64::MAX);
}

#[test]
fn badge_and_flag_bits() {
    assert_eq!(Badge::Developer.bits(), 1);
    assert_eq!(Badge::ReservedRelevantJokeBadge2.bits(), 1024);
    assert_eq!(Flag::Suspended.bits(), 1);
    assert_eq!(Flag::Spam.bits(), 8);
}

#[test]
fn server_error_descriptions() {
    assert_eq!(ServerError::LabelMe.describe(), "Uncategorized error");
    assert_eq!(
        ServerError::InvalidSession.describe(),
        "Authentication details are incorrect"
    );
}
