//! Servers: the communities that group text and voice channels.

use vstd::prelude::*;

use crate::models::file::File;
use crate::models::file::FileView;

verus! {

/// An allow/deny pair of permission bit sets.
#[derive(Debug, Clone, Copy, PartialEq, Eq, Structural)]
pub struct PermissionOverride {
    pub allow: i64,
    pub deny: i64,
}

impl PermissionOverride {
    /// The override that neither allows nor denies anything.
    pub fn empty() -> (r: PermissionOverride)
        ensures
            r.allow == 0,
            r.deny == 0,
    {
        PermissionOverride { allow: 0, deny: 0 }
    }
}

/// A role a server defines for its members.
#[derive(Debug, PartialEq)]
pub struct Role {
    pub name: String,
    pub permissions: PermissionOverride,
    pub colour: Option<String>,
    pub hoist: bool,
    pub rank: i32,
}

/// The mathematical value of a [`Role`].
pub struct RoleView {
    pub name: Seq<char>,
    pub permissions: PermissionOverride,
    pub colour: Option<Seq<char>>,
    pub hoist: bool,
    pub rank: i32,
}

impl View for Role {
    type V = RoleView;

    open spec fn view(&self) -> RoleView {
        RoleView {
            name: self.name@,
            permissions: self.permissions,
            colour: self.colour.deep_view(),
            hoist: self.hoist,
            rank: self.rank,
        }
    }
}

impl DeepView for Role {
    type V = RoleView;

    open spec fn deep_view(&self) -> RoleView {
        self.view()
    }
}

impl Clone for Role {
    fn clone(&self) -> (res: Self)
        ensures
            res@ == self@,
    {
        Role {
            name: self.name.clone(),
            permissions: self.permissions,
            colour: self.colour.clone(),
            hoist: self.hoist,
            rank: self.rank,
        }
    }
}

/// One role of a server, keyed by the role's opaque ID.
#[derive(Debug, PartialEq)]
pub struct RoleEntry {
    pub id: String,
    pub role: Role,
}

/// The mathematical value of a [`RoleEntry`].
pub struct RoleEntryView {
    pub id: Seq<char>,
    pub role: RoleView,
}

impl View for RoleEntry {
    type V = RoleEntryView;

    open spec fn view(&self) -> RoleEntryView {
        RoleEntryView { id: self.id@, role: self.role@ }
    }
}

impl DeepView for RoleEntry {
    type V = RoleEntryView;

    open spec fn deep_view(&self) -> RoleEntryView {
        self.view()
    }
}

impl Clone for RoleEntry {
    fn clone(&self) -> (res: Self)
        ensures
            res@ == self@,
    {
        RoleEntry { id: self.id.clone(), role: self.role.clone() }
    }
}

/// The channels a server posts its member-lifecycle notices to.
#[derive(Debug, PartialEq)]
pub struct SystemMessages {
    pub user_joined: Option<String>,
    pub user_left: Option<String>,
    pub user_kicked: Option<String>,
    pub user_banned: Option<String>,
}

/// The mathematical value of a [`SystemMessages`].
pub struct SystemMessagesView {
    pub user_joined: Option<Seq<char>>,
    pub user_left: Option<Seq<char>>,
    pub user_kicked: Option<Seq<char>>,
    pub user_banned: Option<Seq<char>>,
}

impl View for SystemMessages {
    type V = SystemMessagesView;

    open spec fn view(&self) -> SystemMessagesView {
        SystemMessagesView {
            user_joined: self.user_joined.deep_view(),
            user_left: self.user_left.deep_view(),
            user_kicked: self.user_kicked.deep_view(),
            user_banned: self.user_banned.deep_view(),
        }
    }
}

impl DeepView for SystemMessages {
    type V = SystemMessagesView;

    open spec fn deep_view(&self) -> SystemMessagesView {
        self.view()
    }
}

impl Clone for SystemMessages {
    fn clone(&self) -> (res: Self)
        ensures
            res@ == self@,
    {
        SystemMessages {
            user_joined: self.user_joined.clone(),
            user_left: self.user_left.clone(),
            user_kicked: self.user_kicked.clone(),
            user_banned: self.user_banned.clone(),
        }
    }
}

/// A named grouping of channels inside a server.
#[derive(Debug, PartialEq)]
pub struct ChannelCategory {
    pub id: String,
    pub title: String,
    pub channels: Vec<String>,
}

/// The mathematical value of a [`ChannelCategory`].
pub struct ChannelCategoryView {
    pub id: Seq<char>,
    pub title: Seq<char>,
    pub channels: Seq<Seq<char>>,
}

impl View for ChannelCategory {
    type V = ChannelCategoryView;

    open spec fn view(&self) -> ChannelCategoryView {
        ChannelCategoryView {
            id: self.id@,
            title: self.title@,
            channels: self.channels.deep_view(),
        }
    }
}

impl DeepView for ChannelCategory {
    type V = ChannelCategoryView;

    open spec fn deep_view(&self) -> ChannelCategoryView {
        self.view()
    }
}

impl Clone for ChannelCategory {
    fn clone(&self) -> (res: Self)
        ensures
            res@ == self@,
    {
        let channels = self.channels.clone();
        proof {
            assert(channels.deep_view() =~= self.channels.deep_view());
        }
        ChannelCategory { id: self.id.clone(), title: self.title.clone(), channels }
    }
}

/// A server as the remote service reports it.
#[derive(Debug, PartialEq)]
pub struct Server {
    pub id: String,
    pub owner: String,
    pub name: String,
    pub description: Option<String>,
    pub channels: Vec<String>,
    pub categories: Vec<ChannelCategory>,
    pub system_messages: Option<SystemMessages>,
    pub roles: Vec<RoleEntry>,
    pub default_permissions: i64,
    pub icon: Option<File>,
    pub banner: Option<File>,
    pub flags: i32,
    pub nsfw: bool,
    pub analytics: bool,
    pub discoverable: bool,
}

/// The mathematical value of a [`Server`].
pub struct ServerView {
    pub id: Seq<char>,
    pub owner: Seq<char>,
    pub name: Seq<char>,
    pub description: Option<Seq<char>>,
    pub channels: Seq<Seq<char>>,
    pub categories: Seq<ChannelCategoryView>,
    pub system_messages: Option<SystemMessagesView>,
    pub roles: Seq<RoleEntryView>,
    pub default_permissions: i64,
    pub icon: Option<FileView>,
    pub banner: Option<FileView>,
    pub flags: i32,
    pub nsfw: bool,
    pub analytics: bool,
    pub discoverable: bool,
}

impl View for Server {
    type V = ServerView;

    open spec fn view(&self) -> ServerView {
        ServerView {
            id: self.id@,
            owner: self.owner@,
            name: self.name@,
            description: self.description.deep_view(),
            channels: self.channels.deep_view(),
            categories: self.categories.deep_view(),
            system_messages: self.system_messages.deep_view(),
            roles: self.roles.deep_view(),
            default_permissions: self.default_permissions,
            icon: self.icon.deep_view(),
            banner: self.banner.deep_view(),
            flags: self.flags,
            nsfw: self.nsfw,
            analytics: self.analytics,
            discoverable: self.discoverable,
        }
    }
}

impl DeepView for Server {
    type V = ServerView;

    open spec fn deep_view(&self) -> ServerView {
        self.view()
    }
}

impl Clone for Server {
    fn clone(&self) -> (res: Self)
        ensures
            res@ == self@,
    {
        let channels = self.channels.clone();
        let categories = self.categories.clone();
        let roles = self.roles.clone();
        proof {
            assert(channels.deep_view() =~= self.channels.deep_view());
            assert(categories.deep_view() =~= self.categories.deep_view());
            assert(roles.deep_view() =~= self.roles.deep_view());
        }
        Server {
            id: self.id.clone(),
            owner: self.owner.clone(),
            name: self.name.clone(),
            description: self.description.clone(),
            channels,
            categories,
            system_messages: self.system_messages.clone(),
            roles,
            default_permissions: self.default_permissions,
            icon: self.icon.clone(),
            banner: self.banner.clone(),
            flags: self.flags,
            nsfw: self.nsfw,
            analytics: self.analytics,
            discoverable: self.discoverable,
        }
    }
}

/// A sparse patch for a [`Server`]: `Some` replaces the field, `None`
/// leaves it unchanged.
#[derive(Debug, Clone)]
pub struct PartialServer {
    pub owner: Option<String>,
    pub name: Option<String>,
    pub description: Option<String>,
    pub categories: Option<Vec<ChannelCategory>>,
    pub system_messages: Option<SystemMessages>,
    pub flags: Option<i32>,
    pub nsfw: Option<bool>,
    pub analytics: Option<bool>,
    pub discoverable: Option<bool>,
}

} // verus!
