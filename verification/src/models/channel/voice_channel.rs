//! Voice channels inside a server.

use vstd::prelude::*;

use crate::models::file::File;
use crate::models::file::FileView;
use crate::models::server::PermissionOverride;

verus! {

/// A voice channel belonging to a server.
#[derive(Debug, PartialEq)]
pub struct VoiceChannel {
    pub server_id: String,
    pub id: String,
    pub name: String,
    pub description: Option<String>,
    pub icon: Option<File>,
    pub default_permissions: PermissionOverride,
    pub role_permissions: PermissionOverride,
    pub nsfw: bool,
}

/// The mathematical value of a [`VoiceChannel`].
pub struct VoiceChannelView {
    pub server_id: Seq<char>,
    pub id: Seq<char>,
    pub name: Seq<char>,
    pub description: Option<Seq<char>>,
    pub icon: Option<FileView>,
    pub default_permissions: PermissionOverride,
    pub role_permissions: PermissionOverride,
    pub nsfw: bool,
}

impl View for VoiceChannel {
    type V = VoiceChannelView;

    open spec fn view(&self) -> VoiceChannelView {
        VoiceChannelView {
            server_id: self.server_id@,
            id: self.id@,
            name: self.name@,
            description: self.description.deep_view(),
            icon: self.icon.deep_view(),
            default_permissions: self.default_permissions,
            role_permissions: self.role_permissions,
            nsfw: self.nsfw,
        }
    }
}

impl DeepView for VoiceChannel {
    type V = VoiceChannelView;

    open spec fn deep_view(&self) -> VoiceChannelView {
        self.view()
    }
}

impl Clone for VoiceChannel {
    fn clone(&self) -> (res: Self)
        ensures
            res@ == self@,
    {
        VoiceChannel {
            server_id: self.server_id.clone(),
            id: self.id.clone(),
            name: self.name.clone(),
            description: self.description.clone(),
            icon: self.icon.clone(),
            default_permissions: self.default_permissions,
            role_permissions: self.role_permissions,
            nsfw: self.nsfw,
        }
    }
}

impl VoiceChannel {
    pub fn get_id(&self) -> (r: String)
        ensures
            r@ == self@.id,
    {
        self.id.clone()
    }

    pub fn get_name(&self) -> (r: String)
        ensures
            r@ == self@.name,
    {
        self.name.clone()
    }

    pub fn get_server_id(&self) -> (r: String)
        ensures
            r@ == self@.server_id,
    {
        self.server_id.clone()
    }

    pub fn get_description(&self) -> (r: Option<String>)
        ensures
            r.deep_view() == self@.description,
    {
        self.description.clone()
    }

    pub fn get_icon(&self) -> (r: Option<File>)
        ensures
            r.deep_view() == self@.icon,
    {
        self.icon.clone()
    }

    pub fn get_default_permissions(&self) -> (r: PermissionOverride)
        ensures
            r == self@.default_permissions,
    {
        self.default_permissions
    }

    pub fn get_role_permissions(&self) -> (r: PermissionOverride)
        ensures
            r == self@.role_permissions,
    {
        self.role_permissions
    }

    pub fn is_nsfw(&self) -> (r: bool)
        ensures
            r == self@.nsfw,
    {
        self.nsfw
    }
}

} // verus!
