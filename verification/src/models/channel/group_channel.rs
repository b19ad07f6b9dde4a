//! Group channels: ad-hoc conversations between several users.

use vstd::prelude::*;

use crate::models::file::File;
use crate::models::file::FileView;

verus! {

/// A group conversation owned by one of its members.
#[derive(Debug, PartialEq)]
pub struct GroupChannel {
    pub id: String,
    pub name: String,
    pub owner_id: String,
    pub description: Option<String>,
    pub recipients: Vec<String>,
    pub icon: Option<File>,
    pub last_message_id: Option<String>,
    pub permissions: i64,
    pub nsfw: bool,
}

/// The mathematical value of a [`GroupChannel`].
pub struct GroupChannelView {
    pub id: Seq<char>,
    pub name: Seq<char>,
    pub owner_id: Seq<char>,
    pub description: Option<Seq<char>>,
    pub recipients: Seq<Seq<char>>,
    pub icon: Option<FileView>,
    pub last_message_id: Option<Seq<char>>,
    pub permissions: i64,
    pub nsfw: bool,
}

impl View for GroupChannel {
    type V = GroupChannelView;

    open spec fn view(&self) -> GroupChannelView {
        GroupChannelView {
            id: self.id@,
            name: self.name@,
            owner_id: self.owner_id@,
            description: self.description.deep_view(),
            recipients: self.recipients.deep_view(),
            icon: self.icon.deep_view(),
            last_message_id: self.last_message_id.deep_view(),
            permissions: self.permissions,
            nsfw: self.nsfw,
        }
    }
}

impl DeepView for GroupChannel {
    type V = GroupChannelView;

    open spec fn deep_view(&self) -> GroupChannelView {
        self.view()
    }
}

impl Clone for GroupChannel {
    fn clone(&self) -> (res: Self)
        ensures
            res@ == self@,
    {
        let recipients = self.recipients.clone();
        proof {
            assert(recipients.deep_view() =~= self.recipients.deep_view());
        }
        GroupChannel {
            id: self.id.clone(),
            name: self.name.clone(),
            owner_id: self.owner_id.clone(),
            description: self.description.clone(),
            recipients,
            icon: self.icon.clone(),
            last_message_id: self.last_message_id.clone(),
            permissions: self.permissions,
            nsfw: self.nsfw,
        }
    }
}

impl GroupChannel {
    pub fn get_id(&self) -> (r: String)
        ensures
            r@ == self@.id,
    {
        self.id.clone()
    }

    pub fn get_name(&self) -> (r: String)
        ensures
            r@ == self@.name,
    {
        self.name.clone()
    }

    pub fn get_owner_id(&self) -> (r: String)
        ensures
            r@ == self@.owner_id,
    {
        self.owner_id.clone()
    }

    pub fn get_description(&self) -> (r: Option<String>)
        ensures
            r.deep_view() == self@.description,
    {
        self.description.clone()
    }

    pub fn get_recipient_ids(&self) -> (r: Vec<String>)
        ensures
            r.deep_view() == self@.recipients,
    {
        let r = self.recipients.clone();
        proof {
            assert(r.deep_view() =~= self.recipients.deep_view());
        }
        r
    }

    pub fn get_icon(&self) -> (r: Option<File>)
        ensures
            r.deep_view() == self@.icon,
    {
        self.icon.clone()
    }

    pub fn get_last_message_id(&self) -> (r: Option<String>)
        ensures
            r.deep_view() == self@.last_message_id,
    {
        self.last_message_id.clone()
    }

    pub fn get_permissions(&self) -> (r: i64)
        ensures
            r == self@.permissions,
    {
        self.permissions
    }

    pub fn is_nsfw(&self) -> (r: bool)
        ensures
            r == self@.nsfw,
    {
        self.nsfw
    }
}

} // verus!
