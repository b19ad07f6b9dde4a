//! Channels: the five shapes a conversation can take.

use vstd::prelude::*;

pub mod dm_channel;
pub mod group_channel;
pub mod notes_channel;
pub mod partial_channel;
pub mod text_channel;
pub mod voice_channel;

use crate::models::channel::dm_channel::DMChannel;
use crate::models::channel::dm_channel::DMChannelView;
use crate::models::channel::group_channel::GroupChannel;
use crate::models::channel::group_channel::GroupChannelView;
use crate::models::channel::notes_channel::NotesChannel;
use crate::models::channel::notes_channel::NotesChannelView;
use crate::models::channel::text_channel::TextChannel;
use crate::models::channel::text_channel::TextChannelView;
use crate::models::channel::voice_channel::VoiceChannel;
use crate::models::channel::voice_channel::VoiceChannelView;

verus! {

/// A channel of any of the five kinds the remote service defines.
#[derive(Debug, PartialEq)]
pub enum Channel {
    SavedMessages(NotesChannel),
    DirectMessage(DMChannel),
    Group(GroupChannel),
    TextChannel(TextChannel),
    VoiceChannel(VoiceChannel),
}

/// The mathematical value of a [`Channel`].
pub enum ChannelView {
    SavedMessages(NotesChannelView),
    DirectMessage(DMChannelView),
    Group(GroupChannelView),
    TextChannel(TextChannelView),
    VoiceChannel(VoiceChannelView),
}

impl ChannelView {
    /// The opaque ID of the channel, whatever its kind.
    pub open spec fn id(self) -> Seq<char> {
        match self {
            ChannelView::SavedMessages(notes) => notes.id,
            ChannelView::DirectMessage(dm) => dm.id,
            ChannelView::Group(group) => group.id,
            ChannelView::TextChannel(text) => text.id,
            ChannelView::VoiceChannel(voice) => voice.id,
        }
    }
}

impl View for Channel {
    type V = ChannelView;

    open spec fn view(&self) -> ChannelView {
        match self {
            Channel::SavedMessages(notes) => ChannelView::SavedMessages(notes@),
            Channel::DirectMessage(dm) => ChannelView::DirectMessage(dm@),
            Channel::Group(group) => ChannelView::Group(group@),
            Channel::TextChannel(text) => ChannelView::TextChannel(text@),
            Channel::VoiceChannel(voice) => ChannelView::VoiceChannel(voice@),
        }
    }
}

impl DeepView for Channel {
    type V = ChannelView;

    open spec fn deep_view(&self) -> ChannelView {
        self.view()
    }
}

impl Clone for Channel {
    fn clone(&self) -> (res: Self)
        ensures
            res@ == self@,
    {
        match self {
            Channel::SavedMessages(notes) => Channel::SavedMessages(notes.clone()),
            Channel::DirectMessage(dm) => Channel::DirectMessage(dm.clone()),
            Channel::Group(group) => Channel::Group(group.clone()),
            Channel::TextChannel(text) => Channel::TextChannel(text.clone()),
            Channel::VoiceChannel(voice) => Channel::VoiceChannel(voice.clone()),
        }
    }
}

impl Channel {
    pub fn get_notes_channel(&self) -> (r: Option<NotesChannel>)
        ensures
            match (r, self@) {
                (Some(c), ChannelView::SavedMessages(v)) => c@ == v,
                (None, v) => !(v is SavedMessages),
                _ => false,
            },
    {
        if let Channel::SavedMessages(channel) = self {
            Some(channel.clone())
        } else {
            None
        }
    }

    pub fn get_dm_channel(&self) -> (r: Option<DMChannel>)
        ensures
            match (r, self@) {
                (Some(c), ChannelView::DirectMessage(v)) => c@ == v,
                (None, v) => !(v is DirectMessage),
                _ => false,
            },
    {
        if let Channel::DirectMessage(channel) = self {
            Some(channel.clone())
        } else {
            None
        }
    }

    pub fn get_group_channel(&self) -> (r: Option<GroupChannel>)
        ensures
            match (r, self@) {
                (Some(c), ChannelView::Group(v)) => c@ == v,
                (None, v) => !(v is Group),
                _ => false,
            },
    {
        if let Channel::Group(channel) = self {
            Some(channel.clone())
        } else {
            None
        }
    }

    pub fn get_text_channel(&self) -> (r: Option<TextChannel>)
        ensures
            match (r, self@) {
                (Some(c), ChannelView::TextChannel(v)) => c@ == v,
                (None, v) => !(v is TextChannel),
                _ => false,
            },
    {
        if let Channel::TextChannel(channel) = self {
            Some(channel.clone())
        } else {
            None
        }
    }

    pub fn get_voice_channel(&self) -> (r: Option<VoiceChannel>)
        ensures
            match (r, self@) {
                (Some(c), ChannelView::VoiceChannel(v)) => c@ == v,
                (None, v) => !(v is VoiceChannel),
                _ => false,
            },
    {
        if let Channel::VoiceChannel(channel) = self {
            Some(channel.clone())
        } else {
            None
        }
    }
}

impl Channel {
    pub fn get_name(&self) -> (r: Option<String>)
        ensures
            match self@ {
                ChannelView::SavedMessages(_) => r is None,
                ChannelView::DirectMessage(_) => r is None,
                ChannelView::Group(v) => r matches Some(n) && n@ == v.name,
                ChannelView::TextChannel(v) => r matches Some(n) && n@ == v.name,
                ChannelView::VoiceChannel(v) => r matches Some(n) && n@ == v.name,
            },
    {
        match self {
            Channel::SavedMessages(_notes) => None,
            Channel::DirectMessage(_dm) => None,
            Channel::Group(group) => Some(group.get_name()),
            Channel::TextChannel(text) => Some(text.get_name()),
            Channel::VoiceChannel(voice) => Some(voice.get_name()),
        }
    }

    pub fn get_id(&self) -> (r: String)
        ensures
            r@ == self@.id(),
    {
        match self {
            Channel::SavedMessages(notes) => notes.get_id(),
            Channel::DirectMessage(dm) => dm.get_id(),
            Channel::Group(group) => group.get_id(),
            Channel::TextChannel(text) => text.get_id(),
            Channel::VoiceChannel(voice) => voice.get_id(),
        }
    }
}

impl Channel {
    pub fn is_notes(&self) -> (r: bool)
        ensures
            r == (self@ is SavedMessages),
    {
        if let Channel::SavedMessages(_) = self {
            true
        } else {
            false
        }
    }

    pub fn is_dm(&self) -> (r: bool)
        ensures
            r == (self@ is DirectMessage),
    {
        if let Channel::DirectMessage(_) = self {
            true
        } else {
            false
        }
    }

    pub fn is_group(&self) -> (r: bool)
        ensures
            r == (self@ is Group),
    {
        if let Channel::Group(_) = self {
            true
        } else {
            false
        }
    }

    pub fn is_text(&self) -> (r: bool)
        ensures
            r == (self@ is TextChannel),
    {
        if let Channel::TextChannel(_) = self {
            true
        } else {
            false
        }
    }

    pub fn is_voice(&self) -> (r: bool)
        ensures
            r == (self@ is VoiceChannel),
    {
        if let Channel::VoiceChannel(_) = self {
            true
        } else {
            false
        }
    }
}

} // verus!
