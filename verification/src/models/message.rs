//! Messages and the sparse patches that update them.

use vstd::prelude::*;

use crate::models::embed::Embed;
use crate::models::embed::EmbedView;
use crate::models::file::File;
use crate::models::file::FileView;
use crate::models::timestamp::Timestamp;

verus! {

/// Author overrides shown when a message is sent through a webhook.
#[derive(Debug, PartialEq)]
pub struct WebhookInfo {
    pub name: String,
    pub avatar: String,
}

/// The mathematical value of a [`WebhookInfo`].
pub struct WebhookInfoView {
    pub name: Seq<char>,
    pub avatar: Seq<char>,
}

impl View for WebhookInfo {
    type V = WebhookInfoView;

    open spec fn view(&self) -> WebhookInfoView {
        WebhookInfoView { name: self.name@, avatar: self.avatar@ }
    }
}

impl DeepView for WebhookInfo {
    type V = WebhookInfoView;

    open spec fn deep_view(&self) -> WebhookInfoView {
        self.view()
    }
}

impl Clone for WebhookInfo {
    fn clone(&self) -> (res: Self)
        ensures
            res@ == self@,
    {
        WebhookInfo { name: self.name.clone(), avatar: self.avatar.clone() }
    }
}

/// A service-generated notice rendered inside a channel.
#[derive(Debug, PartialEq)]
pub enum SystemEventMessage {
    Text { content: String },
    UserAdded { id: String, by: String },
    UserRemove { id: String, by: String },
    UserJoined { id: String },
    UserLeft { id: String },
    UserKicked { id: String },
    UserBanned { id: String },
    ChannelRenamed { name: String, by: String },
    ChannelDescriptionChanged { by: String },
    ChannelIconChanged { by: String },
    ChannelOwnershipChanged { from: String, to: String },
}

/// The mathematical value of a [`SystemEventMessage`].
pub enum SystemEventMessageView {
    Text { content: Seq<char> },
    UserAdded { id: Seq<char>, by: Seq<char> },
    UserRemove { id: Seq<char>, by: Seq<char> },
    UserJoined { id: Seq<char> },
    UserLeft { id: Seq<char> },
    UserKicked { id: Seq<char> },
    UserBanned { id: Seq<char> },
    ChannelRenamed { name: Seq<char>, by: Seq<char> },
    ChannelDescriptionChanged { by: Seq<char> },
    ChannelIconChanged { by: Seq<char> },
    ChannelOwnershipChanged { from: Seq<char>, to: Seq<char> },
}

impl View for SystemEventMessage {
    type V = SystemEventMessageView;

    open spec fn view(&self) -> SystemEventMessageView {
        match self {
            SystemEventMessage::Text { content } => SystemEventMessageView::Text {
                content: content@,
            },
            SystemEventMessage::UserAdded { id, by } => SystemEventMessageView::UserAdded {
                id: id@,
                by: by@,
            },
            SystemEventMessage::UserRemove { id, by } => SystemEventMessageView::UserRemove {
                id: id@,
                by: by@,
            },
            SystemEventMessage::UserJoined { id } => SystemEventMessageView::UserJoined { id: id@ },
            SystemEventMessage::UserLeft { id } => SystemEventMessageView::UserLeft { id: id@ },
            SystemEventMessage::UserKicked { id } => SystemEventMessageView::UserKicked { id: id@ },
            SystemEventMessage::UserBanned { id } => SystemEventMessageView::UserBanned { id: id@ },
            SystemEventMessage::ChannelRenamed { name, by } => {
                SystemEventMessageView::ChannelRenamed { name: name@, by: by@ }
            },
            SystemEventMessage::ChannelDescriptionChanged { by } => {
                SystemEventMessageView::ChannelDescriptionChanged { by: by@ }
            },
            SystemEventMessage::ChannelIconChanged { by } => {
                SystemEventMessageView::ChannelIconChanged { by: by@ }
            },
            SystemEventMessage::ChannelOwnershipChanged { from, to } => {
                SystemEventMessageView::ChannelOwnershipChanged { from: from@, to: to@ }
            },
        }
    }
}

impl DeepView for SystemEventMessage {
    type V = SystemEventMessageView;

    open spec fn deep_view(&self) -> SystemEventMessageView {
        self.view()
    }
}

impl Clone for SystemEventMessage {
    fn clone(&self) -> (res: Self)
        ensures
            res@ == self@,
    {
        match self {
            SystemEventMessage::Text { content } => SystemEventMessage::Text {
                content: content.clone(),
            },
            SystemEventMessage::UserAdded { id, by } => SystemEventMessage::UserAdded {
                id: id.clone(),
                by: by.clone(),
            },
            SystemEventMessage::UserRemove { id, by } => SystemEventMessage::UserRemove {
                id: id.clone(),
                by: by.clone(),
            },
            SystemEventMessage::UserJoined { id } => SystemEventMessage::UserJoined {
                id: id.clone(),
            },
            SystemEventMessage::UserLeft { id } => SystemEventMessage::UserLeft { id: id.clone() },
            SystemEventMessage::UserKicked { id } => SystemEventMessage::UserKicked {
                id: id.clone(),
            },
            SystemEventMessage::UserBanned { id } => SystemEventMessage::UserBanned {
                id: id.clone(),
            },
            SystemEventMessage::ChannelRenamed { name, by } => SystemEventMessage::ChannelRenamed {
                name: name.clone(),
                by: by.clone(),
            },
            SystemEventMessage::ChannelDescriptionChanged { by } => {
                SystemEventMessage::ChannelDescriptionChanged { by: by.clone() }
            },
            SystemEventMessage::ChannelIconChanged { by } => {
                SystemEventMessage::ChannelIconChanged { by: by.clone() }
            },
            SystemEventMessage::ChannelOwnershipChanged { from, to } => {
                SystemEventMessage::ChannelOwnershipChanged { from: from.clone(), to: to.clone() }
            },
        }
    }
}

/// Name and / or avatar overrides for a message.
#[derive(Debug, PartialEq)]
pub struct Masquerade {
    pub name: Option<String>,
    pub avatar: Option<String>,
    pub colour: Option<String>,
}

/// The mathematical value of a [`Masquerade`].
pub struct MasqueradeView {
    pub name: Option<Seq<char>>,
    pub avatar: Option<Seq<char>>,
    pub colour: Option<Seq<char>>,
}

impl View for Masquerade {
    type V = MasqueradeView;

    open spec fn view(&self) -> MasqueradeView {
        MasqueradeView {
            name: self.name.deep_view(),
            avatar: self.avatar.deep_view(),
            colour: self.colour.deep_view(),
        }
    }
}

impl DeepView for Masquerade {
    type V = MasqueradeView;

    open spec fn deep_view(&self) -> MasqueradeView {
        self.view()
    }
}

impl Clone for Masquerade {
    fn clone(&self) -> (res: Self)
        ensures
            res@ == self@,
    {
        Masquerade {
            name: self.name.clone(),
            avatar: self.avatar.clone(),
            colour: self.colour.clone(),
        }
    }
}

impl Masquerade {
    /// A masquerade that overrides nothing.
    pub fn empty() -> (r: Masquerade)
        ensures
            r@.name is None,
            r@.avatar is None,
            r@.colour is None,
    {
        Masquerade { name: None, avatar: None, colour: None }
    }
}

/// The reactions left on a message under one emoji, by the users who left
/// them.
#[derive(Debug, PartialEq)]
pub struct Reaction {
    pub emoji: String,
    pub users: Vec<String>,
}

/// The mathematical value of a [`Reaction`].
pub struct ReactionView {
    pub emoji: Seq<char>,
    pub users: Seq<Seq<char>>,
}

impl View for Reaction {
    type V = ReactionView;

    open spec fn view(&self) -> ReactionView {
        ReactionView { emoji: self.emoji@, users: self.users.deep_view() }
    }
}

impl DeepView for Reaction {
    type V = ReactionView;

    open spec fn deep_view(&self) -> ReactionView {
        self.view()
    }
}

impl Clone for Reaction {
    fn clone(&self) -> (res: Self)
        ensures
            res@ == self@,
    {
        let users = self.users.clone();
        proof {
            assert(users.deep_view() =~= self.users.deep_view());
        }
        Reaction { emoji: self.emoji.clone(), users }
    }
}

/// Which interactions a message permits.
#[derive(Debug, PartialEq)]
pub struct Interactions {
    pub reactions: Vec<String>,
    pub restrict_reactions: bool,
}

/// The mathematical value of an [`Interactions`].
pub struct InteractionsView {
    pub reactions: Seq<Seq<char>>,
    pub restrict_reactions: bool,
}

impl View for Interactions {
    type V = InteractionsView;

    open spec fn view(&self) -> InteractionsView {
        InteractionsView {
            reactions: self.reactions.deep_view(),
            restrict_reactions: self.restrict_reactions,
        }
    }
}

impl DeepView for Interactions {
    type V = InteractionsView;

    open spec fn deep_view(&self) -> InteractionsView {
        self.view()
    }
}

impl Clone for Interactions {
    fn clone(&self) -> (res: Self)
        ensures
            res@ == self@,
    {
        let reactions = self.reactions.clone();
        proof {
            assert(reactions.deep_view() =~= self.reactions.deep_view());
        }
        Interactions { reactions, restrict_reactions: self.restrict_reactions }
    }
}

impl Interactions {
    /// The default interaction policy: nothing restricted.
    pub fn empty() -> (r: Interactions)
        ensures
            r@.reactions.len() == 0,
            r@.restrict_reactions == false,
    {
        Interactions { reactions: Vec::new(), restrict_reactions: false }
    }
}

/// A message posted to a channel.
#[derive(Debug, PartialEq)]
pub struct Message {
    pub id: String,
    pub nonce: Option<String>,
    pub channel: String,
    pub author: String,
    pub webhook: Option<WebhookInfo>,
    pub content: Option<String>,
    pub system: Option<SystemEventMessage>,
    pub attachments: Vec<File>,
    pub edited: Option<Timestamp>,
    pub embeds: Vec<Embed>,
    pub replies: Vec<String>,
    pub reactions: Vec<Reaction>,
    pub interactions: Interactions,
    pub masquerade: Option<Masquerade>,
}

/// The mathematical value of a [`Message`].
pub struct MessageView {
    pub id: Seq<char>,
    pub nonce: Option<Seq<char>>,
    pub channel: Seq<char>,
    pub author: Seq<char>,
    pub webhook: Option<WebhookInfoView>,
    pub content: Option<Seq<char>>,
    pub system: Option<SystemEventMessageView>,
    pub attachments: Seq<FileView>,
    pub edited: Option<Timestamp>,
    pub embeds: Seq<EmbedView>,
    pub replies: Seq<Seq<char>>,
    pub reactions: Seq<ReactionView>,
    pub interactions: InteractionsView,
    pub masquerade: Option<MasqueradeView>,
}

impl View for Message {
    type V = MessageView;

    open spec fn view(&self) -> MessageView {
        MessageView {
            id: self.id@,
            nonce: self.nonce.deep_view(),
            channel: self.channel@,
            author: self.author@,
            webhook: self.webhook.deep_view(),
            content: self.content.deep_view(),
            system: self.system.deep_view(),
            attachments: self.attachments.deep_view(),
            edited: self.edited,
            embeds: self.embeds.deep_view(),
            replies: self.replies.deep_view(),
            reactions: self.reactions.deep_view(),
            interactions: self.interactions@,
            masquerade: self.masquerade.deep_view(),
        }
    }
}

impl DeepView for Message {
    type V = MessageView;

    open spec fn deep_view(&self) -> MessageView {
        self.view()
    }
}

impl Clone for Message {
    fn clone(&self) -> (res: Self)
        ensures
            res@ == self@,
    {
        let attachments = self.attachments.clone();
        let embeds = self.embeds.clone();
        let replies = self.replies.clone();
        let reactions = self.reactions.clone();
        proof {
            assert(attachments.deep_view() =~= self.attachments.deep_view());
            assert(embeds.deep_view() =~= self.embeds.deep_view());
            assert(replies.deep_view() =~= self.replies.deep_view());
            assert(reactions.deep_view() =~= self.reactions.deep_view());
        }
        Message {
            id: self.id.clone(),
            nonce: self.nonce.clone(),
            channel: self.channel.clone(),
            author: self.author.clone(),
            webhook: self.webhook.clone(),
            content: self.content.clone(),
            system: self.system.clone(),
            attachments,
            edited: self.edited,
            embeds,
            replies,
            reactions,
            interactions: self.interactions.clone(),
            masquerade: self.masquerade.clone(),
        }
    }
}

impl MessageView {
    /// The message that results from applying a sparse patch: each field the
    /// patch carries replaces the message's field, every other field keeps
    /// its value.
    pub open spec fn patched(self, p: PartialMessageView) -> MessageView {
        MessageView {
            id: self.id,
            nonce: self.nonce,
            channel: self.channel,
            author: self.author,
            webhook: self.webhook,
            content: if p.content is Some {
                p.content
            } else {
                self.content
            },
            system: self.system,
            attachments: match p.attachments {
                Some(a) => a,
                None => self.attachments,
            },
            edited: self.edited,
            embeds: match p.embeds {
                Some(e) => e,
                None => self.embeds,
            },
            replies: match p.replies {
                Some(r) => r,
                None => self.replies,
            },
            reactions: self.reactions,
            interactions: self.interactions,
            masquerade: if p.masquerade is Some {
                p.masquerade
            } else {
                self.masquerade
            },
        }
    }
}

impl Message {
    /// Applies a sparse patch to a copy of this message: a field-by-field
    /// conditional overwrite, never an in-place partial mutation, so any
    /// observer sees either the old full record or the new full record.
    pub fn apply_partial(&self, partial: &PartialMessage) -> (r: Message)
        ensures
            r@ == self@.patched(partial@),
    {
        let content = if let Some(c) = &partial.content {
            Some(c.clone())
        } else {
            self.content.clone()
        };
        let attachments = if let Some(a) = &partial.attachments {
            let v = a.clone();
            proof {
                assert(v.deep_view() =~= a.deep_view());
            }
            v
        } else {
            let v = self.attachments.clone();
            proof {
                assert(v.deep_view() =~= self.attachments.deep_view());
            }
            v
        };
        let embeds = if let Some(e) = &partial.embeds {
            let v = e.clone();
            proof {
                assert(v.deep_view() =~= e.deep_view());
            }
            v
        } else {
            let v = self.embeds.clone();
            proof {
                assert(v.deep_view() =~= self.embeds.deep_view());
            }
            v
        };
        let replies = if let Some(rs) = &partial.replies {
            let v = rs.clone();
            proof {
                assert(v.deep_view() =~= rs.deep_view());
            }
            v
        } else {
            let v = self.replies.clone();
            proof {
                assert(v.deep_view() =~= self.replies.deep_view());
            }
            v
        };
        let masquerade = if let Some(m) = &partial.masquerade {
            Some(m.clone())
        } else {
            self.masquerade.clone()
        };
        let reactions = self.reactions.clone();
        proof {
            assert(reactions.deep_view() =~= self.reactions.deep_view());
        }
        Message {
            id: self.id.clone(),
            nonce: self.nonce.clone(),
            channel: self.channel.clone(),
            author: self.author.clone(),
            webhook: self.webhook.clone(),
            content,
            system: self.system.clone(),
            attachments,
            edited: self.edited,
            embeds,
            replies,
            reactions,
            interactions: self.interactions.clone(),
            masquerade,
        }
    }
}

/// Law: applying the empty patch (every field absent) to a message leaves
/// it identical.
pub proof fn lemma_empty_patch_identity(m: MessageView, p: PartialMessageView)
    requires
        p.content is None,
        p.attachments is None,
        p.embeds is None,
        p.replies is None,
        p.masquerade is None,
    ensures
        m.patched(p) == m,
{
}

/// Law: a patch that carries only a content replaces exactly the content
/// and leaves every other field of the message unchanged.
pub proof fn lemma_patch_content_only(m: MessageView, p: PartialMessageView)
    requires
        p.content is Some,
        p.attachments is None,
        p.embeds is None,
        p.replies is None,
        p.masquerade is None,
    ensures
        m.patched(p).content == p.content,
        m.patched(p).id == m.id,
        m.patched(p).nonce == m.nonce,
        m.patched(p).channel == m.channel,
        m.patched(p).author == m.author,
        m.patched(p).webhook == m.webhook,
        m.patched(p).system == m.system,
        m.patched(p).attachments == m.attachments,
        m.patched(p).edited == m.edited,
        m.patched(p).embeds == m.embeds,
        m.patched(p).replies == m.replies,
        m.patched(p).reactions == m.reactions,
        m.patched(p).interactions == m.interactions,
        m.patched(p).masquerade == m.masquerade,
{
}

/// A sparse patch for a [`Message`]: `Some` replaces the field, `None`
/// leaves it unchanged.
#[derive(Debug, PartialEq)]
pub struct PartialMessage {
    pub content: Option<String>,
    pub attachments: Option<Vec<File>>,
    pub embeds: Option<Vec<Embed>>,
    pub replies: Option<Vec<String>>,
    /// Name and / or avatar overrides for this message
    pub masquerade: Option<Masquerade>,
}

/// The mathematical value of a [`PartialMessage`].
pub struct PartialMessageView {
    pub content: Option<Seq<char>>,
    pub attachments: Option<Seq<FileView>>,
    pub embeds: Option<Seq<EmbedView>>,
    pub replies: Option<Seq<Seq<char>>>,
    pub masquerade: Option<MasqueradeView>,
}

impl View for PartialMessage {
    type V = PartialMessageView;

    open spec fn view(&self) -> PartialMessageView {
        PartialMessageView {
            content: self.content.deep_view(),
            attachments: self.attachments.deep_view(),
            embeds: self.embeds.deep_view(),
            replies: self.replies.deep_view(),
            masquerade: self.masquerade.deep_view(),
        }
    }
}

impl DeepView for PartialMessage {
    type V = PartialMessageView;

    open spec fn deep_view(&self) -> PartialMessageView {
        self.view()
    }
}

impl Clone for PartialMessage {
    fn clone(&self) -> (res: Self)
        ensures
            res@ == self@,
    {
        let attachments = self.attachments.clone();
        let embeds = self.embeds.clone();
        let replies = self.replies.clone();
        proof {
            assert(attachments.deep_view() =~= self.attachments.deep_view());
            assert(embeds.deep_view() =~= self.embeds.deep_view());
            assert(replies.deep_view() =~= self.replies.deep_view());
        }
        PartialMessage {
            content: self.content.clone(),
            attachments,
            embeds,
            replies,
            masquerade: self.masquerade.clone(),
        }
    }
}

impl PartialMessage {
    /// The empty patch: every field absent, so applying it changes nothing.
    pub fn empty() -> (r: PartialMessage)
        ensures
            r@.content is None,
            r@.attachments is None,
            r@.embeds is None,
            r@.replies is None,
            r@.masquerade is None,
    {
        PartialMessage {
            content: None,
            attachments: None,
            embeds: None,
            replies: None,
            masquerade: None,
        }
    }
}

} // verus!
