//! Users, their presence and their relationships to the current account.

use vstd::prelude::*;

use crate::models::file::File;
use crate::models::file::FileView;

verus! {

/// The presence shown beside a user.
#[derive(Debug, Clone, Copy, PartialEq, Eq, Structural)]
pub enum Presence {
    Online,
    Idle,
    Focus,
    Busy,
    Invisible,
}

/// How another user stands to the current account.
#[derive(Debug, Clone, Copy, PartialEq, Eq, Structural)]
pub enum RelationshipStatus {
    Unrelated,
    User,
    Friend,
    Outgoing,
    Incoming,
    Blocked,
    BlockedOther,
}

/// A permission a user may hold against another user.
#[derive(Debug, Clone, Copy, PartialEq, Eq, Structural)]
pub enum UserPermission {
    Access,
    ViewProfile,
    SendMessage,
    Invite,
}

/// The relationship entry a user record carries for one other user.
#[derive(Debug, PartialEq)]
pub struct Relationship {
    pub id: String,
    pub status: RelationshipStatus,
}

/// The mathematical value of a [`Relationship`].
pub struct RelationshipView {
    pub id: Seq<char>,
    pub status: RelationshipStatus,
}

impl View for Relationship {
    type V = RelationshipView;

    open spec fn view(&self) -> RelationshipView {
        RelationshipView { id: self.id@, status: self.status }
    }
}

impl DeepView for Relationship {
    type V = RelationshipView;

    open spec fn deep_view(&self) -> RelationshipView {
        self.view()
    }
}

impl Clone for Relationship {
    fn clone(&self) -> (res: Self)
        ensures
            res@ == self@,
    {
        Relationship { id: self.id.clone(), status: self.status }
    }
}

/// The owner of a bot account.
#[derive(Debug, PartialEq)]
pub struct BotInfo {
    pub owner: String,
}

/// The mathematical value of a [`BotInfo`].
pub struct BotInfoView {
    pub owner: Seq<char>,
}

impl View for BotInfo {
    type V = BotInfoView;

    open spec fn view(&self) -> BotInfoView {
        BotInfoView { owner: self.owner@ }
    }
}

impl DeepView for BotInfo {
    type V = BotInfoView;

    open spec fn deep_view(&self) -> BotInfoView {
        self.view()
    }
}

impl Clone for BotInfo {
    fn clone(&self) -> (res: Self)
        ensures
            res@ == self@,
    {
        BotInfo { owner: self.owner.clone() }
    }
}

/// A user's profile page.
#[derive(Debug, PartialEq)]
pub struct UserProfile {
    pub content: Option<String>,
    pub background: Option<File>,
}

/// The mathematical value of a [`UserProfile`].
pub struct UserProfileView {
    pub content: Option<Seq<char>>,
    pub background: Option<FileView>,
}

impl View for UserProfile {
    type V = UserProfileView;

    open spec fn view(&self) -> UserProfileView {
        UserProfileView {
            content: self.content.deep_view(),
            background: self.background.deep_view(),
        }
    }
}

impl DeepView for UserProfile {
    type V = UserProfileView;

    open spec fn deep_view(&self) -> UserProfileView {
        self.view()
    }
}

impl Clone for UserProfile {
    fn clone(&self) -> (res: Self)
        ensures
            res@ == self@,
    {
        UserProfile { content: self.content.clone(), background: self.background.clone() }
    }
}

impl UserProfile {
    /// A profile with nothing filled in.
    pub fn empty() -> (r: UserProfile)
        ensures
            r@.content is None,
            r@.background is None,
    {
        UserProfile { content: None, background: None }
    }
}

/// A user's current status.
#[derive(Debug, PartialEq)]
pub struct Status {
    pub text: Option<String>,
    pub presence: Presence,
}

/// The mathematical value of a [`Status`].
pub struct StatusView {
    pub text: Option<Seq<char>>,
    pub presence: Presence,
}

impl View for Status {
    type V = StatusView;

    open spec fn view(&self) -> StatusView {
        StatusView { text: self.text.deep_view(), presence: self.presence }
    }
}

impl DeepView for Status {
    type V = StatusView;

    open spec fn deep_view(&self) -> StatusView {
        self.view()
    }
}

impl Clone for Status {
    fn clone(&self) -> (res: Self)
        ensures
            res@ == self@,
    {
        Status { text: self.text.clone(), presence: self.presence }
    }
}

impl Status {
    /// The status a freshly seen user carries: no text, invisible.
    pub fn empty() -> (r: Status)
        ensures
            r@.text is None,
            r@.presence == Presence::Invisible,
    {
        Status { text: None, presence: Presence::Invisible }
    }
}

/// A user account as the remote service reports it.
#[derive(Debug, PartialEq)]
pub struct User {
    pub id: String,
    pub username: String,
    pub discriminator: String,
    pub display_name: Option<String>,
    pub avatar: Option<File>,
    pub relations: Vec<Relationship>,
    pub badges: i32,
    pub status: Status,
    pub profile: UserProfile,
    pub flags: i32,
    pub privileged: bool,
    pub bot: Option<BotInfo>,
    pub relationship: RelationshipStatus,
    pub online: bool,
}

/// The mathematical value of a [`User`].
pub struct UserView {
    pub id: Seq<char>,
    pub username: Seq<char>,
    pub discriminator: Seq<char>,
    pub display_name: Option<Seq<char>>,
    pub avatar: Option<FileView>,
    pub relations: Seq<RelationshipView>,
    pub badges: i32,
    pub status: StatusView,
    pub profile: UserProfileView,
    pub flags: i32,
    pub privileged: bool,
    pub bot: Option<BotInfoView>,
    pub relationship: RelationshipStatus,
    pub online: bool,
}

impl View for User {
    type V = UserView;

    open spec fn view(&self) -> UserView {
        UserView {
            id: self.id@,
            username: self.username@,
            discriminator: self.discriminator@,
            display_name: self.display_name.deep_view(),
            avatar: self.avatar.deep_view(),
            relations: self.relations.deep_view(),
            badges: self.badges,
            status: self.status@,
            profile: self.profile@,
            flags: self.flags,
            privileged: self.privileged,
            bot: self.bot.deep_view(),
            relationship: self.relationship,
            online: self.online,
        }
    }
}

impl DeepView for User {
    type V = UserView;

    open spec fn deep_view(&self) -> UserView {
        self.view()
    }
}

impl Clone for User {
    fn clone(&self) -> (res: Self)
        ensures
            res@ == self@,
    {
        let relations = self.relations.clone();
        proof {
            assert(relations.deep_view() =~= self.relations.deep_view());
        }
        User {
            id: self.id.clone(),
            username: self.username.clone(),
            discriminator: self.discriminator.clone(),
            display_name: self.display_name.clone(),
            avatar: self.avatar.clone(),
            relations,
            badges: self.badges,
            status: self.status.clone(),
            profile: self.profile.clone(),
            flags: self.flags,
            privileged: self.privileged,
            bot: self.bot.clone(),
            relationship: self.relationship,
            online: self.online,
        }
    }
}

impl User {
    /// The blank user record used before the current account is known.
    pub fn anonymous() -> (r: User)
        ensures
            r@.id.len() == 0,
            r@.username.len() == 0,
            r@.discriminator.len() == 0,
            r@.display_name is None,
            r@.avatar is None,
            r@.relations.len() == 0,
            r@.badges == 0,
            r@.flags == 0,
            r@.privileged == false,
            r@.bot is None,
            r@.relationship == RelationshipStatus::Unrelated,
            r@.online == false,
    {
        User {
            id: String::new(),
            username: String::new(),
            discriminator: String::new(),
            display_name: None,
            avatar: None,
            relations: Vec::new(),
            badges: 0,
            status: Status::empty(),
            profile: UserProfile::empty(),
            flags: 0,
            privileged: false,
            bot: None,
            relationship: RelationshipStatus::Unrelated,
            online: false,
        }
    }
}

} // verus!
