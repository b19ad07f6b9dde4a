//! The per-user saved-notes channel.

use vstd::prelude::*;

verus! {

/// The private channel a user keeps notes to themselves in.
#[derive(Debug, PartialEq)]
pub struct NotesChannel {
    pub id: String,
    pub user: String,
}

/// The mathematical value of a [`NotesChannel`].
pub struct NotesChannelView {
    pub id: Seq<char>,
    pub user: Seq<char>,
}

impl View for NotesChannel {
    type V = NotesChannelView;

    open spec fn view(&self) -> NotesChannelView {
        NotesChannelView { id: self.id@, user: self.user@ }
    }
}

impl DeepView for NotesChannel {
    type V = NotesChannelView;

    open spec fn deep_view(&self) -> NotesChannelView {
        self.view()
    }
}

impl Clone for NotesChannel {
    fn clone(&self) -> (res: Self)
        ensures
            res@ == self@,
    {
        NotesChannel { id: self.id.clone(), user: self.user.clone() }
    }
}

impl NotesChannel {
    pub fn get_id(&self) -> (r: String)
        ensures
            r@ == self@.id,
    {
        self.id.clone()
    }

    pub fn get_user_id(&self) -> (r: String)
        ensures
            r@ == self@.user,
    {
        self.user.clone()
    }
}

} // verus!
