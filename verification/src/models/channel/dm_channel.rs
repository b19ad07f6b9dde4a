//! Direct-message channels between two users.

use vstd::prelude::*;

verus! {

/// A direct-message channel between the current user and one other.
#[derive(Debug, PartialEq)]
pub struct DMChannel {
    pub id: String,
    pub active: bool,
    pub recipients: Vec<String>,
    pub last_message_id: Option<String>,
}

/// The mathematical value of a [`DMChannel`].
pub struct DMChannelView {
    pub id: Seq<char>,
    pub active: bool,
    pub recipients: Seq<Seq<char>>,
    pub last_message_id: Option<Seq<char>>,
}

impl View for DMChannel {
    type V = DMChannelView;

    open spec fn view(&self) -> DMChannelView {
        DMChannelView {
            id: self.id@,
            active: self.active,
            recipients: self.recipients.deep_view(),
            last_message_id: self.last_message_id.deep_view(),
        }
    }
}

impl DeepView for DMChannel {
    type V = DMChannelView;

    open spec fn deep_view(&self) -> DMChannelView {
        self.view()
    }
}

impl Clone for DMChannel {
    fn clone(&self) -> (res: Self)
        ensures
            res@ == self@,
    {
        let recipients = self.recipients.clone();
        proof {
            assert(recipients.deep_view() =~= self.recipients.deep_view());
        }
        DMChannel {
            id: self.id.clone(),
            active: self.active,
            recipients,
            last_message_id: self.last_message_id.clone(),
        }
    }
}

impl DMChannel {
    pub fn get_id(&self) -> (r: String)
        ensures
            r@ == self@.id,
    {
        self.id.clone()
    }

    pub fn is_dm_active(&self) -> (r: bool)
        ensures
            r == self@.active,
    {
        self.active
    }

    pub fn get_recipients(&self) -> (r: Vec<String>)
        ensures
            r.deep_view() == self@.recipients,
    {
        let r = self.recipients.clone();
        proof {
            assert(r.deep_view() =~= self.recipients.deep_view());
        }
        r
    }

    pub fn get_last_message_id(&self) -> (r: Option<String>)
        ensures
            r.deep_view() == self@.last_message_id,
    {
        self.last_message_id.clone()
    }
}

} // verus!
