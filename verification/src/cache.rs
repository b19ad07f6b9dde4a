//! The coherent cache: a bounded, keyed store of the four entity kinds.
//!
//! Users, channels and servers are kept one-per-ID, newest replacing oldest.
//! Messages are additionally bounded in total count: inserting past
//! `max_messages` evicts the single oldest-inserted message first, so the
//! store is a FIFO over insertion order, not an LRU.
//!
//! The store is a vector per kind, in insertion order, with at most one
//! entry per ID; all contracts are stated over the sequences of entity
//! values ([`CacheView`]).

use vstd::prelude::*;

use crate::models::channel::Channel;
use crate::models::channel::ChannelView;
use crate::models::message::Message;
use crate::models::message::MessageView;
use crate::models::message::PartialMessage;
use crate::models::server::Server;
use crate::models::server::ServerView;
use crate::models::user::User;
use crate::models::user::UserView;
use vstd::pervasive::VecAdditionalExecFns;

verus! {

/// The first entity in `s` whose ID is `id`, if any.
pub open spec fn lookup_user(s: Seq<UserView>, id: Seq<char>) -> Option<UserView>
    decreases s.len(),
{
    if s.len() == 0 {
        None
    } else if s[0].id == id {
        Some(s[0])
    } else {
        lookup_user(s.drop_first(), id)
    }
}

/// The first channel in `s` whose ID is `id`, if any.
pub open spec fn lookup_channel(s: Seq<ChannelView>, id: Seq<char>) -> Option<ChannelView>
    decreases s.len(),
{
    if s.len() == 0 {
        None
    } else if s[0].id() == id {
        Some(s[0])
    } else {
        lookup_channel(s.drop_first(), id)
    }
}

/// The first server in `s` whose ID is `id`, if any.
pub open spec fn lookup_server(s: Seq<ServerView>, id: Seq<char>) -> Option<ServerView>
    decreases s.len(),
{
    if s.len() == 0 {
        None
    } else if s[0].id == id {
        Some(s[0])
    } else {
        lookup_server(s.drop_first(), id)
    }
}

/// The first message in `s` whose ID is `id`, if any.
pub open spec fn lookup_message(s: Seq<MessageView>, id: Seq<char>) -> Option<MessageView>
    decreases s.len(),
{
    if s.len() == 0 {
        None
    } else if s[0].id == id {
        Some(s[0])
    } else {
        lookup_message(s.drop_first(), id)
    }
}

/// `s` with `u` replacing the first entry of the same ID, or appended when
/// no entry has its ID.
pub open spec fn upsert_user(s: Seq<UserView>, u: UserView) -> Seq<UserView>
    decreases s.len(),
{
    if s.len() == 0 {
        seq![u]
    } else if s[0].id == u.id {
        seq![u] + s.drop_first()
    } else {
        seq![s[0]] + upsert_user(s.drop_first(), u)
    }
}

/// `s` with `c` replacing the first entry of the same ID, or appended when
/// no entry has its ID.
pub open spec fn upsert_channel(s: Seq<ChannelView>, c: ChannelView) -> Seq<ChannelView>
    decreases s.len(),
{
    if s.len() == 0 {
        seq![c]
    } else if s[0].id() == c.id() {
        seq![c] + s.drop_first()
    } else {
        seq![s[0]] + upsert_channel(s.drop_first(), c)
    }
}

/// `s` with `v` replacing the first entry of the same ID, or appended when
/// no entry has its ID.
pub open spec fn upsert_server(s: Seq<ServerView>, v: ServerView) -> Seq<ServerView>
    decreases s.len(),
{
    if s.len() == 0 {
        seq![v]
    } else if s[0].id == v.id {
        seq![v] + s.drop_first()
    } else {
        seq![s[0]] + upsert_server(s.drop_first(), v)
    }
}

/// `s` with `m` replacing the first entry of the same ID; `s` unchanged
/// when no entry has its ID.
pub open spec fn replace_message(s: Seq<MessageView>, m: MessageView) -> Seq<MessageView>
    decreases s.len(),
{
    if s.len() == 0 {
        s
    } else if s[0].id == m.id {
        seq![m] + s.drop_first()
    } else {
        seq![s[0]] + replace_message(s.drop_first(), m)
    }
}

/// The message store after inserting `m` with bound `max`: a message of the
/// same ID is replaced in place; otherwise, when the store is at (or past)
/// the bound, the oldest-inserted message is evicted before `m` is appended.
pub open spec fn stored_messages(s: Seq<MessageView>, max: int, m: MessageView) -> Seq<
    MessageView,
> {
    if lookup_message(s, m.id) is Some {
        replace_message(s, m)
    } else if s.len() >= max && s.len() > 0 {
        s.drop_first().push(m)
    } else {
        s.push(m)
    }
}

/// The message store after a patch for `id`: unchanged when `id` is absent,
/// otherwise the stored message is replaced by its patched copy.
pub open spec fn patched_messages(
    s: Seq<MessageView>,
    id: Seq<char>,
    p: crate::models::message::PartialMessageView,
) -> Seq<MessageView> {
    match lookup_message(s, id) {
        Some(m) => replace_message(s, m.patched(p)),
        None => s,
    }
}

/// The bounded, keyed store of the four entity kinds.
///
/// Each vector holds its entities in insertion order with at most one entry
/// per ID; `max_messages` bounds only the message store.
#[derive(Debug, Clone)]
pub struct Cache {
    pub users: Vec<User>,
    pub channels: Vec<Channel>,
    pub servers: Vec<Server>,
    pub messages: Vec<Message>,
    pub max_messages: usize,
}

/// The mathematical value of a [`Cache`]: the four entity sequences, in
/// insertion order, and the message bound.
pub struct CacheView {
    pub users: Seq<UserView>,
    pub channels: Seq<ChannelView>,
    pub servers: Seq<ServerView>,
    pub messages: Seq<MessageView>,
    pub max_messages: int,
}

impl View for Cache {
    type V = CacheView;

    open spec fn view(&self) -> CacheView {
        CacheView {
            users: self.users.deep_view(),
            channels: self.channels.deep_view(),
            servers: self.servers.deep_view(),
            messages: self.messages.deep_view(),
            max_messages: self.max_messages as int,
        }
    }
}

impl CacheView {
    /// Nothing is stored.
    pub open spec fn is_empty(self) -> bool {
        &&& self.users.len() == 0
        &&& self.channels.len() == 0
        &&& self.servers.len() == 0
        &&& self.messages.len() == 0
    }
}

impl Cache {
    /// A fresh cache with nothing stored and the given message bound.
    pub fn new(max_messages: usize) -> (r: Cache)
        ensures
            r@.is_empty(),
            r@.max_messages == max_messages,
    {
        Cache {
            users: Vec::new(),
            channels: Vec::new(),
            servers: Vec::new(),
            messages: Vec::new(),
            max_messages,
        }
    }

    /// Whether any entity at all is stored; an empty overlay compares equal
    /// to a freshly-constructed cache, so an event whose overlay is empty
    /// produced no cache writes.
    pub fn is_empty(&self) -> (r: bool)
        ensures
            r == self@.is_empty(),
    {
        self.users.len() == 0 && self.channels.len() == 0 && self.servers.len() == 0
            && self.messages.len() == 0
    }

    /// Pure lookup of a user by ID; no side effect.
    pub fn get_user(&self, id: &str) -> (r: Option<User>)
        ensures
            match r {
                Some(u) => lookup_user(self@.users, id@) == Some(u@),
                None => lookup_user(self@.users, id@) is None,
            },
    {
        let key: String = id.to_owned();
        let mut i: usize = 0;
        while i < self.users.len()
            invariant
                0 <= i <= self.users.len(),
                key@ == id@,
                forall|j: int| 0 <= j < i ==> self.users.deep_view()[j].id != id@,
            decreases self.users.len() - i,
        {
            if self.users[i].id == key {
                proof {
                    lemma_lookup_user_skip(self.users.deep_view(), id@, i as int);
                }
                return Some(self.users[i].clone());
            }
            i += 1;
        }
        proof {
            lemma_lookup_user_skip(self.users.deep_view(), id@, i as int);
        }
        None
    }

    /// Pure lookup of a channel by ID; no side effect.
    pub fn get_channel(&self, id: &str) -> (r: Option<Channel>)
        ensures
            match r {
                Some(c) => lookup_channel(self@.channels, id@) == Some(c@),
                None => lookup_channel(self@.channels, id@) is None,
            },
    {
        let key: String = id.to_owned();
        let mut i: usize = 0;
        while i < self.channels.len()
            invariant
                0 <= i <= self.channels.len(),
                key@ == id@,
                forall|j: int| 0 <= j < i ==> self.channels.deep_view()[j].id() != id@,
            decreases self.channels.len() - i,
        {
            let cid = self.channels[i].get_id();
            if cid == key {
                proof {
                    lemma_lookup_channel_skip(self.channels.deep_view(), id@, i as int);
                }
                return Some(self.channels[i].clone());
            }
            i += 1;
        }
        proof {
            lemma_lookup_channel_skip(self.channels.deep_view(), id@, i as int);
        }
        None
    }

    /// Pure lookup of a server by ID; no side effect.
    pub fn get_server(&self, id: &str) -> (r: Option<Server>)
        ensures
            match r {
                Some(v) => lookup_server(self@.servers, id@) == Some(v@),
                None => lookup_server(self@.servers, id@) is None,
            },
    {
        let key: String = id.to_owned();
        let mut i: usize = 0;
        while i < self.servers.len()
            invariant
                0 <= i <= self.servers.len(),
                key@ == id@,
                forall|j: int| 0 <= j < i ==> self.servers.deep_view()[j].id != id@,
            decreases self.servers.len() - i,
        {
            if self.servers[i].id == key {
                proof {
                    lemma_lookup_server_skip(self.servers.deep_view(), id@, i as int);
                }
                return Some(self.servers[i].clone());
            }
            i += 1;
        }
        proof {
            lemma_lookup_server_skip(self.servers.deep_view(), id@, i as int);
        }
        None
    }

    /// Pure lookup of a message by ID; no side effect.
    pub fn get_message(&self, id: &str) -> (r: Option<Message>)
        ensures
            match r {
                Some(m) => lookup_message(self@.messages, id@) == Some(m@),
                None => lookup_message(self@.messages, id@) is None,
            },
    {
        let key: String = id.to_owned();
        let mut i: usize = 0;
        while i < self.messages.len()
            invariant
                0 <= i <= self.messages.len(),
                key@ == id@,
                forall|j: int| 0 <= j < i ==> self.messages.deep_view()[j].id != id@,
            decreases self.messages.len() - i,
        {
            if self.messages[i].id == key {
                proof {
                    lemma_lookup_message_skip(self.messages.deep_view(), id@, i as int);
                }
                return Some(self.messages[i].clone());
            }
            i += 1;
        }
        proof {
            lemma_lookup_message_skip(self.messages.deep_view(), id@, i as int);
        }
        None
    }

    /// Insert or replace a user, keyed by its own ID.
    pub fn put_user(&mut self, user: User)
        ensures
            final(self)@.users == upsert_user(old(self)@.users, user@),
            final(self)@.channels == old(self)@.channels,
            final(self)@.servers == old(self)@.servers,
            final(self)@.messages == old(self)@.messages,
            final(self)@.max_messages == old(self)@.max_messages,
    {
        let ghost orig = self.users.deep_view();
        let mut i: usize = 0;
        while i < self.users.len()
            invariant
                0 <= i <= self.users.len(),
                *self == *old(self),
                orig == self.users.deep_view(),
                forall|j: int| 0 <= j < i ==> orig[j].id != user@.id,
            decreases self.users.len() - i,
        {
            if self.users[i].id == user.id {
                proof {
                    lemma_upsert_user_at(orig, user@, i as int);
                }
                self.users.set(i, user);
                proof {
                    assert(self.users.deep_view() =~= orig.update(i as int, user@));
                }
                return ;
            }
            i += 1;
        }
        proof {
            lemma_upsert_user_absent(orig, user@);
        }
        self.users.push(user);
        proof {
            assert(self.users.deep_view() =~= orig.push(user@));
        }
    }

    /// Insert or replace a channel, keyed by its own ID.
    pub fn put_channel(&mut self, channel: Channel)
        ensures
            final(self)@.channels == upsert_channel(old(self)@.channels, channel@),
            final(self)@.users == old(self)@.users,
            final(self)@.servers == old(self)@.servers,
            final(self)@.messages == old(self)@.messages,
            final(self)@.max_messages == old(self)@.max_messages,
    {
        let ghost orig = self.channels.deep_view();
        let cid = channel.get_id();
        let mut i: usize = 0;
        while i < self.channels.len()
            invariant
                0 <= i <= self.channels.len(),
                *self == *old(self),
                orig == self.channels.deep_view(),
                cid@ == channel@.id(),
                forall|j: int| 0 <= j < i ==> orig[j].id() != channel@.id(),
            decreases self.channels.len() - i,
        {
            let eid = self.channels[i].get_id();
            if eid == cid {
                proof {
                    lemma_upsert_channel_at(orig, channel@, i as int);
                }
                self.channels.set(i, channel);
                proof {
                    assert(self.channels.deep_view() =~= orig.update(i as int, channel@));
                }
                return ;
            }
            i += 1;
        }
        proof {
            lemma_upsert_channel_absent(orig, channel@);
        }
        self.channels.push(channel);
        proof {
            assert(self.channels.deep_view() =~= orig.push(channel@));
        }
    }

    /// Insert or replace a server, keyed by its own ID.
    pub fn put_server(&mut self, server: Server)
        ensures
            final(self)@.servers == upsert_server(old(self)@.servers, server@),
            final(self)@.users == old(self)@.users,
            final(self)@.channels == old(self)@.channels,
            final(self)@.messages == old(self)@.messages,
            final(self)@.max_messages == old(self)@.max_messages,
    {
        let ghost orig = self.servers.deep_view();
        let mut i: usize = 0;
        while i < self.servers.len()
            invariant
                0 <= i <= self.servers.len(),
                *self == *old(self),
                orig == self.servers.deep_view(),
                forall|j: int| 0 <= j < i ==> orig[j].id != server@.id,
            decreases self.servers.len() - i,
        {
            if self.servers[i].id == server.id {
                proof {
                    lemma_upsert_server_at(orig, server@, i as int);
                }
                self.servers.set(i, server);
                proof {
                    assert(self.servers.deep_view() =~= orig.update(i as int, server@));
                }
                return ;
            }
            i += 1;
        }
        proof {
            lemma_upsert_server_absent(orig, server@);
        }
        self.servers.push(server);
        proof {
            assert(self.servers.deep_view() =~= orig.push(server@));
        }
    }

    /// Insert a message. A message with the same ID is replaced in place;
    /// otherwise, when the store holds `max_messages` messages (or more),
    /// the oldest-inserted one is evicted first.
    pub fn add_message(&mut self, msg: Message)
        ensures
            final(self)@.messages == stored_messages(
                old(self)@.messages,
                old(self)@.max_messages,
                msg@,
            ),
            final(self)@.users == old(self)@.users,
            final(self)@.channels == old(self)@.channels,
            final(self)@.servers == old(self)@.servers,
            final(self)@.max_messages == old(self)@.max_messages,
    {
        let ghost orig = self.messages.deep_view();
        let mut i: usize = 0;
        while i < self.messages.len()
            invariant
                0 <= i <= self.messages.len(),
                *self == *old(self),
                orig == self.messages.deep_view(),
                forall|j: int| 0 <= j < i ==> orig[j].id != msg@.id,
            decreases self.messages.len() - i,
        {
            if self.messages[i].id == msg.id {
                proof {
                    lemma_lookup_message_skip(orig, msg@.id, i as int);
                    lemma_replace_message_at(orig, msg@, i as int);
                }
                self.messages.set(i, msg);
                proof {
                    assert(self.messages.deep_view() =~= orig.update(i as int, msg@));
                }
                return ;
            }
            i += 1;
        }
        proof {
            lemma_lookup_message_skip(orig, msg@.id, i as int);
        }
        if self.messages.len() >= self.max_messages && self.messages.len() > 0 {
            let _ = self.messages.remove(0);
            let ghost shifted = self.messages.deep_view();
            proof {
                assert(shifted =~= orig.drop_first());
            }
            self.messages.push(msg);
            proof {
                assert(self.messages.deep_view() =~= shifted.push(msg@));
            }
        } else {
            self.messages.push(msg);
            proof {
                assert(self.messages.deep_view() =~= orig.push(msg@));
            }
        }
    }

    /// Apply a sparse patch to the message stored under `msg_id`: a no-op
    /// when the ID is absent, otherwise a clone-and-patch-and-replace.
    pub fn update_message(&mut self, msg_id: &str, partial_msg: PartialMessage)
        ensures
            final(self)@.messages == patched_messages(old(self)@.messages, msg_id@, partial_msg@),
            final(self)@.users == old(self)@.users,
            final(self)@.channels == old(self)@.channels,
            final(self)@.servers == old(self)@.servers,
            final(self)@.max_messages == old(self)@.max_messages,
    {
        let key: String = msg_id.to_owned();
        let ghost orig = self.messages.deep_view();
        let mut i: usize = 0;
        while i < self.messages.len()
            invariant
                0 <= i <= self.messages.len(),
                *self == *old(self),
                orig == self.messages.deep_view(),
                key@ == msg_id@,
                forall|j: int| 0 <= j < i ==> orig[j].id != msg_id@,
            decreases self.messages.len() - i,
        {
            if self.messages[i].id == key {
                let patched = self.messages[i].apply_partial(&partial_msg);
                proof {
                    lemma_lookup_message_skip(orig, msg_id@, i as int);
                    assert(orig[i as int].patched(partial_msg@).id == orig[i as int].id);
                    lemma_replace_message_at(orig, orig[i as int].patched(partial_msg@), i as int);
                }
                self.messages.set(i, patched);
                proof {
                    assert(self.messages.deep_view() =~= orig.update(
                        i as int,
                        orig[i as int].patched(partial_msg@),
                    ));
                }
                return ;
            }
            i += 1;
        }
        proof {
            lemma_lookup_message_skip(orig, msg_id@, i as int);
        }
    }
}

/// If no entry among the first `i` matches, the lookup is decided by the
/// rest of the sequence.
proof fn lemma_lookup_user_skip(s: Seq<UserView>, id: Seq<char>, i: int)
    requires
        0 <= i <= s.len(),
        forall|j: int| 0 <= j < i ==> s[j].id != id,
    ensures
        lookup_user(s, id) == lookup_user(s.skip(i), id),
    decreases i,
{
    if i > 0 {
        assert(s.drop_first().skip(i - 1) =~= s.skip(i));
        lemma_lookup_user_skip(s.drop_first(), id, i - 1);
    } else {
        assert(s.skip(0) =~= s);
    }
}

/// If no entry among the first `i` matches, the lookup is decided by the
/// rest of the sequence.
proof fn lemma_lookup_channel_skip(s: Seq<ChannelView>, id: Seq<char>, i: int)
    requires
        0 <= i <= s.len(),
        forall|j: int| 0 <= j < i ==> s[j].id() != id,
    ensures
        lookup_channel(s, id) == lookup_channel(s.skip(i), id),
    decreases i,
{
    if i > 0 {
        assert(s.drop_first().skip(i - 1) =~= s.skip(i));
        lemma_lookup_channel_skip(s.drop_first(), id, i - 1);
    } else {
        assert(s.skip(0) =~= s);
    }
}

/// If no entry among the first `i` matches, the lookup is decided by the
/// rest of the sequence.
proof fn lemma_lookup_server_skip(s: Seq<ServerView>, id: Seq<char>, i: int)
    requires
        0 <= i <= s.len(),
        forall|j: int| 0 <= j < i ==> s[j].id != id,
    ensures
        lookup_server(s, id) == lookup_server(s.skip(i), id),
    decreases i,
{
    if i > 0 {
        assert(s.drop_first().skip(i - 1) =~= s.skip(i));
        lemma_lookup_server_skip(s.drop_first(), id, i - 1);
    } else {
        assert(s.skip(0) =~= s);
    }
}

/// If no entry among the first `i` matches, the lookup is decided by the
/// rest of the sequence.
pub proof fn lemma_lookup_message_skip(s: Seq<MessageView>, id: Seq<char>, i: int)
    requires
        0 <= i <= s.len(),
        forall|j: int| 0 <= j < i ==> s[j].id != id,
    ensures
        lookup_message(s, id) == lookup_message(s.skip(i), id),
    decreases i,
{
    if i > 0 {
        assert(s.drop_first().skip(i - 1) =~= s.skip(i));
        lemma_lookup_message_skip(s.drop_first(), id, i - 1);
    } else {
        assert(s.skip(0) =~= s);
    }
}

/// Upserting over a first match at `i` is an in-place update.
proof fn lemma_upsert_user_at(s: Seq<UserView>, u: UserView, i: int)
    requires
        0 <= i < s.len(),
        s[i].id == u.id,
        forall|j: int| 0 <= j < i ==> s[j].id != u.id,
    ensures
        upsert_user(s, u) == s.update(i, u),
    decreases i,
{
    if i == 0 {
        assert(upsert_user(s, u) =~= s.update(0, u));
    } else {
        lemma_upsert_user_at(s.drop_first(), u, i - 1);
        assert(upsert_user(s, u) =~= s.update(i, u));
    }
}

/// Upserting a user whose ID is absent appends it.
proof fn lemma_upsert_user_absent(s: Seq<UserView>, u: UserView)
    requires
        forall|j: int| 0 <= j < s.len() ==> s[j].id != u.id,
    ensures
        upsert_user(s, u) == s.push(u),
    decreases s.len(),
{
    if s.len() == 0 {
        assert(upsert_user(s, u) =~= s.push(u));
    } else {
        lemma_upsert_user_absent(s.drop_first(), u);
        assert(upsert_user(s, u) =~= s.push(u));
    }
}

/// Upserting over a first match at `i` is an in-place update.
proof fn lemma_upsert_channel_at(s: Seq<ChannelView>, c: ChannelView, i: int)
    requires
        0 <= i < s.len(),
        s[i].id() == c.id(),
        forall|j: int| 0 <= j < i ==> s[j].id() != c.id(),
    ensures
        upsert_channel(s, c) == s.update(i, c),
    decreases i,
{
    if i == 0 {
        assert(upsert_channel(s, c) =~= s.update(0, c));
    } else {
        lemma_upsert_channel_at(s.drop_first(), c, i - 1);
        assert(upsert_channel(s, c) =~= s.update(i, c));
    }
}

/// Upserting a channel whose ID is absent appends it.
proof fn lemma_upsert_channel_absent(s: Seq<ChannelView>, c: ChannelView)
    requires
        forall|j: int| 0 <= j < s.len() ==> s[j].id() != c.id(),
    ensures
        upsert_channel(s, c) == s.push(c),
    decreases s.len(),
{
    if s.len() == 0 {
        assert(upsert_channel(s, c) =~= s.push(c));
    } else {
        lemma_upsert_channel_absent(s.drop_first(), c);
        assert(upsert_channel(s, c) =~= s.push(c));
    }
}

/// Upserting over a first match at `i` is an in-place update.
proof fn lemma_upsert_server_at(s: Seq<ServerView>, v: ServerView, i: int)
    requires
        0 <= i < s.len(),
        s[i].id == v.id,
        forall|j: int| 0 <= j < i ==> s[j].id != v.id,
    ensures
        upsert_server(s, v) == s.update(i, v),
    decreases i,
{
    if i == 0 {
        assert(upsert_server(s, v) =~= s.update(0, v));
    } else {
        lemma_upsert_server_at(s.drop_first(), v, i - 1);
        assert(upsert_server(s, v) =~= s.update(i, v));
    }
}

/// Upserting a server whose ID is absent appends it.
proof fn lemma_upsert_server_absent(s: Seq<ServerView>, v: ServerView)
    requires
        forall|j: int| 0 <= j < s.len() ==> s[j].id != v.id,
    ensures
        upsert_server(s, v) == s.push(v),
    decreases s.len(),
{
    if s.len() == 0 {
        assert(upsert_server(s, v) =~= s.push(v));
    } else {
        lemma_upsert_server_absent(s.drop_first(), v);
        assert(upsert_server(s, v) =~= s.push(v));
    }
}

/// Replacing over a first match at `i` is an in-place update.
proof fn lemma_replace_message_at(s: Seq<MessageView>, m: MessageView, i: int)
    requires
        0 <= i < s.len(),
        s[i].id == m.id,
        forall|j: int| 0 <= j < i ==> s[j].id != m.id,
    ensures
        replace_message(s, m) == s.update(i, m),
    decreases i,
{
    if i == 0 {
        assert(replace_message(s, m) =~= s.update(0, m));
    } else {
        lemma_replace_message_at(s.drop_first(), m, i - 1);
        assert(replace_message(s, m) =~= s.update(i, m));
    }
}

/// The user store after upserting every overlay entry, oldest staged first.
pub open spec fn merge_users(base: Seq<UserView>, ov: Seq<UserView>) -> Seq<UserView>
    decreases ov.len(),
{
    if ov.len() == 0 {
        base
    } else {
        merge_users(upsert_user(base, ov[0]), ov.drop_first())
    }
}

/// The channel store after upserting every overlay entry, oldest staged
/// first.
pub open spec fn merge_channels(base: Seq<ChannelView>, ov: Seq<ChannelView>) -> Seq<ChannelView>
    decreases ov.len(),
{
    if ov.len() == 0 {
        base
    } else {
        merge_channels(upsert_channel(base, ov[0]), ov.drop_first())
    }
}

/// The server store after upserting every overlay entry, oldest staged
/// first.
pub open spec fn merge_servers(base: Seq<ServerView>, ov: Seq<ServerView>) -> Seq<ServerView>
    decreases ov.len(),
{
    if ov.len() == 0 {
        base
    } else {
        merge_servers(upsert_server(base, ov[0]), ov.drop_first())
    }
}

/// The message store after inserting every overlay entry, oldest staged
/// first, under the store's own bound.
pub open spec fn merge_messages(base: Seq<MessageView>, max: int, ov: Seq<MessageView>) -> Seq<
    MessageView,
>
    decreases ov.len(),
{
    if ov.len() == 0 {
        base
    } else {
        merge_messages(stored_messages(base, max, ov[0]), max, ov.drop_first())
    }
}

impl CacheView {
    /// This cache after an overlay is merged into it: every overlay entry
    /// upserted (insert if absent, overwrite if present), with messages
    /// still subject to this cache's bound.
    pub open spec fn merged(self, overlay: CacheView) -> CacheView {
        CacheView {
            users: merge_users(self.users, overlay.users),
            channels: merge_channels(self.channels, overlay.channels),
            servers: merge_servers(self.servers, overlay.servers),
            messages: merge_messages(self.messages, self.max_messages, overlay.messages),
            max_messages: self.max_messages,
        }
    }
}

/// Merging one more staged user is one more upsert.
proof fn lemma_merge_users_snoc(b: Seq<UserView>, s: Seq<UserView>, x: UserView)
    ensures
        merge_users(b, s.push(x)) == upsert_user(merge_users(b, s), x),
    decreases s.len(),
{
    reveal_with_fuel(merge_users, 2);
    if s.len() == 0 {
        assert(s.push(x)[0] == x);
        assert(s.push(x).drop_first() =~= s);
    } else {
        assert(s.push(x)[0] == s[0]);
        assert(s.push(x).drop_first() =~= s.drop_first().push(x));
        lemma_merge_users_snoc(upsert_user(b, s[0]), s.drop_first(), x);
    }
}

/// Merging one more staged channel is one more upsert.
proof fn lemma_merge_channels_snoc(b: Seq<ChannelView>, s: Seq<ChannelView>, x: ChannelView)
    ensures
        merge_channels(b, s.push(x)) == upsert_channel(merge_channels(b, s), x),
    decreases s.len(),
{
    reveal_with_fuel(merge_channels, 2);
    if s.len() == 0 {
        assert(s.push(x)[0] == x);
        assert(s.push(x).drop_first() =~= s);
    } else {
        assert(s.push(x)[0] == s[0]);
        assert(s.push(x).drop_first() =~= s.drop_first().push(x));
        lemma_merge_channels_snoc(upsert_channel(b, s[0]), s.drop_first(), x);
    }
}

/// Merging one more staged server is one more upsert.
proof fn lemma_merge_servers_snoc(b: Seq<ServerView>, s: Seq<ServerView>, x: ServerView)
    ensures
        merge_servers(b, s.push(x)) == upsert_server(merge_servers(b, s), x),
    decreases s.len(),
{
    reveal_with_fuel(merge_servers, 2);
    if s.len() == 0 {
        assert(s.push(x)[0] == x);
        assert(s.push(x).drop_first() =~= s);
    } else {
        assert(s.push(x)[0] == s[0]);
        assert(s.push(x).drop_first() =~= s.drop_first().push(x));
        lemma_merge_servers_snoc(upsert_server(b, s[0]), s.drop_first(), x);
    }
}

/// Merging one more staged message is one more bounded insert.
proof fn lemma_merge_messages_snoc(b: Seq<MessageView>, max: int, s: Seq<MessageView>, x: MessageView)
    ensures
        merge_messages(b, max, s.push(x)) == stored_messages(merge_messages(b, max, s), max, x),
    decreases s.len(),
{
    reveal_with_fuel(merge_messages, 2);
    if s.len() == 0 {
        assert(s.push(x)[0] == x);
        assert(s.push(x).drop_first() =~= s);
    } else {
        assert(s.push(x)[0] == s[0]);
        assert(s.push(x).drop_first() =~= s.drop_first().push(x));
        lemma_merge_messages_snoc(stored_messages(b, max, s[0]), max, s.drop_first(), x);
    }
}

impl Cache {
    /// Merge an overlay into this cache: for each entity kind, every
    /// overlay entry is upserted (insert if absent, overwrite if present),
    /// oldest staged first; merged messages respect this cache's bound.
    ///
    /// This runs only after an event's handler has returned normally, so a
    /// handler that fails mid-way stages nothing: the merge is
    /// all-or-nothing with respect to the shared cache.
    pub fn merge_overlay(&mut self, overlay: Cache)
        ensures
            final(self)@ == old(self)@.merged(overlay@),
    {
        let ghost ov = overlay@;
        let mut i: usize = 0;
        while i < overlay.users.len()
            invariant
                0 <= i <= overlay.users.len(),
                ov == overlay@,
                self@.users == merge_users(old(self)@.users, ov.users.take(i as int)),
                self@.channels == old(self)@.channels,
                self@.servers == old(self)@.servers,
                self@.messages == old(self)@.messages,
                self@.max_messages == old(self)@.max_messages,
            decreases overlay.users.len() - i,
        {
            let u = overlay.users[i].clone();
            proof {
                lemma_merge_users_snoc(old(self)@.users, ov.users.take(i as int), ov.users[i as int]);
                assert(ov.users.take(i + 1) =~= ov.users.take(i as int).push(ov.users[i as int]));
            }
            self.put_user(u);
            i += 1;
        }
        proof {
            assert(ov.users.take(overlay.users.len() as int) =~= ov.users);
        }
        let mut i: usize = 0;
        while i < overlay.channels.len()
            invariant
                0 <= i <= overlay.channels.len(),
                ov == overlay@,
                self@.users == merge_users(old(self)@.users, ov.users),
                self@.channels == merge_channels(old(self)@.channels, ov.channels.take(i as int)),
                self@.servers == old(self)@.servers,
                self@.messages == old(self)@.messages,
                self@.max_messages == old(self)@.max_messages,
            decreases overlay.channels.len() - i,
        {
            let c = overlay.channels[i].clone();
            proof {
                lemma_merge_channels_snoc(
                    old(self)@.channels,
                    ov.channels.take(i as int),
                    ov.channels[i as int],
                );
                assert(ov.channels.take(i + 1) =~= ov.channels.take(i as int).push(
                    ov.channels[i as int],
                ));
            }
            self.put_channel(c);
            i += 1;
        }
        proof {
            assert(ov.channels.take(overlay.channels.len() as int) =~= ov.channels);
        }
        let mut i: usize = 0;
        while i < overlay.servers.len()
            invariant
                0 <= i <= overlay.servers.len(),
                ov == overlay@,
                self@.users == merge_users(old(self)@.users, ov.users),
                self@.channels == merge_channels(old(self)@.channels, ov.channels),
                self@.servers == merge_servers(old(self)@.servers, ov.servers.take(i as int)),
                self@.messages == old(self)@.messages,
                self@.max_messages == old(self)@.max_messages,
            decreases overlay.servers.len() - i,
        {
            let v = overlay.servers[i].clone();
            proof {
                lemma_merge_servers_snoc(
                    old(self)@.servers,
                    ov.servers.take(i as int),
                    ov.servers[i as int],
                );
                assert(ov.servers.take(i + 1) =~= ov.servers.take(i as int).push(
                    ov.servers[i as int],
                ));
            }
            self.put_server(v);
            i += 1;
        }
        proof {
            assert(ov.servers.take(overlay.servers.len() as int) =~= ov.servers);
        }
        let mut i: usize = 0;
        while i < overlay.messages.len()
            invariant
                0 <= i <= overlay.messages.len(),
                ov == overlay@,
                self@.users == merge_users(old(self)@.users, ov.users),
                self@.channels == merge_channels(old(self)@.channels, ov.channels),
                self@.servers == merge_servers(old(self)@.servers, ov.servers),
                self@.messages == merge_messages(
                    old(self)@.messages,
                    old(self)@.max_messages,
                    ov.messages.take(i as int),
                ),
                self@.max_messages == old(self)@.max_messages,
            decreases overlay.messages.len() - i,
        {
            let m = overlay.messages[i].clone();
            proof {
                lemma_merge_messages_snoc(
                    old(self)@.messages,
                    old(self)@.max_messages,
                    ov.messages.take(i as int),
                    ov.messages[i as int],
                );
                assert(ov.messages.take(i + 1) =~= ov.messages.take(i as int).push(
                    ov.messages[i as int],
                ));
            }
            self.add_message(m);
            i += 1;
        }
        proof {
            assert(ov.messages.take(overlay.messages.len() as int) =~= ov.messages);
        }
    }
}

/// Law: an event whose overlay is empty produced no cache writes, so
/// merging it leaves the cache exactly as it was; skipping the merge for
/// an empty overlay is sound.
pub proof fn lemma_merge_empty_overlay(c: CacheView, ov: CacheView)
    requires
        ov.is_empty(),
    ensures
        c.merged(ov) == c,
{
}

/// Looking up the ID just upserted finds the upserted value.
pub proof fn lemma_lookup_after_upsert_user(s: Seq<UserView>, u: UserView)
    ensures
        lookup_user(upsert_user(s, u), u.id) == Some(u),
    decreases s.len(),
{
    if s.len() > 0 && s[0].id != u.id {
        lemma_lookup_after_upsert_user(s.drop_first(), u);
        assert((seq![s[0]] + upsert_user(s.drop_first(), u)).drop_first() =~= upsert_user(
            s.drop_first(),
            u,
        ));
    } else if s.len() > 0 {
        assert((seq![u] + s.drop_first())[0] == u);
    }
}

/// Upserting one user leaves every other ID's lookup unchanged.
pub proof fn lemma_upsert_user_preserves_other(s: Seq<UserView>, u: UserView, id: Seq<char>)
    requires
        id != u.id,
    ensures
        lookup_user(upsert_user(s, u), id) == lookup_user(s, id),
    decreases s.len(),
{
    reveal_with_fuel(lookup_user, 2);
    if s.len() == 0 {
        assert(upsert_user(s, u) =~= seq![u]);
        assert(seq![u][0] == u);
        assert(seq![u].drop_first() =~= Seq::<UserView>::empty());
    } else {
        if s[0].id == u.id {
            assert((seq![u] + s.drop_first())[0] == u);
            assert((seq![u] + s.drop_first()).drop_first() =~= s.drop_first());
        } else {
            lemma_upsert_user_preserves_other(s.drop_first(), u, id);
            assert((seq![s[0]] + upsert_user(s.drop_first(), u))[0] == s[0]);
            assert((seq![s[0]] + upsert_user(s.drop_first(), u)).drop_first() =~= upsert_user(
                s.drop_first(),
                u,
            ));
        }
    }
}

/// Merging users that all carry other IDs leaves a lookup unchanged.
proof fn lemma_merge_users_preserves_other(base: Seq<UserView>, ov: Seq<UserView>, id: Seq<char>)
    requires
        forall|j: int| 0 <= j < ov.len() ==> ov[j].id != id,
    ensures
        lookup_user(merge_users(base, ov), id) == lookup_user(base, id),
    decreases ov.len(),
{
    if ov.len() > 0 {
        lemma_upsert_user_preserves_other(base, ov[0], id);
        lemma_merge_users_preserves_other(upsert_user(base, ov[0]), ov.drop_first(), id);
    }
}

/// Law (merge atomicity): once an overlay is merged, every user it staged
/// is present in the cache with its staged value; the merge never lands a
/// strict subset of the overlay. Staging happens only while an event's
/// handler runs to completion, so a dispatch that fails before the merge
/// stages nothing at all.
pub proof fn lemma_merge_users_all_present(base: Seq<UserView>, ov: Seq<UserView>)
    requires
        forall|i: int, j: int| 0 <= i < j < ov.len() ==> ov[i].id != ov[j].id,
    ensures
        forall|i: int|
            0 <= i < ov.len() ==> lookup_user(merge_users(base, ov), ov[i].id) == Some(ov[i]),
    decreases ov.len(),
{
    if ov.len() > 0 {
        let base1 = upsert_user(base, ov[0]);
        lemma_merge_users_all_present(base1, ov.drop_first());
        lemma_lookup_after_upsert_user(base, ov[0]);
        assert(forall|j: int| 0 <= j < ov.drop_first().len() ==> ov.drop_first()[j] == ov[j + 1]);
        lemma_merge_users_preserves_other(base1, ov.drop_first(), ov[0].id);
        assert forall|i: int|
            0 <= i < ov.len() implies lookup_user(merge_users(base, ov), ov[i].id) == Some(
            ov[i],
        ) by {
            if i > 0 {
                assert(ov.drop_first()[i - 1] == ov[i]);
            }
        }
    }
}

/// Looking up the ID just upserted finds the upserted value.
pub proof fn lemma_lookup_after_upsert_server(s: Seq<ServerView>, v: ServerView)
    ensures
        lookup_server(upsert_server(s, v), v.id) == Some(v),
    decreases s.len(),
{
    if s.len() > 0 && s[0].id != v.id {
        lemma_lookup_after_upsert_server(s.drop_first(), v);
        assert((seq![s[0]] + upsert_server(s.drop_first(), v)).drop_first() =~= upsert_server(
            s.drop_first(),
            v,
        ));
    } else if s.len() > 0 {
        assert((seq![v] + s.drop_first())[0] == v);
    }
}

/// Upserting one server leaves every other ID's lookup unchanged.
pub proof fn lemma_upsert_server_preserves_other(s: Seq<ServerView>, v: ServerView, id: Seq<char>)
    requires
        id != v.id,
    ensures
        lookup_server(upsert_server(s, v), id) == lookup_server(s, id),
    decreases s.len(),
{
    reveal_with_fuel(lookup_server, 2);
    if s.len() == 0 {
        assert(upsert_server(s, v) =~= seq![v]);
        assert(seq![v][0] == v);
        assert(seq![v].drop_first() =~= Seq::<ServerView>::empty());
    } else {
        if s[0].id == v.id {
            assert((seq![v] + s.drop_first())[0] == v);
            assert((seq![v] + s.drop_first()).drop_first() =~= s.drop_first());
        } else {
            lemma_upsert_server_preserves_other(s.drop_first(), v, id);
            assert((seq![s[0]] + upsert_server(s.drop_first(), v))[0] == s[0]);
            assert((seq![s[0]] + upsert_server(s.drop_first(), v)).drop_first() =~= upsert_server(
                s.drop_first(),
                v,
            ));
        }
    }
}

/// Merging servers that all carry other IDs leaves a lookup unchanged.
proof fn lemma_merge_servers_preserves_other(
    base: Seq<ServerView>,
    ov: Seq<ServerView>,
    id: Seq<char>,
)
    requires
        forall|j: int| 0 <= j < ov.len() ==> ov[j].id != id,
    ensures
        lookup_server(merge_servers(base, ov), id) == lookup_server(base, id),
    decreases ov.len(),
{
    if ov.len() > 0 {
        lemma_upsert_server_preserves_other(base, ov[0], id);
        lemma_merge_servers_preserves_other(upsert_server(base, ov[0]), ov.drop_first(), id);
    }
}

/// Law (merge atomicity): once an overlay is merged, every server it
/// staged is present in the cache with its staged value.
pub proof fn lemma_merge_servers_all_present(base: Seq<ServerView>, ov: Seq<ServerView>)
    requires
        forall|i: int, j: int| 0 <= i < j < ov.len() ==> ov[i].id != ov[j].id,
    ensures
        forall|i: int|
            0 <= i < ov.len() ==> lookup_server(merge_servers(base, ov), ov[i].id) == Some(ov[i]),
    decreases ov.len(),
{
    if ov.len() > 0 {
        let base1 = upsert_server(base, ov[0]);
        lemma_merge_servers_all_present(base1, ov.drop_first());
        lemma_lookup_after_upsert_server(base, ov[0]);
        assert(forall|j: int| 0 <= j < ov.drop_first().len() ==> ov.drop_first()[j] == ov[j + 1]);
        lemma_merge_servers_preserves_other(base1, ov.drop_first(), ov[0].id);
        assert forall|i: int|
            0 <= i < ov.len() implies lookup_server(merge_servers(base, ov), ov[i].id) == Some(
            ov[i],
        ) by {
            if i > 0 {
                assert(ov.drop_first()[i - 1] == ov[i]);
            }
        }
    }
}

/// Looking up the ID of a message just inserted finds the inserted value,
/// whichever branch the bounded insert took.
pub proof fn lemma_lookup_after_stored_message(s: Seq<MessageView>, max: int, m: MessageView)
    ensures
        lookup_message(stored_messages(s, max, m), m.id) == Some(m),
{
    if lookup_message(s, m.id) is Some {
        lemma_lookup_after_replace_message(s, m);
    } else {
        lemma_lookup_message_none_iff(s, m.id);
        if s.len() >= max && s.len() > 0 {
            assert(forall|j: int|
                0 <= j < s.drop_first().len() ==> s.drop_first()[j] == s[j + 1]);
            lemma_lookup_push_absent_message(s.drop_first(), m);
        } else {
            lemma_lookup_push_absent_message(s, m);
        }
    }
}

/// Replacing a present message leaves it findable under its ID.
proof fn lemma_lookup_after_replace_message(s: Seq<MessageView>, m: MessageView)
    requires
        lookup_message(s, m.id) is Some,
    ensures
        lookup_message(replace_message(s, m), m.id) == Some(m),
    decreases s.len(),
{
    if s.len() > 0 {
        if s[0].id == m.id {
            assert((seq![m] + s.drop_first())[0] == m);
        } else {
            lemma_lookup_after_replace_message(s.drop_first(), m);
            assert((seq![s[0]] + replace_message(s.drop_first(), m))[0] == s[0]);
            assert((seq![s[0]] + replace_message(s.drop_first(), m)).drop_first()
                =~= replace_message(s.drop_first(), m));
        }
    }
}

/// Appending a message whose ID is absent leaves it findable.
proof fn lemma_lookup_push_absent_message(s: Seq<MessageView>, m: MessageView)
    requires
        forall|j: int| 0 <= j < s.len() ==> s[j].id != m.id,
    ensures
        lookup_message(s.push(m), m.id) == Some(m),
    decreases s.len(),
{
    if s.len() == 0 {
        assert(s.push(m)[0] == m);
    } else {
        assert(s.push(m)[0] == s[0]);
        assert(s.push(m).drop_first() =~= s.drop_first().push(m));
        assert(forall|j: int| 0 <= j < s.drop_first().len() ==> s.drop_first()[j] == s[j + 1]);
        lemma_lookup_push_absent_message(s.drop_first(), m);
    }
}

/// Law (cache bound, FIFO): filling an empty store whose bound is `max`
/// with a longer run of distinct-ID messages retains exactly the `max`
/// most-recently-inserted messages, in insertion order; all earlier ones
/// are evicted.
pub proof fn lemma_message_bound_fifo(items: Seq<MessageView>, max: int)
    requires
        0 < max < items.len(),
        forall|i: int, j: int| 0 <= i < j < items.len() ==> items[i].id != items[j].id,
    ensures
        merge_messages(Seq::empty(), max, items) == items.skip(items.len() - max),
{
    lemma_fill_window(items, max, items.len() as int);
    assert(items.take(items.len() as int) =~= items);
}

/// After `k` inserts of distinct messages into an initially empty store,
/// the store is the window of the last `max` (or all `k`) of them.
proof fn lemma_fill_window(items: Seq<MessageView>, max: int, k: int)
    requires
        0 < max,
        0 <= k <= items.len(),
        forall|i: int, j: int| 0 <= i < j < items.len() ==> items[i].id != items[j].id,
    ensures
        merge_messages(Seq::empty(), max, items.take(k)) == items.take(k).skip(
            if k > max {
                k - max
            } else {
                0
            },
        ),
    decreases k,
{
    let start = if k > max {
        k - max
    } else {
        0
    };
    if k == 0 {
        assert(items.take(0) =~= Seq::<MessageView>::empty());
        assert(items.take(0).skip(0) =~= Seq::<MessageView>::empty());
    } else {
        let prev_start = if k - 1 > max {
            k - 1 - max
        } else {
            0
        };
        lemma_fill_window(items, max, k - 1);
        let w = items.take(k - 1).skip(prev_start);
        let x = items[k - 1];
        lemma_merge_messages_snoc(Seq::empty(), max, items.take(k - 1), x);
        assert(items.take(k) =~= items.take(k - 1).push(x));
        assert(forall|j: int| 0 <= j < w.len() ==> w[j] == items[prev_start + j]);
        lemma_lookup_message_none_iff(w, x.id);
        assert(lookup_message(w, x.id) is None);
        if w.len() >= max {
            assert(w.drop_first().push(x) =~= items.take(k).skip(start));
        } else {
            assert(w.push(x) =~= items.take(k).skip(start));
        }
    }
}

/// A lookup misses exactly when no stored entity carries the ID.
pub proof fn lemma_lookup_message_none_iff(s: Seq<MessageView>, id: Seq<char>)
    ensures
        (lookup_message(s, id) is None) <==> (forall|j: int| 0 <= j < s.len() ==> s[j].id != id),
    decreases s.len(),
{
    if s.len() > 0 {
        lemma_lookup_message_none_iff(s.drop_first(), id);
        assert(forall|j: int|
            0 <= j < s.drop_first().len() ==> s.drop_first()[j] == s[j + 1]);
        if lookup_message(s, id) is None {
            assert forall|j: int| 0 <= j < s.len() implies s[j].id != id by {
                if j > 0 {
                    assert(s.drop_first()[j - 1] == s[j]);
                }
            }
        }
    }
}

} // verus!
