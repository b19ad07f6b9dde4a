//! The per-event Context: the session cache, the entities the triggering
//! event concerns, and the private overlay this event's writes are staged
//! in.
//!
//! Entity resolution is fetch-through: the session cache is consulted
//! first; on a hit the cached record is used and nothing is written back;
//! on a miss the caller performs the network fetch and admits the result,
//! which writes it into both the session cache and the overlay, so later
//! lookups of the same ID — within this event and across events — hit the
//! cache and no second fetch is issued.

use vstd::prelude::*;

use crate::cache::Cache;
use crate::cache::lookup_channel;
use crate::cache::lookup_message;
use crate::cache::lookup_server;
use crate::cache::lookup_user;
use crate::cache::stored_messages;
use crate::cache::upsert_channel;
use crate::cache::upsert_server;
use crate::cache::upsert_user;
use crate::models::channel::Channel;
use crate::models::channel::ChannelView;
use crate::models::message::Message;
use crate::models::server::Server;
use crate::models::user::User;

verus! {

/// The outcome of a cache-first entity resolution: the cached record, or
/// the obligation to fetch it from the network and admit the result.
#[derive(Debug, PartialEq)]
pub enum Resolve<T> {
    Hit(T),
    Fetch,
}

/// How far resolving an event's referenced entities has come: everything
/// resolved, or one entity that must be fetched by ID before resolution
/// can resume.
#[derive(Debug, PartialEq)]
pub enum ResolveOutcome {
    Ready,
    NeedChannel(String),
    NeedServer(String),
}

/// A single-event-scoped value pairing the ambient user, the entities the
/// triggering event concerns, the session cache, and the private overlay
/// cache this event's writes are staged in.
pub struct Context {
    /// The current account's user record.
    pub user: User,
    /// The server the triggering event concerns, once resolved.
    pub server: Option<Server>,
    /// The channel the triggering event concerns, once resolved.
    pub channel: Option<Channel>,
    /// The message the triggering event concerns, if cached.
    pub message: Option<Message>,
    /// The session cache, moved in for the duration of the event.
    pub cache: Cache,
    /// The overlay: every entity fetched through or staged during this
    /// event's handling, merged into the session cache after the handler
    /// returns and discarded.
    pub updated_cache: Cache,
}

impl Context {
    /// A fresh context for one event: the session cache moved in, an empty
    /// overlay of the same bound, no entities resolved.
    pub fn new(user: User, cache: Cache) -> (r: Context)
        ensures
            r.user == user,
            r.server is None,
            r.channel is None,
            r.message is None,
            r.cache == cache,
            r.updated_cache@.is_empty(),
            r.updated_cache@.max_messages == cache@.max_messages,
    {
        let max = cache.max_messages;
        Context {
            user,
            server: None,
            channel: None,
            message: None,
            cache,
            updated_cache: Cache::new(max),
        }
    }

    /// Fetch-through resolution of a user: the cached record on a hit, or
    /// the obligation to fetch `user_id` and admit the result.
    pub fn user(&self, user_id: &str) -> (r: Resolve<User>)
        ensures
            match r {
                Resolve::Hit(u) => lookup_user(self.cache@.users, user_id@) == Some(u@),
                Resolve::Fetch => lookup_user(self.cache@.users, user_id@) is None,
            },
    {
        match self.cache.get_user(user_id) {
            Some(u) => Resolve::Hit(u),
            None => Resolve::Fetch,
        }
    }

    /// Admit a fetched user: write it into both the session cache and the
    /// overlay, so the fetch is visible to later lookups within this event
    /// and across events.
    pub fn admit_user(&mut self, user: User)
        ensures
            final(self).cache@.users == upsert_user(old(self).cache@.users, user@),
            final(self).updated_cache@.users == upsert_user(
                old(self).updated_cache@.users,
                user@,
            ),
            final(self).cache@.channels == old(self).cache@.channels,
            final(self).cache@.servers == old(self).cache@.servers,
            final(self).cache@.messages == old(self).cache@.messages,
            final(self).cache@.max_messages == old(self).cache@.max_messages,
            final(self).updated_cache@.channels == old(self).updated_cache@.channels,
            final(self).updated_cache@.servers == old(self).updated_cache@.servers,
            final(self).updated_cache@.messages == old(self).updated_cache@.messages,
            final(self).updated_cache@.max_messages == old(self).updated_cache@.max_messages,
            final(self).user == old(self).user,
            final(self).server == old(self).server,
            final(self).channel == old(self).channel,
            final(self).message == old(self).message,
    {
        let copy = user.clone();
        self.updated_cache.put_user(copy);
        self.cache.put_user(user);
    }

    /// Fetch-through resolution of a channel: the cached record on a hit,
    /// or the obligation to fetch `channel_id` and admit the result.
    pub fn channel(&self, channel_id: &str) -> (r: Resolve<Channel>)
        ensures
            match r {
                Resolve::Hit(c) => lookup_channel(self.cache@.channels, channel_id@) == Some(c@),
                Resolve::Fetch => lookup_channel(self.cache@.channels, channel_id@) is None,
            },
    {
        match self.cache.get_channel(channel_id) {
            Some(c) => Resolve::Hit(c),
            None => Resolve::Fetch,
        }
    }

    /// Admit a fetched channel: write it into both the session cache and
    /// the overlay.
    pub fn admit_channel(&mut self, channel: Channel)
        ensures
            final(self).cache@.channels == upsert_channel(
                old(self).cache@.channels,
                channel@,
            ),
            final(self).updated_cache@.channels == upsert_channel(
                old(self).updated_cache@.channels,
                channel@,
            ),
            final(self).cache@.users == old(self).cache@.users,
            final(self).cache@.servers == old(self).cache@.servers,
            final(self).cache@.messages == old(self).cache@.messages,
            final(self).cache@.max_messages == old(self).cache@.max_messages,
            final(self).updated_cache@.users == old(self).updated_cache@.users,
            final(self).updated_cache@.servers == old(self).updated_cache@.servers,
            final(self).updated_cache@.messages == old(self).updated_cache@.messages,
            final(self).updated_cache@.max_messages == old(self).updated_cache@.max_messages,
            final(self).user == old(self).user,
            final(self).server == old(self).server,
            final(self).channel == old(self).channel,
            final(self).message == old(self).message,
    {
        let copy = channel.clone();
        self.updated_cache.put_channel(copy);
        self.cache.put_channel(channel);
    }

    /// Fetch-through resolution of a server: the cached record on a hit,
    /// or the obligation to fetch `server_id` and admit the result.
    pub fn server(&self, server_id: &str) -> (r: Resolve<Server>)
        ensures
            match r {
                Resolve::Hit(v) => lookup_server(self.cache@.servers, server_id@) == Some(v@),
                Resolve::Fetch => lookup_server(self.cache@.servers, server_id@) is None,
            },
    {
        match self.cache.get_server(server_id) {
            Some(v) => Resolve::Hit(v),
            None => Resolve::Fetch,
        }
    }

    /// Admit a fetched server: write it into both the session cache and
    /// the overlay.
    pub fn admit_server(&mut self, server: Server)
        ensures
            final(self).cache@.servers == upsert_server(old(self).cache@.servers, server@),
            final(self).updated_cache@.servers == upsert_server(
                old(self).updated_cache@.servers,
                server@,
            ),
            final(self).cache@.users == old(self).cache@.users,
            final(self).cache@.channels == old(self).cache@.channels,
            final(self).cache@.messages == old(self).cache@.messages,
            final(self).cache@.max_messages == old(self).cache@.max_messages,
            final(self).updated_cache@.users == old(self).updated_cache@.users,
            final(self).updated_cache@.channels == old(self).updated_cache@.channels,
            final(self).updated_cache@.messages == old(self).updated_cache@.messages,
            final(self).updated_cache@.max_messages == old(self).updated_cache@.max_messages,
            final(self).user == old(self).user,
            final(self).server == old(self).server,
            final(self).channel == old(self).channel,
            final(self).message == old(self).message,
    {
        let copy = server.clone();
        self.updated_cache.put_server(copy);
        self.cache.put_server(server);
    }

    /// Look up a message by ID. Messages consult the cache only — no
    /// network fetch-through — and are simply absent on a miss; the
    /// channel ID names the route a caller would fetch the message from.
    pub fn message(&self, channel_id: &str, message_id: &str) -> (r: Option<Message>)
        ensures
            match r {
                Some(m) => lookup_message(self.cache@.messages, message_id@) == Some(m@),
                None => lookup_message(self.cache@.messages, message_id@) is None,
            },
    {
        let _ = channel_id;
        self.cache.get_message(message_id)
    }

    /// Admit a fetched message: insert it into both the session cache and
    /// the overlay, each under its own bound.
    pub fn admit_message(&mut self, msg: Message)
        ensures
            final(self).cache@.messages == stored_messages(
                old(self).cache@.messages,
                old(self).cache@.max_messages,
                msg@,
            ),
            final(self).updated_cache@.messages == stored_messages(
                old(self).updated_cache@.messages,
                old(self).updated_cache@.max_messages,
                msg@,
            ),
            final(self).cache@.users == old(self).cache@.users,
            final(self).cache@.channels == old(self).cache@.channels,
            final(self).cache@.servers == old(self).cache@.servers,
            final(self).cache@.max_messages == old(self).cache@.max_messages,
            final(self).updated_cache@.users == old(self).updated_cache@.users,
            final(self).updated_cache@.channels == old(self).updated_cache@.channels,
            final(self).updated_cache@.servers == old(self).updated_cache@.servers,
            final(self).updated_cache@.max_messages == old(self).updated_cache@.max_messages,
            final(self).user == old(self).user,
            final(self).server == old(self).server,
            final(self).channel == old(self).channel,
            final(self).message == old(self).message,
    {
        let copy = msg.clone();
        self.updated_cache.add_message(copy);
        self.cache.add_message(msg);
    }

    /// Resolve the entities a message-bearing event references, in the
    /// required order: the channel first (fetch-through), then — when the
    /// channel is a server text channel — its server (fetch-through, since
    /// server resolution depends on the channel's server-ID field), then
    /// the message (cache only).
    ///
    /// The resolution is resumable: when it reports an entity to fetch,
    /// the caller fetches it, admits it, and calls again; the admitted
    /// entity is then a cache hit.
    pub fn set_context_data(&mut self, channel_id: &str, message_id: Option<&str>) -> (r:
        ResolveOutcome)
        ensures
            match r {
                ResolveOutcome::NeedChannel(cid) => {
                    &&& cid@ == channel_id@
                    &&& lookup_channel(old(self).cache@.channels, channel_id@) is None
                    &&& *final(self) == *old(self)
                },
                ResolveOutcome::NeedServer(sid) => {
                    &&& (match lookup_channel(old(self).cache@.channels, channel_id@) {
                        Some(cv) => match cv {
                            ChannelView::TextChannel(tv) => {
                                &&& sid@ == tv.server_id
                                &&& lookup_server(old(self).cache@.servers, tv.server_id) is None
                                &&& (final(self).channel matches Some(c) && c@ == cv)
                            },
                            _ => false,
                        },
                        None => false,
                    })
                    &&& final(self).cache == old(self).cache
                    &&& final(self).updated_cache == old(self).updated_cache
                    &&& final(self).user == old(self).user
                    &&& final(self).server == old(self).server
                    &&& final(self).message == old(self).message
                },
                ResolveOutcome::Ready => {
                    &&& (match lookup_channel(old(self).cache@.channels, channel_id@) {
                        Some(cv) => {
                            &&& (final(self).channel matches Some(c) && c@ == cv)
                            &&& (match cv {
                                ChannelView::TextChannel(tv) => final(self).server matches Some(v)
                                    && Some(v@) == lookup_server(
                                    old(self).cache@.servers,
                                    tv.server_id,
                                ),
                                _ => final(self).server == old(self).server,
                            })
                        },
                        None => false,
                    })
                    &&& (match message_id {
                        Some(mid) => (match final(self).message {
                            Some(m) => lookup_message(old(self).cache@.messages, mid@) == Some(
                                m@,
                            ),
                            None => lookup_message(old(self).cache@.messages, mid@) is None,
                        }),
                        None => final(self).message == old(self).message,
                    })
                    &&& final(self).cache == old(self).cache
                    &&& final(self).updated_cache == old(self).updated_cache
                    &&& final(self).user == old(self).user
                },
            },
    {
        let channel = match self.cache.get_channel(channel_id) {
            Some(c) => c,
            None => {
                return ResolveOutcome::NeedChannel(channel_id.to_owned());
            },
        };
        if let Some(text) = channel.get_text_channel() {
            let server_id = text.get_server_id();
            let server = match self.cache.get_server(server_id.as_str()) {
                Some(v) => v,
                None => {
                    self.channel = Some(channel);
                    return ResolveOutcome::NeedServer(server_id);
                },
            };
            self.channel = Some(channel);
            self.server = Some(server);
        } else {
            self.channel = Some(channel);
        }
        if let Some(mid) = message_id {
            self.message = self.cache.get_message(mid);
        }
        ResolveOutcome::Ready
    }
}

/// Law (fetch-through, no duplicate fetch): once a fetched channel has
/// been admitted, looking its ID up again hits the cache, so resolving the
/// same channel ID twice within one event issues at most one fetch.
pub proof fn lemma_admitted_channel_is_hit(s: Seq<ChannelView>, c: ChannelView)
    ensures
        lookup_channel(upsert_channel(s, c), c.id()) == Some(c),
    decreases s.len(),
{
    if s.len() > 0 && s[0].id() != c.id() {
        lemma_admitted_channel_is_hit(s.drop_first(), c);
        assert((seq![s[0]] + upsert_channel(s.drop_first(), c)).drop_first() =~= upsert_channel(
            s.drop_first(),
            c,
        ));
    } else if s.len() > 0 {
        assert((seq![c] + s.drop_first())[0] == c);
    }
}

} // verus!
