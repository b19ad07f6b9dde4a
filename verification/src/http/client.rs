//! The REST session's configuration and routes.
//!
//! The library decides which endpoint each fetch hits and which headers a
//! session carries; performing the request, and parsing the response (the
//! service's error envelope first, the expected payload second), is the
//! transport's job and stays outside the library.

use vstd::prelude::*;

use crate::models::error::RevoltError;

verus! {

/// The default API root of the remote service.
pub const REVOLT_API_URL: &'static str = "https://api.revolt.chat";

/// Whether a session authenticates as a bot or as a user account; the two
/// send their token under different headers.
#[derive(Debug, Clone, Copy, PartialEq, Eq, Structural)]
pub enum ClientSessionType {
    Bot,
    User,
}

/// An error from the REST layer: either the request itself failed (or its
/// body could not be read as the expected payload), or the service answered
/// with its error envelope.
#[derive(Debug, Clone, PartialEq)]
pub enum HttpError {
    RequestUnsuccessful(String),
    RevoltError(RevoltError),
}

/// A ready-to-use REST session: where to send requests and under which
/// header to present the token.
#[derive(Debug, Clone, PartialEq)]
pub struct HttpClient {
    pub api_url: String,
    pub token: String,
    pub session_header: String,
}

impl HttpClient {
    /// Start assembling a REST session.
    pub fn builder() -> (r: crate::http::builder::HttpClientBuilder)
        ensures
            r.token is None,
            r.client_type is Bot,
    {
        crate::http::builder::HttpClientBuilder::new()
    }

    /// The absolute URL for a path under this session's API root.
    pub fn as_url(&self, path: &str) -> (r: String)
        ensures
            r@ == self.api_url@ + path@,
    {
        let base = self.api_url.clone();
        base.concat(path)
    }
}

/// The route that identifies the current account.
pub fn self_route() -> (r: String)
    ensures
        r@ == "/users/@me"@,
{
    String::from_str("/users/@me")
}

/// The route for one user.
pub fn user_route(user_id: &str) -> (r: String)
    ensures
        r@ == "/users/"@ + user_id@,
{
    String::from_str("/users/").concat(user_id)
}

/// The route for one server.
pub fn server_route(server_id: &str) -> (r: String)
    ensures
        r@ == "/servers/"@ + server_id@,
{
    String::from_str("/servers/").concat(server_id)
}

/// The route for one channel.
pub fn channel_route(channel_id: &str) -> (r: String)
    ensures
        r@ == "/channels/"@ + channel_id@,
{
    String::from_str("/channels/").concat(channel_id)
}

/// The route for one message of a channel.
pub fn message_route(channel_id: &str, message_id: &str) -> (r: String)
    ensures
        r@ == "/channels/"@ + channel_id@ + "/messages/"@ + message_id@,
{
    String::from_str("/channels/").concat(channel_id).concat("/messages/").concat(message_id)
}

/// The route messages of a channel are posted to.
pub fn send_message_route(channel_id: &str) -> (r: String)
    ensures
        r@ == "/channels/"@ + channel_id@ + "/messages"@,
{
    String::from_str("/channels/").concat(channel_id).concat("/messages")
}

/// The discovery route at the API root.
pub fn node_route() -> (r: String)
    ensures
        r@ == "/"@,
{
    String::from_str("/")
}

} // verus!
