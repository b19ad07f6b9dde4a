//! Assembling a REST session from configuration.

use vstd::prelude::*;

use crate::http::client::ClientSessionType;
use crate::http::client::HttpClient;
use crate::http::client::REVOLT_API_URL;

verus! {

/// Why a REST session could not be assembled.
#[derive(Debug, Clone, Copy, PartialEq, Eq, Structural)]
pub enum HttpClientBuilderError {
    MissingToken,
}

/// Collects the configuration of a REST session: token, API root and
/// session type.
#[derive(Debug, Clone, PartialEq)]
pub struct HttpClientBuilder {
    pub token: Option<String>,
    pub api_url: String,
    pub client_type: ClientSessionType,
}

impl HttpClientBuilder {
    /// A builder with the default API root, no token and a bot session.
    pub fn new() -> (r: HttpClientBuilder)
        ensures
            r.token is None,
            r.api_url@ == REVOLT_API_URL@,
            r.client_type == ClientSessionType::Bot,
    {
        HttpClientBuilder {
            token: None,
            api_url: String::from_str(REVOLT_API_URL),
            client_type: ClientSessionType::Bot,
        }
    }

    /// Selects bot or user authentication.
    pub fn session_type(self, session_type: ClientSessionType) -> (r: HttpClientBuilder)
        ensures
            r.client_type == session_type,
            r.token == self.token,
            r.api_url == self.api_url,
    {
        HttpClientBuilder { client_type: session_type, ..self }
    }

    /// Sets the token to use for the session type.
    pub fn with_token(self, token: &str) -> (r: HttpClientBuilder)
        ensures
            r.token matches Some(t) && t@ == token@,
            r.api_url == self.api_url,
            r.client_type == self.client_type,
    {
        HttpClientBuilder { token: Some(token.to_owned()), ..self }
    }

    /// Sets the API root.
    pub fn with_api(self, api: &str) -> (r: HttpClientBuilder)
        ensures
            r.api_url@ == api@,
            r.token == self.token,
            r.client_type == self.client_type,
    {
        HttpClientBuilder { api_url: api.to_owned(), ..self }
    }

    /// Assembles the session: fails exactly when no token was given;
    /// otherwise the session keeps the API root and carries the token under
    /// the bot header for a bot session and the user header otherwise.
    pub fn build(self) -> (r: Result<HttpClient, HttpClientBuilderError>)
        ensures
            match r {
                Ok(client) => {
                    &&& self.token matches Some(t) && client.token@ == t@
                    &&& client.api_url@ == self.api_url@
                    &&& client.session_header@ == (if self.client_type is Bot {
                        "x-bot-token"@
                    } else {
                        "x-session-token"@
                    })
                },
                Err(e) => self.token is None && e == HttpClientBuilderError::MissingToken,
            },
    {
        let token = if let Some(token) = self.token {
            token
        } else {
            return Err(HttpClientBuilderError::MissingToken);
        };
        let session_header = if let ClientSessionType::Bot = self.client_type {
            String::from_str("x-bot-token")
        } else {
            String::from_str("x-session-token")
        };
        Ok(HttpClient { api_url: self.api_url, token, session_header })
    }
}

} // verus!
