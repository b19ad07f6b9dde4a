//! Assembling a session from configuration.
//!
//! The builder collects everything a session needs: the REST
//! configuration, the gateway configuration, the token and the cache
//! bound. Opening the connection — the discovery call for the gateway URL
//! and the socket handshake — happens outside the library, against the
//! configuration assembled here.

use vstd::prelude::*;

use crate::http::builder::HttpClientBuilder;
use crate::http::builder::HttpClientBuilderError;
use crate::http::client::ClientSessionType;
use crate::http::client::REVOLT_API_URL;
use crate::websocket::ClientConfigBuilder;
use crate::websocket::PacketFormat;
use crate::websocket::REVOLT_WEBSOCKET_URL;

verus! {

/// Why a session could not be assembled.
#[derive(Debug, Clone, Copy, PartialEq, Eq, Structural)]
pub enum RevoltBuilderError {
    HttpClientError(HttpClientBuilderError),
}

/// Collects the configuration of a session: REST, gateway, token and
/// cache bound.
#[derive(Debug, Clone, PartialEq)]
pub struct RevoltClientBuilder {
    pub http: HttpClientBuilder,
    pub socket_config: ClientConfigBuilder,
    pub token: Option<String>,
    pub max_messages: usize,
}

impl RevoltClientBuilder {
    /// The default configuration: no token, the service's own REST and
    /// gateway endpoints, protocol version 1, JSON frames, a heartbeat
    /// every 15 seconds, at most 256 cached messages.
    pub fn new() -> (r: RevoltClientBuilder)
        ensures
            r.token is None,
            r.max_messages == 256,
            r.http.token is None,
            r.http.api_url@ == REVOLT_API_URL@,
            r.http.client_type == ClientSessionType::Bot,
            r.socket_config.ws@ == REVOLT_WEBSOCKET_URL@,
            r.socket_config.version == 1u64,
            r.socket_config.heartbeat_interval == 15u64,
            r.socket_config.packet_format == PacketFormat::Json,
    {
        RevoltClientBuilder {
            http: HttpClientBuilder::new(),
            socket_config: ClientConfigBuilder::new(),
            token: None,
            max_messages: 256,
        }
    }

    /// Bounds how many messages the session cache retains.
    pub fn set_max_cache_messages(self, max_messages: usize) -> (r: RevoltClientBuilder)
        ensures
            r.max_messages == max_messages,
            r.http == self.http,
            r.socket_config == self.socket_config,
            r.token == self.token,
    {
        RevoltClientBuilder { max_messages, ..self }
    }

    /// Sets the API root.
    pub fn with_api(self, api_url: &str) -> (r: RevoltClientBuilder)
        ensures
            r.http.api_url@ == api_url@,
            r.http.token == self.http.token,
            r.http.client_type == self.http.client_type,
            r.socket_config == self.socket_config,
            r.token == self.token,
            r.max_messages == self.max_messages,
    {
        RevoltClientBuilder { http: self.http.with_api(api_url), ..self }
    }

    /// Selects bot or user authentication.
    pub fn session_type(self, session_type: ClientSessionType) -> (r: RevoltClientBuilder)
        ensures
            r.http.client_type == session_type,
            r.http.token == self.http.token,
            r.http.api_url == self.http.api_url,
            r.socket_config == self.socket_config,
            r.token == self.token,
            r.max_messages == self.max_messages,
    {
        RevoltClientBuilder { http: self.http.session_type(session_type), ..self }
    }

    /// Sets the token the session authenticates with, for both the REST
    /// layer and the gateway handshake.
    pub fn with_token(self, token: &str) -> (r: RevoltClientBuilder)
        ensures
            r.token matches Some(t) && t@ == token@,
            r.http.token matches Some(t) && t@ == token@,
            r.http.api_url == self.http.api_url,
            r.http.client_type == self.http.client_type,
            r.socket_config == self.socket_config,
            r.max_messages == self.max_messages,
    {
        RevoltClientBuilder {
            token: Some(token.to_owned()),
            http: self.http.with_token(token),
            ..self
        }
    }

    /// Sets the gateway base URL.
    pub fn with_websocket_url(self, socket_url: &str) -> (r: RevoltClientBuilder)
        ensures
            r.socket_config.ws@ == socket_url@,
            r.socket_config.version == self.socket_config.version,
            r.socket_config.packet_format == self.socket_config.packet_format,
            r.socket_config.heartbeat_interval == self.socket_config.heartbeat_interval,
            r.http == self.http,
            r.token == self.token,
            r.max_messages == self.max_messages,
    {
        RevoltClientBuilder {
            socket_config: self.socket_config.with_websocket_url(socket_url),
            ..self
        }
    }

    /// Selects the wire format.
    pub fn with_packet_format(self, packet_format: PacketFormat) -> (r: RevoltClientBuilder)
        ensures
            r.socket_config.packet_format == packet_format,
            r.socket_config.ws == self.socket_config.ws,
            r.socket_config.version == self.socket_config.version,
            r.socket_config.heartbeat_interval == self.socket_config.heartbeat_interval,
            r.http == self.http,
            r.token == self.token,
            r.max_messages == self.max_messages,
    {
        RevoltClientBuilder {
            socket_config: self.socket_config.packet_format(packet_format),
            ..self
        }
    }

    /// Sets the heartbeat interval, in seconds.
    pub fn with_heartbeat_interval(self, heartbeat_interval: u64) -> (r: RevoltClientBuilder)
        ensures
            r.socket_config.heartbeat_interval == heartbeat_interval,
            r.socket_config.ws == self.socket_config.ws,
            r.socket_config.version == self.socket_config.version,
            r.socket_config.packet_format == self.socket_config.packet_format,
            r.http == self.http,
            r.token == self.token,
            r.max_messages == self.max_messages,
    {
        RevoltClientBuilder {
            socket_config: self.socket_config.heartbeat_interval(heartbeat_interval),
            ..self
        }
    }
}

} // verus!
