//! The transport session's verified core.
//!
//! A session owns two unbounded FIFO queues: an outbound queue the caller
//! (and the heartbeat ticker) feeds and the pump drains towards the socket,
//! and an inbound queue the pump fills with decoded events. The queues are
//! the only bridge between the caller and the socket; actual socket I/O,
//! the pump and the heartbeat ticker run outside the library and touch the
//! session only through them.

use vstd::prelude::*;

use crate::models::events::client::ClientEvent;
use crate::models::events::client::ClientEventView;
use crate::models::events::server::ServerEvent;
use crate::text::decimal_u64;
use crate::text::spec_decimal;

verus! {

/// The default gateway URL of the remote service.
pub const REVOLT_WEBSOCKET_URL: &'static str = "wss://ws.revolt.chat";

/// The wire format frames are encoded in.
#[derive(Debug, Clone, Copy, PartialEq, Eq, Structural)]
pub enum PacketFormat {
    Json,
    MsgPack,
}

impl PacketFormat {
    /// The value this format takes in the gateway URL's query string.
    pub fn as_query(&self) -> (r: &'static str)
        ensures
            r@ == (if *self is Json {
                "json"@
            } else {
                "msgpack"@
            }),
    {
        match self {
            PacketFormat::Json => "json",
            PacketFormat::MsgPack => "msgpack",
        }
    }
}

/// An error of the transport session.
///
/// A decode failure (one malformed frame) and a socket-level transport
/// error both carry the underlying error's description; `SendError` is the
/// terminal failure of the outbound queue, reported when its receiving end
/// is gone.
#[derive(Debug, Clone, PartialEq)]
pub enum SocketError {
    JsonSerializationError(String),
    TungsteniteError(String),
    SendError,
}

#[verifier::external_type_specification]
#[verifier::external_body]
#[verifier::reject_recursive_types(T)]
pub struct ExSender<T>(async_channel::Sender<T>);

#[verifier::external_type_specification]
#[verifier::external_body]
#[verifier::reject_recursive_types(T)]
pub struct ExReceiver<T>(async_channel::Receiver<T>);

/// Relies on async_channel::Sender::try_send: on an unbounded channel it
/// never reports the queue full, so it enqueues the event and returns Ok
/// unless every receiver of the channel is gone. Other tasks share the
/// queue, so nothing is promised about its contents.
#[verifier::external_body]
fn enqueue_client_event(sender: &async_channel::Sender<ClientEvent>, event: ClientEvent) -> (r:
    Result<(), ()>)
{
    match sender.try_send(event) {
        Ok(()) => Ok(()),
        Err(_) => Err(()),
    }
}

/// One logical duplex connection to the gateway: the configuration it was
/// opened with and the caller-side ends of the two queues.
pub struct SocketClient {
    pub ws: String,
    pub heartbeat_interval: u64,
    pub client_sender: async_channel::Sender<ClientEvent>,
    pub client_receiver: async_channel::Receiver<ClientEvent>,
    pub server_sender: async_channel::Sender<Result<ServerEvent, SocketError>>,
    pub server_receiver: async_channel::Receiver<Result<ServerEvent, SocketError>>,
}

impl SocketClient {
    /// Enqueue one outbound event; never blocks on network I/O. Fails only
    /// when the outbound queue's receiving end has been dropped, which is
    /// terminal for the session.
    pub fn send(&mut self, event: ClientEvent) -> (r: Result<(), SocketError>)
        ensures
            *final(self) == *old(self),
            r matches Err(e) ==> e == SocketError::SendError,
    {
        if let Err(_) = enqueue_client_event(&self.client_sender, event) {
            return Err(SocketError::SendError);
        }
        Ok(())
    }

    /// The authenticate control event carrying `token`.
    pub fn authenticate_event(token: &str) -> (r: ClientEvent)
        ensures
            r@ == (ClientEventView::Authenticate { token: token@ }),
    {
        ClientEvent::Authenticate { token: token.to_owned() }
    }

    /// Enqueue the authenticate control event carrying `token`: the event
    /// handed to the queue is exactly [`Self::authenticate_event`]`(token)`.
    pub fn authenticate(&mut self, token: &str) -> (r: Result<(), SocketError>)
        ensures
            *final(self) == *old(self),
            r matches Err(e) ==> e == SocketError::SendError,
    {
        self.send(Self::authenticate_event(token))
    }

    /// The begin-typing control event for a channel.
    pub fn begin_typing_event(channel_id: &str) -> (r: ClientEvent)
        ensures
            r@ == (ClientEventView::BeginTyping { channel_id: channel_id@ }),
    {
        ClientEvent::BeginTyping { channel_id: channel_id.to_owned() }
    }

    /// Enqueue the begin-typing control event for a channel: the event
    /// handed to the queue is exactly [`Self::begin_typing_event`]`(channel_id)`.
    pub fn start_typing(&mut self, channel_id: &str) -> (r: Result<(), SocketError>)
        ensures
            *final(self) == *old(self),
            r matches Err(e) ==> e == SocketError::SendError,
    {
        self.send(Self::begin_typing_event(channel_id))
    }

    /// The end-typing control event for a channel.
    pub fn end_typing_event(channel_id: &str) -> (r: ClientEvent)
        ensures
            r@ == (ClientEventView::EndTyping { channel_id: channel_id@ }),
    {
        ClientEvent::EndTyping { channel_id: channel_id.to_owned() }
    }

    /// Enqueue the end-typing control event for a channel: the event
    /// handed to the queue is exactly [`Self::end_typing_event`]`(channel_id)`.
    pub fn stop_typing(&mut self, channel_id: &str) -> (r: Result<(), SocketError>)
        ensures
            *final(self) == *old(self),
            r matches Err(e) ==> e == SocketError::SendError,
    {
        self.send(Self::end_typing_event(channel_id))
    }

    /// The heartbeat ping the ticker enqueues every interval.
    pub fn ping_event() -> (r: ClientEvent)
        ensures
            r@ == (ClientEventView::Ping { data: 0 }),
    {
        ClientEvent::Ping { data: 0 }
    }
}

/// One socket read, classified as plain values: a decoded event, a
/// malformed frame with the decode error's description, a non-text frame,
/// or a socket-level transport error.
pub enum FrameRead {
    Event(ServerEvent),
    DecodeError(String),
    NonText,
    TransportError(String),
}

/// The pump's policy for one socket read: which item (if any) goes onto
/// the inbound queue, and whether the pump keeps running. A malformed
/// frame yields one decode-error item and the pump continues reading
/// subsequent frames; a socket-level error yields one transport-error
/// item, after which the pump shuts down; a non-text frame yields
/// nothing.
pub fn pump_step(read: FrameRead) -> (r: (Option<Result<ServerEvent, SocketError>>, bool))
    ensures
        match read {
            FrameRead::Event(e) => r.0 == Some(Ok::<ServerEvent, SocketError>(e)) && r.1 == true,
            FrameRead::DecodeError(d) => r.0 == Some(
                Err::<ServerEvent, SocketError>(SocketError::JsonSerializationError(d)),
            ) && r.1 == true,
            FrameRead::NonText => r.0 is None && r.1 == true,
            FrameRead::TransportError(d) => r.0 == Some(
                Err::<ServerEvent, SocketError>(SocketError::TungsteniteError(d)),
            ) && r.1 == false,
        },
{
    match read {
        FrameRead::Event(e) => (Some(Ok(e)), true),
        FrameRead::DecodeError(d) => (Some(Err(SocketError::JsonSerializationError(d))), true),
        FrameRead::NonText => (None, true),
        FrameRead::TransportError(d) => (
            Some(Err(SocketError::TungsteniteError(d))),
            false,
        ),
    }
}

/// The configuration a transport session is opened with: the full gateway
/// URL and the heartbeat interval in seconds.
#[derive(Debug, Clone, PartialEq)]
pub struct ClientConfig {
    pub ws: String,
    pub heartbeat_interval: u64,
}

/// Collects the gateway configuration: base URL, protocol version, wire
/// format and heartbeat interval.
#[derive(Debug, Clone, PartialEq)]
pub struct ClientConfigBuilder {
    pub ws: String,
    pub version: u64,
    pub packet_format: PacketFormat,
    pub heartbeat_interval: u64,
}

impl ClientConfigBuilder {
    /// The default gateway configuration: the service's gateway URL,
    /// protocol version 1, JSON frames, a heartbeat every 15 seconds.
    pub fn new() -> (r: ClientConfigBuilder)
        ensures
            r.ws@ == REVOLT_WEBSOCKET_URL@,
            r.version == 1u64,
            r.packet_format == PacketFormat::Json,
            r.heartbeat_interval == 15u64,
    {
        ClientConfigBuilder {
            ws: String::from_str(REVOLT_WEBSOCKET_URL),
            version: 1,
            heartbeat_interval: 15,
            packet_format: PacketFormat::Json,
        }
    }

    /// Sets the gateway base URL.
    pub fn with_websocket_url(self, ws: &str) -> (r: ClientConfigBuilder)
        ensures
            r.ws@ == ws@,
            r.version == self.version,
            r.packet_format == self.packet_format,
            r.heartbeat_interval == self.heartbeat_interval,
    {
        ClientConfigBuilder { ws: ws.to_owned(), ..self }
    }

    /// Selects the wire format.
    pub fn packet_format(self, packet_format: PacketFormat) -> (r: ClientConfigBuilder)
        ensures
            r.packet_format == packet_format,
            r.ws == self.ws,
            r.version == self.version,
            r.heartbeat_interval == self.heartbeat_interval,
    {
        ClientConfigBuilder { packet_format, ..self }
    }

    /// Sets the heartbeat interval, in seconds.
    pub fn heartbeat_interval(self, heartbeat_interval: u64) -> (r: ClientConfigBuilder)
        ensures
            r.heartbeat_interval == heartbeat_interval,
            r.ws == self.ws,
            r.version == self.version,
            r.packet_format == self.packet_format,
    {
        ClientConfigBuilder { heartbeat_interval, ..self }
    }

    /// The full gateway URL this configuration connects to: the base URL
    /// with the protocol version and wire format in the query string.
    pub open spec fn spec_full_url(self) -> Seq<char> {
        self.ws@ + "/?version="@ + spec_decimal(self.version as nat) + "&format="@ + (
        if self.packet_format is Json {
            "json"@
        } else {
            "msgpack"@
        })
    }

    /// Assembles the transport configuration: the gateway URL carries the
    /// version and wire format; the heartbeat interval passes through.
    pub fn build(&self) -> (r: ClientConfig)
        ensures
            r.ws@ == self.spec_full_url(),
            r.heartbeat_interval == self.heartbeat_interval,
    {
        let ws = self.ws.clone().concat("/?version=").concat(decimal_u64(self.version).as_str())
            .concat("&format=").concat(self.packet_format.as_query());
        ClientConfig { ws, heartbeat_interval: self.heartbeat_interval }
    }
}

} // verus!
