//! Control events the client sends to the gateway.

use vstd::prelude::*;

verus! {

/// An outbound control event: authentication, typing notices and the
/// heartbeat ping.
#[derive(Debug, Clone, PartialEq)]
pub enum ClientEvent {
    Authenticate { token: String },
    BeginTyping { channel_id: String },
    EndTyping { channel_id: String },
    Ping { data: i32 },
}

/// The mathematical value of a [`ClientEvent`].
pub enum ClientEventView {
    Authenticate { token: Seq<char> },
    BeginTyping { channel_id: Seq<char> },
    EndTyping { channel_id: Seq<char> },
    Ping { data: i32 },
}

impl View for ClientEvent {
    type V = ClientEventView;

    open spec fn view(&self) -> ClientEventView {
        match self {
            ClientEvent::Authenticate { token } => ClientEventView::Authenticate { token: token@ },
            ClientEvent::BeginTyping { channel_id } => ClientEventView::BeginTyping {
                channel_id: channel_id@,
            },
            ClientEvent::EndTyping { channel_id } => ClientEventView::EndTyping {
                channel_id: channel_id@,
            },
            ClientEvent::Ping { data } => ClientEventView::Ping { data: *data },
        }
    }
}

impl DeepView for ClientEvent {
    type V = ClientEventView;

    open spec fn deep_view(&self) -> ClientEventView {
        self.view()
    }
}

} // verus!
