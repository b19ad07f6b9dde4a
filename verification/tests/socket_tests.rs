use harmony::models::events::client::ClientEvent;
use harmony::models::events::server::ServerEvent;
use harmony::websocket::SocketClient;
use harmony::websocket::SocketError;

fn socket() -> SocketClient {
    let (client_sender, client_receiver) = async_channel::unbounded();
    let (server_sender, server_receiver) = async_channel::unbounded::<
        Result<ServerEvent, SocketError>,
    >();
    SocketClient {
        ws: "wss://ws.example".to_string(),
        heartbeat_interval: 15,
        client_sender,
        client_receiver,
        server_sender,
        server_receiver,
    }
}

#[test]
fn send_enqueues_in_fifo_order() {
    let mut s = socket();
    s.send(ClientEvent::Ping { data: 1 }).unwrap();
    s.send(ClientEvent::Ping { data: 2 }).unwrap();
    assert_eq!(
        s.client_receiver.try_recv().unwrap(),
        ClientEvent::Ping { data: 1 }
    );
    assert_eq!(
        s.client_receiver.try_recv().unwrap(),
        ClientEvent::Ping { data: 2 }
    );
}

#[test]
fn typing_events_carry_the_channel() {
    let mut s = socket();
    s.start_typing("C1").unwrap();
    s.stop_typing("C1").unwrap();
    assert_eq!(
        s.client_receiver.try_recv().unwrap(),
        ClientEvent::BeginTyping {
            channel_id: "C1".to_string()
        }
    );
    assert_eq!(
        s.client_receiver.try_recv().unwrap(),
        ClientEvent::EndTyping {
            channel_id: "C1".to_string()
        }
    );
}

#[test]
fn authenticate_carries_the_token() {
    let mut s = socket();
    s.authenticate("tok").unwrap();
    assert_eq!(
        s.client_receiver.try_recv().unwrap(),
        ClientEvent::Authenticate {
            token: "tok".to_string()
        }
    );
}

#[test]
fn send_fails_when_receiver_is_gone() {
    let mut s = socket();
    let (keep_sender, receiver) = async_channel::unbounded::<ClientEvent>();
    drop(std::mem::replace(&mut s.client_receiver, receiver));
    drop(keep_sender);
    // the original receiving end was dropped above, so the queue is closed
    assert_eq!(
        s.send(ClientEvent::Ping { data: 0 }),
        Err(SocketError::SendError)
    );
}

#[test]
fn ping_event_is_the_heartbeat_payload() {
    assert_eq!(SocketClient::ping_event(), ClientEvent::Ping { data: 0 });
}

#[test]
fn pump_step_decode_error_continues() {
    let (item, keep_running) = harmony::websocket::pump_step(
        harmony::websocket::FrameRead::DecodeError("bad frame".to_string()),
    );
    match item {
        Some(Err(SocketError::JsonSerializationError(d))) => assert_eq!(d, "bad frame"),
        other => panic!("unexpected item: {other:?}"),
    }
    assert!(keep_running);
}

#[test]
fn pump_step_transport_error_stops() {
    let (item, keep_running) = harmony::websocket::pump_step(
        harmony::websocket::FrameRead::TransportError("reset".to_string()),
    );
    match item {
        Some(Err(SocketError::TungsteniteError(d))) => assert_eq!(d, "reset"),
        other => panic!("unexpected item: {other:?}"),
    }
    assert!(!keep_running);
}

#[test]
fn pump_step_non_text_frame_yields_nothing() {
    let (item, keep_running) =
        harmony::websocket::pump_step(harmony::websocket::FrameRead::NonText);
    assert!(item.is_none());
    assert!(keep_running);
}

#[test]
fn outbound_event_constructors_are_exact() {
    assert_eq!(
        SocketClient::authenticate_event("tok"),
        ClientEvent::Authenticate {
            token: "tok".to_string()
        }
    );
    assert_eq!(
        SocketClient::begin_typing_event("C1"),
        ClientEvent::BeginTyping {
            channel_id: "C1".to_string()
        }
    );
    assert_eq!(
        SocketClient::end_typing_event("C1"),
        ClientEvent::EndTyping {
            channel_id: "C1".to_string()
        }
    );
}
