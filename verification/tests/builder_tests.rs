use harmony::client::builder::RevoltClientBuilder;
use harmony::client::RevoltClient;
use harmony::http::builder::HttpClientBuilder;
use harmony::http::builder::HttpClientBuilderError;
use harmony::http::client::channel_route;
use harmony::http::client::message_route;
use harmony::http::client::node_route;
use harmony::http::client::self_route;
use harmony::http::client::send_message_route;
use harmony::http::client::server_route;
use harmony::http::client::user_route;
use harmony::http::client::ClientSessionType;
use harmony::http::client::REVOLT_API_URL;
use harmony::websocket::ClientConfigBuilder;
use harmony::websocket::PacketFormat;
use harmony::websocket::REVOLT_WEBSOCKET_URL;

#[test]
fn http_builder_defaults() {
    let b = HttpClientBuilder::new();
    assert!(b.token.is_none());
    assert_eq!(b.api_url, REVOLT_API_URL);
    assert!(matches!(b.client_type, ClientSessionType::Bot));
}

#[test]
fn http_builder_without_token_fails() {
    assert_eq!(
        HttpClientBuilder::new().build(),
        Err(HttpClientBuilderError::MissingToken)
    );
}

#[test]
fn http_builder_bot_session_uses_bot_header() {
    let client = HttpClientBuilder::new()
        .with_token("tok")
        .build()
        .expect("token is set");
    assert_eq!(client.session_header, "x-bot-token");
    assert_eq!(client.token, "tok");
    assert_eq!(client.api_url, REVOLT_API_URL);
}

#[test]
fn http_builder_user_session_uses_session_header() {
    let client = HttpClientBuilder::new()
        .with_token("tok")
        .session_type(ClientSessionType::User)
        .with_api("https://api.example")
        .build()
        .expect("token is set");
    assert_eq!(client.session_header, "x-session-token");
    assert_eq!(client.api_url, "https://api.example");
}

#[test]
fn routes_are_exact() {
    assert_eq!(self_route(), "/users/@me");
    assert_eq!(user_route("U1"), "/users/U1");
    assert_eq!(server_route("S1"), "/servers/S1");
    assert_eq!(channel_route("C1"), "/channels/C1");
    assert_eq!(message_route("C1", "M1"), "/channels/C1/messages/M1");
    assert_eq!(send_message_route("C1"), "/channels/C1/messages");
    assert_eq!(node_route(), "/");
}

#[test]
fn as_url_joins_root_and_path() {
    let client = HttpClientBuilder::new()
        .with_token("tok")
        .with_api("https://api.example")
        .build()
        .unwrap();
    assert_eq!(
        client.as_url(&user_route("U1")),
        "https://api.example/users/U1"
    );
}

#[test]
fn socket_config_defaults_and_url() {
    let cfg = ClientConfigBuilder::new().build();
    assert_eq!(cfg.ws, "wss://ws.revolt.chat/?version=1&format=json");
    assert_eq!(cfg.heartbeat_interval, 15);
    assert_eq!(ClientConfigBuilder::new().ws, REVOLT_WEBSOCKET_URL);
}

#[test]
fn socket_config_msgpack_and_custom_url() {
    let cfg = ClientConfigBuilder::new()
        .with_websocket_url("wss://gw.example")
        .packet_format(PacketFormat::MsgPack)
        .heartbeat_interval(30)
        .build();
    assert_eq!(cfg.ws, "wss://gw.example/?version=1&format=msgpack");
    assert_eq!(cfg.heartbeat_interval, 30);
}

#[test]
fn client_builder_collects_configuration() {
    let b = RevoltClient::builder()
        .with_token("tok")
        .with_api("https://api.example")
        .with_websocket_url("wss://gw.example")
        .with_packet_format(PacketFormat::MsgPack)
        .with_heartbeat_interval(20)
        .set_max_cache_messages(64);
    assert_eq!(b.token.as_deref(), Some("tok"));
    assert_eq!(b.http.token.as_deref(), Some("tok"));
    assert_eq!(b.http.api_url, "https://api.example");
    assert_eq!(b.socket_config.ws, "wss://gw.example");
    assert!(matches!(b.socket_config.packet_format, PacketFormat::MsgPack));
    assert_eq!(b.socket_config.heartbeat_interval, 20);
    assert_eq!(b.max_messages, 64);
}

#[test]
fn client_builder_defaults() {
    let b = RevoltClientBuilder::new();
    assert!(b.token.is_none());
    assert_eq!(b.max_messages, 256);
    assert_eq!(b.http.api_url, REVOLT_API_URL);
    assert!(matches!(b.http.client_type, ClientSessionType::Bot));
    assert_eq!(b.socket_config.ws, REVOLT_WEBSOCKET_URL);
    assert_eq!(b.socket_config.version, 1);
    assert!(matches!(b.socket_config.packet_format, PacketFormat::Json));
    assert_eq!(b.socket_config.heartbeat_interval, 15);
}
