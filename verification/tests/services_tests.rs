use abot::channels::discord::DiscordChannel;
use abot::channels::slack::SlackChannel;
use abot::channels::telegram::TelegramChannel;
use abot::channels::traits::ChannelError;
use abot::json::Json;
use abot::mcp::client::McpClient;
use abot::mcp::server::McpServer;
use abot::mcp::transport::{Transport, TransportError, TransportMode};
use abot::telemetry::heartbeat::{normalize_fleet_status, resolve_container_id, UsageCounters};

#[test]
fn test_discord_channel_creation() {
    let channel = DiscordChannel::new("token123", "guild456", "channel789");
    assert!(!channel.is_connected());
    assert_eq!(channel.name(), "discord");
}

#[test]
fn test_discord_connect() {
    let mut channel = DiscordChannel::new("token123", "guild456", "channel789");
    let result = channel.connect();
    assert!(result.is_ok());
    assert!(channel.is_connected());
}

#[test]
fn discord_test_send_message_disconnected() {
    let channel = DiscordChannel::new("token123", "guild456", "channel789");
    let result = channel.send_message("test");
    assert!(result.is_err());
}

#[test]
fn test_slack_channel_creation() {
    let channel = SlackChannel::new("xoxb-token123", "C123456");
    assert!(!channel.is_connected());
    assert_eq!(channel.name(), "slack");
}

#[test]
fn test_slack_connect() {
    let mut channel = SlackChannel::new("xoxb-token123", "C123456");
    let result = channel.connect();
    assert!(result.is_ok());
    assert!(channel.is_connected());
}

#[test]
fn slack_test_send_message_disconnected() {
    let channel = SlackChannel::new("xoxb-token123", "C123456");
    let result = channel.send_message("test");
    assert!(result.is_err());
}

#[test]
fn test_telegram_channel_creation() {
    let channel = TelegramChannel::new("token123", "chat456");
    assert!(!channel.is_connected());
    assert_eq!(channel.name(), "telegram");
}

#[test]
fn test_telegram_connect() {
    let mut channel = TelegramChannel::new("token123", "chat456");
    let result = channel.connect();
    assert!(result.is_ok());
    assert!(channel.is_connected());
}

#[test]
fn telegram_test_send_message_disconnected() {
    let channel = TelegramChannel::new("token123", "chat456");
    let result = channel.send_message("test");
    assert!(result.is_err());
}

#[test]
fn connected_channels_answer_and_disconnect() {
    let mut channel = TelegramChannel::new("bot-token", "chat-1");
    channel.connect().unwrap();
    assert_eq!(channel.send_message("hi").unwrap(), "message-id-123");
    assert!(channel.receive_messages().unwrap().is_empty());
    channel.disconnect().unwrap();
    match channel.receive_messages() {
        Err(e) => assert_eq!(e.message(), "Receive failed: Not connected to Telegram"),
        Ok(_) => panic!("expected an error"),
    }
    let e = ChannelError::Unknown("x".to_string());
    assert_eq!(e.message(), "Unknown error: x");
}

#[test]
fn test_client_creation() {
    let client = McpClient::new("http://localhost:3000");
    assert_eq!(client.server_url, "http://localhost:3000");
}

#[test]
fn test_list_tools() {
    let client = McpClient::new("http://localhost:3000");
    let tools = client.list_tools().unwrap();
    assert!(tools.is_empty());
}

#[test]
fn mcp_call_is_not_implemented_yet() {
    let client = McpClient::new("http://localhost:3000");
    let reply = client.call_tool("x", &Json::Null).unwrap();
    assert_eq!(reply.get("status").and_then(|v| v.as_str()), Some("not_implemented"));
}

#[test]
fn test_server_creation() {
    let server = McpServer::new(3000);
    assert_eq!(server.port, 3000);
    assert_eq!(server.tools.len(), 0);
}

#[test]
fn test_register_tool() {
    let mut server = McpServer::new(3000);
    let schema = Json::Object(vec![
        ("type".to_string(), Json::Str("object".to_string())),
        (
            "properties".to_string(),
            Json::Object(vec![(
                "query".to_string(),
                Json::Object(vec![("type".to_string(), Json::Str("string".to_string()))]),
            )]),
        ),
    ]);

    server.register_tool("search", "Search for information", schema).unwrap();

    assert_eq!(server.tools.len(), 1);
    assert!(server.get_tool("search").is_some());
}

#[test]
fn test_get_tools() {
    let mut server = McpServer::new(3000);

    server.register_tool("tool1", "First tool", Json::Object(vec![])).unwrap();
    server.register_tool("tool2", "Second tool", Json::Object(vec![])).unwrap();

    let tools = server.get_tools();
    assert_eq!(tools.len(), 2);
}

#[test]
fn registering_a_name_again_replaces_it() {
    let mut server = McpServer::new(1);
    server.register_tool("t", "old", Json::Null).unwrap();
    server.register_tool("t", "new", Json::Null).unwrap();
    assert_eq!(server.tools.len(), 1);
    assert_eq!(server.get_tool("t").unwrap().description, "new");
    assert!(server.get_tool("missing").is_none());
}

#[test]
fn test_transport_creation() {
    let transport = Transport::new(TransportMode::Sse);
    assert!(!transport.is_connected());
}

#[test]
fn test_transport_connection() {
    let mut transport = Transport::new(TransportMode::Stdio);
    let result = transport.connect();
    assert!(result.is_ok());
    assert!(transport.is_connected());
}

#[test]
fn test_send_disconnected() {
    let transport = Transport::new(TransportMode::Sse);
    let msg = Json::Object(vec![("test".to_string(), Json::Str("message".to_string()))]);
    let result = transport.send(&msg);
    assert!(matches!(result, Err(TransportError::SendFailed(_))));
}

#[test]
fn test_transport_mode_variants() {
    let sse = Transport::new(TransportMode::Sse);
    let stdio = Transport::new(TransportMode::Stdio);
    let ws = Transport::new(TransportMode::WebSocket);

    match sse.mode() {
        TransportMode::Sse => (),
        _ => panic!("Wrong mode"),
    }

    match stdio.mode() {
        TransportMode::Stdio => (),
        _ => panic!("Wrong mode"),
    }

    match ws.mode() {
        TransportMode::WebSocket => (),
        _ => panic!("Wrong mode"),
    }
}

#[test]
fn transport_receives_empty_object_once_connected() {
    let mut t = Transport::new(TransportMode::WebSocket);
    assert!(t.receive().is_err());
    t.connect().unwrap();
    assert!(matches!(t.receive(), Ok(Json::Object(v)) if v.is_empty()));
    t.close().unwrap();
    assert!(!t.is_connected());
}

#[test]
fn usage_counters_drain_is_atomic() {
    let c = UsageCounters::new();
    c.add_tokens_in(100);
    c.add_tokens_out(50);
    c.inc_executions();
    c.inc_executions();

    let (ti, to, ex) = c.drain();
    assert_eq!(ti, 100);
    assert_eq!(to, 50);
    assert_eq!(ex, 2);

    let (ti2, to2, ex2) = c.drain();
    assert_eq!((ti2, to2, ex2), (0, 0, 0));
}

#[test]
fn usage_counters_clones_share_counts() {
    let a = UsageCounters::new();
    let b = a.clone();
    b.add_tokens_in(5);
    assert_eq!(a.drain(), (5, 0, 0));
}

#[test]
fn normalize_status_maps_aliases() {
    assert_eq!(normalize_fleet_status("running"), "working");
    assert_eq!(normalize_fleet_status("WORKING"), "working");
    assert_eq!(normalize_fleet_status("error"), "error");
    assert_eq!(normalize_fleet_status("crashed"), "error");
    assert_eq!(normalize_fleet_status("idle"), "idle");
    assert_eq!(normalize_fleet_status(""), "idle");
    assert_eq!(normalize_fleet_status("whatever"), "idle");
}

#[test]
fn container_id_prefers_env_then_hostname_file() {
    assert_eq!(resolve_container_id(Some("c1".into()), Some("h".into()), None), "c1");
    assert_eq!(resolve_container_id(Some("".into()), Some("h".into()), None), "h");
    assert_eq!(resolve_container_id(None, None, Some("  box\n".into())), "box");
    assert_eq!(resolve_container_id(None, Some("".into()), Some("  \n".into())), "unknown");
    assert_eq!(resolve_container_id(None, None, None), "unknown");
}
