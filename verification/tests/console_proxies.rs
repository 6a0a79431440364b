use quickemu_manager::services::spice_proxy::{
    ConnectionStatus, FirstMessage, Handshake, SpiceProxyConfig, SpiceProxyService,
};
use quickemu_manager::services::vnc_proxy::VncProxy;
use quickemu_manager::tokens::random_hex;

#[test]
fn test_spice_proxy_service_creation() {
    let config = SpiceProxyConfig::default();
    let service = SpiceProxyService::new(config);

    assert!(service.list_connections().is_empty());
}

#[test]
fn test_auth_token_generation() {
    let token1 = SpiceProxyService::generate_auth_token();
    let token2 = SpiceProxyService::generate_auth_token();

    assert_ne!(token1, token2);
    assert_eq!(token1.len(), 64); // 32 bytes * 2 (hex encoding)
}

#[test]
fn test_console_session_creation() {
    let config = SpiceProxyConfig::default();
    let mut service = SpiceProxyService::new(config);

    let port = service.port_candidates()[0];
    let token = SpiceProxyService::generate_auth_token();
    let console_info = service.create_console_session("test-vm".to_string(), 5930, port, token, 0);

    assert!(console_info.websocket_url.starts_with("ws://"));
    assert!(!console_info.auth_token.is_empty());
    assert!(!console_info.connection_id.is_empty());
}

#[test]
fn default_proxy_config() {
    let c = SpiceProxyConfig::default();
    assert_eq!(c.bind_address, "127.0.0.1");
    assert_eq!(c.port_range, (6080, 6089));
    assert_eq!(c.max_connections, 10);
    assert_eq!(c.connection_timeout_secs, 30);
    assert_eq!(c.auth_timeout_secs, 10);
    assert!(!c.enable_tls);
    let service = SpiceProxyService::new(c);
    assert_eq!(service.port_candidates(), (6080u16..=6089).collect::<Vec<u16>>());
}

#[test]
fn session_lifecycle() {
    let mut service = SpiceProxyService::new(SpiceProxyConfig::default());
    let info = service.create_console_session("win".to_string(), 5930, 6081, "tok".to_string(), 5);
    assert_eq!(info.connection_id, "win:6081");
    assert_eq!(info.websocket_url, "ws://127.0.0.1:6081");
    assert_eq!(info.auth_token, "tok");
    assert_eq!(service.get_console_status("win:6081"), Some(ConnectionStatus::Authenticating));
    assert_eq!(service.get_console_status("other"), None);

    let found = service.authenticate("tok").unwrap();
    assert_eq!(found.vm_id, "win");
    assert_eq!(found.spice_port, 5930);
    assert!(service.authenticate("nope").is_none());

    service.set_status("win:6081", ConnectionStatus::Connected);
    assert_eq!(service.get_console_status("win:6081"), Some(ConnectionStatus::Connected));
    assert_eq!(ConnectionStatus::Connected.text(), "connected");
    assert_eq!(ConnectionStatus::Error("x".to_string()).text(), "error: x");

    assert!(service.remove_console_session("win:6081"));
    assert!(!service.remove_console_session("win:6081"));
    assert_eq!(service.get_console_status("win:6081"), None);
}

#[test]
fn expired_sessions_are_cleaned_up() {
    let mut service = SpiceProxyService::new(SpiceProxyConfig::default());
    let second: u128 = 1_000_000_000;
    service.create_console_session("old".to_string(), 5930, 6080, "a".to_string(), 0);
    service.create_console_session("new".to_string(), 5931, 6081, "b".to_string(), 20 * second);
    let removed = service.cleanup_expired_connections(31 * second);
    assert_eq!(removed, vec!["old:6080".to_string()]);
    assert_eq!(service.get_console_status("old:6080"), None);
    assert_eq!(service.get_console_status("new:6081"), Some(ConnectionStatus::Authenticating));
    // Exactly the timeout is not yet expired.
    let removed = service.cleanup_expired_connections(50 * second);
    assert!(removed.is_empty());
    service.stop();
    assert!(service.list_connections().is_empty());
}

#[test]
fn vnc_proxy_sessions() {
    let mut proxy = VncProxy::new();
    let id = VncProxy::generate_connection_id();
    assert_eq!(id.len(), 32);
    assert!(id.chars().all(|c| c.is_ascii_hexdigit() && !c.is_ascii_uppercase()));
    let c = proxy.create_connection(
        "c1".to_string(),
        "vm".to_string(),
        "127.0.0.1".to_string(),
        5900,
        6080,
        "tok".to_string(),
    );
    assert_eq!(c.status, "connecting");
    assert_eq!(c.vnc_address(), "127.0.0.1:5900");
    assert_eq!(c.listen_address(), "0.0.0.0:6080");
    assert_eq!(proxy.get_connection_status("c1"), Some("connecting".to_string()));
    proxy.set_status("c1", "connected");
    assert_eq!(proxy.get_connection_status("c1"), Some("connected".to_string()));
    assert!(VncProxy::token_matches("tok", "tok"));
    assert!(!VncProxy::token_matches("tok", "tok2"));
    proxy.stop_connection("c1");
    assert_eq!(proxy.get_connection("c1"), None);
    assert_eq!(VncProxy::port_candidates(), (6080u16..6100).collect::<Vec<u16>>());
}

#[test]
fn hex_tokens_have_two_digits_per_byte() {
    let t = random_hex(5);
    assert_eq!(t.len(), 10);
    assert!(t.chars().all(|c| c.is_ascii_digit() || ('a'..='f').contains(&c)));
}

#[test]
fn spice_browser_handshake() {
    let mut service = SpiceProxyService::new(SpiceProxyConfig::default());
    service.create_console_session("win".to_string(), 5931, 6082, "secret".to_string(), 0);
    assert_eq!(
        service.authenticate_browser(FirstMessage::Text("wrong".to_string())),
        Handshake::Refuse {
            reply: Some("Authentication failed".to_string()),
            error: "Invalid authentication token".to_string()
        }
    );
    assert_eq!(
        service.authenticate_browser(FirstMessage::Other),
        Handshake::Refuse { reply: None, error: "Invalid authentication message".to_string() }
    );
    assert_eq!(
        service.authenticate_browser(FirstMessage::TimedOut),
        Handshake::Refuse { reply: None, error: "Authentication timeout".to_string() }
    );
    assert_eq!(
        service.authenticate_browser(FirstMessage::Closed),
        Handshake::Refuse { reply: None, error: "Connection closed during auth".to_string() }
    );
    assert_eq!(
        service.authenticate_browser(FirstMessage::Failed("reset".to_string())),
        Handshake::Refuse { reply: None, error: "WebSocket error: reset".to_string() }
    );
    assert_eq!(service.get_console_status("win:6082"), Some(ConnectionStatus::Authenticating));
    assert_eq!(
        service.authenticate_browser(FirstMessage::Text("secret".to_string())),
        Handshake::Accept {
            reply: "OK".to_string(),
            connection_id: "win:6082".to_string(),
            server_address: "127.0.0.1:5931".to_string()
        }
    );
    assert_eq!(service.get_console_status("win:6082"), Some(ConnectionStatus::Connected));
    service.session_ended("win:6082");
    assert_eq!(service.get_console_status("win:6082"), Some(ConnectionStatus::Disconnected));
}

#[test]
fn vnc_browser_handshake() {
    let mut proxy = VncProxy::new();
    proxy.create_connection("c".to_string(), "vm".to_string(), "127.0.0.1".to_string(), 5900, 6080, "tok".to_string());
    assert_eq!(
        proxy.authenticate_browser("c", "tok", "127.0.0.1:5900", FirstMessage::Text("bad".to_string())),
        Handshake::Refuse {
            reply: Some("Authentication failed".to_string()),
            error: "Invalid authentication token".to_string()
        }
    );
    assert_eq!(
        proxy.authenticate_browser("c", "tok", "127.0.0.1:5900", FirstMessage::Closed),
        Handshake::Refuse { reply: None, error: "No authentication message received".to_string() }
    );
    assert_eq!(proxy.get_connection_status("c"), Some("connecting".to_string()));
    assert_eq!(
        proxy.authenticate_browser("c", "tok", "127.0.0.1:5900", FirstMessage::Text("tok".to_string())),
        Handshake::Accept {
            reply: "authenticated".to_string(),
            connection_id: "c".to_string(),
            server_address: "127.0.0.1:5900".to_string()
        }
    );
    assert_eq!(proxy.get_connection_status("c"), Some("connected".to_string()));
    proxy.session_ended("c");
    assert_eq!(proxy.get_connection_status("c"), Some("disconnected".to_string()));
}
