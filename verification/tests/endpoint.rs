use wavs_frontend::local::{EndpointError, EthClientConfig, EthClientTransport};

fn config(
    ws: Option<&str>,
    http: Option<&str>,
    transport: Option<EthClientTransport>,
) -> EthClientConfig {
    EthClientConfig {
        ws_endpoint: ws.map(|s| s.to_string()),
        http_endpoint: http.map(|s| s.to_string()),
        hd_index: None,
        transport,
    }
}

#[test]
fn http_only_without_preference_resolves_to_http() {
    let c = config(None, Some("http://localhost:8545"), None);
    assert_eq!(c.endpoint(), Ok("http://localhost:8545".to_string()));
}

#[test]
fn websocket_wins_without_preference_when_present() {
    let c = config(Some("ws://localhost:8546"), Some("http://localhost:8545"), None);
    assert_eq!(c.endpoint(), Ok("ws://localhost:8546".to_string()));
}

#[test]
fn http_preference_wins_over_websocket() {
    let c = config(
        Some("ws://localhost:8546"),
        Some("http://localhost:8545"),
        Some(EthClientTransport::Http),
    );
    assert_eq!(c.endpoint(), Ok("http://localhost:8545".to_string()));
}

#[test]
fn missing_endpoint_of_selected_transport_fails() {
    assert_eq!(config(None, None, None).endpoint(), Err(EndpointError::NoHttpEndpoint));
    assert_eq!(
        config(Some("ws://x"), None, Some(EthClientTransport::Http)).endpoint(),
        Err(EndpointError::NoHttpEndpoint)
    );
    assert_eq!(
        config(None, Some("http://x"), Some(EthClientTransport::WebSocket)).endpoint(),
        Err(EndpointError::NoWebSocketEndpoint)
    );
    assert_eq!(
        config(None, None, Some(EthClientTransport::WebSocket)).endpoint(),
        Err(EndpointError::NoWebSocketEndpoint)
    );
}

#[test]
fn default_configuration_has_nothing_set() {
    let c = EthClientConfig::default();
    assert_eq!(c, config(None, None, None));
    assert_eq!(c.endpoint(), Err(EndpointError::NoHttpEndpoint));
}
