use wavs_frontend::client::ConnectError;
use wavs_frontend::local::{EndpointError, EthClientConfig, EthClientTransport, LocalEthSigningClient};
use wavs_frontend::primitives::Address;

const ANVIL: &str = "test test test test test test test test test test test junk";

fn http_config(hd_index: Option<u32>) -> EthClientConfig {
    EthClientConfig {
        ws_endpoint: None,
        http_endpoint: Some("http://localhost:8545".to_string()),
        hd_index,
        transport: None,
    }
}

fn account_0() -> Address {
    Address {
        bytes: [
            0xf3, 0x9f, 0xd6, 0xe5, 0x1a, 0xad, 0x88, 0xf6, 0xf4, 0xce, 0x6a, 0xb8, 0x82, 0x72,
            0x79, 0xcf, 0xff, 0xb9, 0x22, 0x66,
        ],
    }
}

fn account_1() -> Address {
    Address {
        bytes: [
            0x70, 0x99, 0x79, 0x70, 0xc5, 0x18, 0x12, 0xdc, 0x3a, 0x01, 0x0c, 0x7d, 0x01, 0xb5,
            0x0e, 0x0d, 0x17, 0xdc, 0x79, 0xc8,
        ],
    }
}

#[test]
fn anvil_phrase_at_index_0_gives_the_well_known_account() {
    let client = LocalEthSigningClient::new(http_config(Some(0)), ANVIL.to_string()).unwrap();
    assert_eq!(client.address(), account_0());
    assert_eq!(client.endpoint, "http://localhost:8545");
    assert_eq!(client.phrase, ANVIL);
    assert_eq!(client.config, http_config(Some(0)));
}

#[test]
fn missing_index_means_index_0() {
    let client = LocalEthSigningClient::new(http_config(None), ANVIL.to_string()).unwrap();
    assert_eq!(client.address, account_0());
}

#[test]
fn index_1_gives_the_second_account() {
    let client = LocalEthSigningClient::new(http_config(Some(1)), ANVIL.to_string()).unwrap();
    assert_eq!(client.address, account_1());
}

#[test]
fn derivation_is_repeatable() {
    let a = LocalEthSigningClient::new(http_config(None), ANVIL.to_string()).unwrap();
    let b = LocalEthSigningClient::new(http_config(None), ANVIL.to_string()).unwrap();
    assert_eq!(a, b);
}

#[test]
fn bad_phrase_is_a_derivation_failure() {
    let r = LocalEthSigningClient::new(http_config(None), "not a phrase".to_string());
    assert!(matches!(r, Err(ConnectError::Derivation(_))));
    let empty = LocalEthSigningClient::new(http_config(None), String::new());
    assert!(matches!(empty, Err(ConnectError::Derivation(_))));
}

#[test]
fn derivation_failure_is_reported_before_a_missing_endpoint() {
    let config = EthClientConfig {
        ws_endpoint: None,
        http_endpoint: None,
        hd_index: None,
        transport: None,
    };
    let r = LocalEthSigningClient::new(config, "not a phrase".to_string());
    assert!(matches!(r, Err(ConnectError::Derivation(_))));
}

#[test]
fn missing_endpoint_fails_after_a_good_derivation() {
    let config = EthClientConfig {
        ws_endpoint: None,
        http_endpoint: None,
        hd_index: None,
        transport: None,
    };
    let r = LocalEthSigningClient::new(config, ANVIL.to_string());
    assert_eq!(r, Err(ConnectError::Endpoint(EndpointError::NoHttpEndpoint)));
    let ws = EthClientConfig {
        ws_endpoint: None,
        http_endpoint: Some("http://localhost:8545".to_string()),
        hd_index: None,
        transport: Some(EthClientTransport::WebSocket),
    };
    let r = LocalEthSigningClient::new(ws, ANVIL.to_string());
    assert_eq!(r, Err(ConnectError::Endpoint(EndpointError::NoWebSocketEndpoint)));
}

#[test]
fn given_account_is_taken_as_it_is() {
    let r = LocalEthSigningClient::with_account(
        http_config(None),
        "any".to_string(),
        Ok(account_1()),
    )
    .unwrap();
    assert_eq!(r.address, account_1());
    assert_eq!(r.phrase, "any");
    let failed = LocalEthSigningClient::with_account(
        http_config(None),
        "any".to_string(),
        Err("no key".to_string()),
    );
    assert_eq!(failed, Err(ConnectError::Derivation("no key".to_string())));
}

#[test]
fn websocket_endpoint_is_used_when_selected() {
    let config = EthClientConfig {
        ws_endpoint: Some("ws://localhost:8546".to_string()),
        http_endpoint: Some("http://localhost:8545".to_string()),
        hd_index: None,
        transport: None,
    };
    let client = LocalEthSigningClient::new(config, ANVIL.to_string()).unwrap();
    assert_eq!(client.endpoint, "ws://localhost:8546");
}
