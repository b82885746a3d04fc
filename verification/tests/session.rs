use wavs_frontend::client::{Client, ClientKeyKind, ConnectError, Provider, Session};
use wavs_frontend::config::EthereumChainConfig;
use wavs_frontend::local::{EndpointError, EthClientConfig};
use wavs_frontend::primitives::Address;
use wavs_frontend::viem::{ChainConfigError, ViemEthSigningClient};

const ANVIL: &str = "test test test test test test test test test test test junk";

fn chain() -> EthereumChainConfig {
    EthereumChainConfig {
        chain_id: "31337".to_string(),
        ws_endpoint: Some("ws://localhost:8546".to_string()),
        http_endpoint: Some("http://localhost:8545".to_string()),
        aggregator_endpoint: None,
        faucet_endpoint: None,
    }
}

fn account_0() -> Address {
    Address {
        bytes: [
            0xf3, 0x9f, 0xd6, 0xe5, 0x1a, 0xad, 0x88, 0xf6, 0xf4, 0xce, 0x6a, 0xb8, 0x82, 0x72,
            0x79, 0xcf, 0xff, 0xb9, 0x22, 0x66,
        ],
    }
}

fn other() -> Address {
    Address { bytes: [9u8; 20] }
}

#[test]
fn mnemonic_choice_connects_over_http_only() {
    let client =
        Client::prepare(ClientKeyKind::Mnemonic(ANVIL.to_string()), chain(), vec![]).unwrap();
    assert_eq!(client.address(), account_0());
    match &client {
        Client::Local(local) => {
            assert_eq!(local.endpoint, "http://localhost:8545");
            assert_eq!(
                local.config,
                EthClientConfig {
                    ws_endpoint: None,
                    http_endpoint: Some("http://localhost:8545".to_string()),
                    hd_index: None,
                    transport: None,
                }
            );
        }
        Client::Viem(_) => panic!("a phrase gives a local client"),
    }
    assert_eq!(
        client.provider(),
        Provider::Signing { endpoint: "http://localhost:8545".to_string(), signer: account_0() }
    );
}

#[test]
fn mnemonic_choice_without_http_endpoint_fails() {
    let mut c = chain();
    c.http_endpoint = None;
    let r = Client::prepare(ClientKeyKind::Mnemonic(ANVIL.to_string()), c, vec![other()]);
    assert_eq!(r, Err(ConnectError::Endpoint(EndpointError::NoHttpEndpoint)));
}

#[test]
fn mnemonic_choice_with_bad_phrase_fails() {
    let r = Client::prepare(ClientKeyKind::Mnemonic("".to_string()), chain(), vec![]);
    assert!(matches!(r, Err(ConnectError::Derivation(_))));
}

#[test]
fn injected_choice_takes_the_first_account() {
    let accounts = vec![other(), account_0()];
    let client = Client::prepare(ClientKeyKind::Metamask, chain(), accounts.clone()).unwrap();
    assert_eq!(client.address(), other());
    match &client {
        Client::Viem(viem) => {
            assert_eq!(viem.provider.accounts, accounts);
            assert_eq!(viem.provider.endpoint, "http://localhost:8545");
            assert_eq!(viem.wallet.account, other());
            assert_eq!(viem.wallet.chain.id, 31337);
            assert_eq!(viem.wallet.account_text, "0x0909090909090909090909090909090909090909");
        }
        Client::Local(_) => panic!("the injected wallet gives a bridged client"),
    }
    match client.provider() {
        Provider::Bridged(p) => {
            assert_eq!(p.accounts, accounts);
            assert_eq!(p.endpoint, "http://localhost:8545");
        }
        Provider::Signing { .. } => panic!("writes are bridged"),
    }
}

#[test]
fn injected_choice_without_accounts_fails() {
    let r = Client::prepare(ClientKeyKind::Metamask, chain(), vec![]);
    assert_eq!(r, Err(ConnectError::NoAccounts));
    let mut bad = chain();
    bad.chain_id = "local".to_string();
    assert_eq!(ViemEthSigningClient::connect(vec![], bad), Err(ConnectError::NoAccounts));
}

#[test]
fn injected_choice_with_unusable_chain_fails() {
    let mut bad = chain();
    bad.chain_id = "local".to_string();
    let r = Client::prepare(ClientKeyKind::Metamask, bad, vec![other()]);
    assert_eq!(r, Err(ConnectError::Chain(ChainConfigError::BadChainId)));
    let mut no_http = chain();
    no_http.http_endpoint = None;
    let r = Client::prepare(ClientKeyKind::Metamask, no_http, vec![other()]);
    assert_eq!(r, Err(ConnectError::Chain(ChainConfigError::NoHttpEndpoint)));
    let mut no_ws = chain();
    no_ws.ws_endpoint = None;
    let r = ViemEthSigningClient::connect(vec![other()], no_ws);
    assert_eq!(r, Err(ConnectError::Chain(ChainConfigError::NoWebSocketEndpoint)));
}

#[test]
fn successful_attempt_replaces_the_session() {
    let mut session = Session::new();
    assert!(!session.is_connected());
    let first = Client::prepare(ClientKeyKind::Metamask, chain(), vec![other()]);
    assert_eq!(Client::connect(&mut session, first), Ok(()));
    assert!(session.is_connected());
    assert_eq!(session.client.as_ref().map(|c| c.address()), Some(other()));
    let second = Client::prepare(ClientKeyKind::Mnemonic(ANVIL.to_string()), chain(), vec![]);
    assert_eq!(Client::connect(&mut session, second), Ok(()));
    assert_eq!(session.client.as_ref().map(|c| c.address()), Some(account_0()));
}

#[test]
fn failed_attempt_leaves_the_session_as_it_was() {
    let mut session = Session::new();
    let failed = Client::prepare(ClientKeyKind::Metamask, chain(), vec![]);
    assert_eq!(Client::connect(&mut session, failed), Err(ConnectError::NoAccounts));
    assert!(!session.is_connected());

    let good = Client::prepare(ClientKeyKind::Metamask, chain(), vec![other()]);
    assert_eq!(Client::connect(&mut session, good), Ok(()));
    let late = Err(ConnectError::Provider("connection refused".to_string()));
    assert_eq!(
        Client::connect(&mut session, late),
        Err(ConnectError::Provider("connection refused".to_string()))
    );
    assert_eq!(session.client.as_ref().map(|c| c.address()), Some(other()));
}

#[test]
fn key_choice_is_copied_whole() {
    let kind = ClientKeyKind::Mnemonic(ANVIL.to_string());
    assert_eq!(kind.clone(), kind);
    assert_eq!(ClientKeyKind::Metamask.clone(), ClientKeyKind::Metamask);
}

#[test]
fn connection_errors_have_their_texts() {
    assert_eq!(ConnectError::NoAccounts.message(), "No accounts");
    assert_eq!(
        ConnectError::Endpoint(EndpointError::NoHttpEndpoint).message(),
        "no http endpoint"
    );
    assert_eq!(
        ConnectError::Endpoint(EndpointError::NoWebSocketEndpoint).message(),
        "Websocket is preferred transport, but endpoint was not provided"
    );
    assert_eq!(
        ConnectError::Chain(ChainConfigError::BadChainId).message(),
        "chain id is not a number of 32 bits"
    );
    assert_eq!(ConnectError::Chain(ChainConfigError::NoHttpEndpoint).message(), "no http endpoint");
    assert_eq!(
        ConnectError::Chain(ChainConfigError::NoWebSocketEndpoint).message(),
        "no websocket endpoint"
    );
    assert_eq!(ConnectError::Derivation("bad word".to_string()).message(), "bad word");
    assert_eq!(ConnectError::Provider("refused".to_string()).message(), "refused");
}
