//! The signing back ends and the single active session.

use vstd::prelude::*;
use vstd::string::*;
use crate::config::EthereumChainConfig;
use crate::local::{is_local_client, EndpointError, EthClientConfig, LocalEthSigningClient};
use crate::primitives::Address;
use crate::viem::{is_viem_client, ChainConfigError, ViemEthSigningClient, ViemProvider};

verus! {

/// Why a connection could not be made.
#[derive(Debug, PartialEq, Eq)]
pub enum ConnectError {
    /// The injected wallet returned no account.
    NoAccounts,
    /// No endpoint is configured for the transport that was selected.
    Endpoint(EndpointError),
    /// The chain descriptor cannot be given to the injected wallet.
    Chain(ChainConfigError),
    /// No key could be derived from the phrase; the text says why.
    Derivation(String),
    /// The provider could not be built; the text says why.
    Provider(String),
}

impl ConnectError {
    /// The text shown for this error.
    pub open spec fn spec_message(self) -> Seq<char> {
        match self {
            ConnectError::NoAccounts => "No accounts"@,
            ConnectError::Endpoint(e) => e.spec_message(),
            ConnectError::Chain(e) => e.spec_message(),
            ConnectError::Derivation(text) => text@,
            ConnectError::Provider(text) => text@,
        }
    }

    /// The text shown for this error.
    pub fn message(&self) -> (text: String)
        ensures
            text@ == self.spec_message(),
    {
        match self {
            ConnectError::NoAccounts => String::from_str("No accounts"),
            ConnectError::Endpoint(e) => e.message(),
            ConnectError::Chain(e) => e.message(),
            ConnectError::Derivation(text) => text.clone(),
            ConnectError::Provider(text) => text.clone(),
        }
    }
}

/// What the user chose to sign with.
#[derive(Debug, PartialEq, Eq)]
pub enum ClientKeyKind {
    /// A key derived in this process from a mnemonic phrase.
    Mnemonic(String),
    /// The wallet that the browser injects.
    Metamask,
}

/// Mathematical form of a key choice.
pub enum KeyKindView {
    Mnemonic(Seq<char>),
    Metamask,
}

impl View for ClientKeyKind {
    type V = KeyKindView;

    open spec fn view(&self) -> KeyKindView {
        match self {
            ClientKeyKind::Mnemonic(phrase) => KeyKindView::Mnemonic(phrase@),
            ClientKeyKind::Metamask => KeyKindView::Metamask,
        }
    }
}

impl Clone for ClientKeyKind {
    fn clone(&self) -> (r: Self)
        ensures
            r == *self,
    {
        match self {
            ClientKeyKind::Mnemonic(phrase) => ClientKeyKind::Mnemonic(phrase.clone()),
            ClientKeyKind::Metamask => ClientKeyKind::Metamask,
        }
    }
}

/// A connected signing back end.
#[derive(Debug, PartialEq, Eq)]
pub enum Client {
    /// Signs in this process with a key derived from a mnemonic phrase.
    Local(LocalEthSigningClient),
    /// Leaves signing and sending to the wallet that the browser injects.
    Viem(ViemEthSigningClient),
}

/// What the host builds its provider from.
#[derive(Debug, PartialEq, Eq)]
pub enum Provider {
    /// Reads and writes go to `endpoint`; writes are signed for `signer`.
    Signing { endpoint: String, signer: Address },
    /// Reads go to the provider's endpoint; writes are bridged to the wallet.
    Bridged(ViemProvider),
}

/// The cell that holds the single active connection.
#[derive(Debug, PartialEq, Eq)]
pub struct Session {
    pub client: Option<Client>,
}

impl Session {
    /// A session with no wallet connected.
    pub fn new() -> (s: Self)
        ensures
            s.client is None,
    {
        Session { client: None }
    }

    /// Whether a wallet is connected.
    pub fn is_connected(&self) -> (b: bool)
        ensures
            b == (self.client is Some),
    {
        self.client.is_some()
    }
}

impl Client {
    /// The address that this client acts for.
    pub open spec fn spec_address(self) -> Address {
        match self {
            Client::Local(client) => client.address,
            Client::Viem(client) => client.wallet.account,
        }
    }

    /// The address that this client acts for.
    pub fn address(&self) -> (a: Address)
        ensures
            a == self.spec_address(),
    {
        match self {
            Client::Local(client) => client.address(),
            Client::Viem(client) => client.wallet.account,
        }
    }

    /// What the host builds this client's provider from.
    pub fn provider(&self) -> (p: Provider)
        ensures
            match *self {
                Client::Local(client) => p matches Provider::Signing { endpoint, signer }
                    && endpoint@ == client.endpoint@ && signer == client.address,
                Client::Viem(client) => p matches Provider::Bridged(provider)
                    && provider.accounts@ == client.provider.accounts@ && provider.endpoint@
                    == client.provider.endpoint@,
            },
    {
        match self {
            Client::Local(client) => Provider::Signing {
                endpoint: client.endpoint.clone(),
                signer: client.address,
            },
            Client::Viem(client) => Provider::Bridged(client.provider.clone()),
        }
    }

    /// The configuration of the local client for a chain: its HTTP endpoint
    /// alone, no preference, the first key.
    pub open spec fn local_config(chain: EthereumChainConfig) -> EthClientConfig {
        EthClientConfig {
            ws_endpoint: None,
            http_endpoint: chain.http_endpoint,
            hd_index: None,
            transport: None,
        }
    }

    /// Whether `r` is the outcome of building the client for a choice of
    /// signer on a chain; `accounts` are those that the injected wallet gave,
    /// and count for that choice only.
    pub open spec fn is_prepared(
        key_kind: ClientKeyKind,
        chain: EthereumChainConfig,
        accounts: Vec<Address>,
        r: Result<Client, ConnectError>,
    ) -> bool {
        match key_kind {
            ClientKeyKind::Mnemonic(phrase) => match r {
                Ok(Client::Local(client)) => is_local_client(
                    Self::local_config(chain),
                    phrase,
                    Ok(client),
                ),
                Ok(Client::Viem(_)) => false,
                Err(e) => is_local_client(Self::local_config(chain), phrase, Err(e)),
            },
            ClientKeyKind::Metamask => match r {
                Ok(Client::Viem(client)) => is_viem_client(accounts, chain, Ok(client)),
                Ok(Client::Local(_)) => false,
                Err(e) => is_viem_client(accounts, chain, Err(e)),
            },
        }
    }

    /// Builds the client for a choice of signer: with a phrase, the locally
    /// signing client on the chain's HTTP endpoint; else the client of the
    /// injected wallet for the accounts it gave.
    pub fn prepare(key_kind: ClientKeyKind, chain: EthereumChainConfig, accounts: Vec<Address>) -> (r:
        Result<Client, ConnectError>)
        ensures
            Self::is_prepared(key_kind, chain, accounts, r),
    {
        match key_kind {
            ClientKeyKind::Mnemonic(phrase) => {
                let config = EthClientConfig {
                    ws_endpoint: None,
                    http_endpoint: chain.http_endpoint,
                    hd_index: None,
                    transport: None,
                };
                match LocalEthSigningClient::new(config, phrase) {
                    Ok(client) => Ok(Client::Local(client)),
                    Err(e) => Err(e),
                }
            },
            ClientKeyKind::Metamask => match ViemEthSigningClient::connect(accounts, chain) {
                Ok(client) => Ok(Client::Viem(client)),
                Err(e) => Err(e),
            },
        }
    }

    /// Ends a connection attempt. A client that was fully built replaces
    /// whatever the session held; a failed attempt leaves the session as it
    /// was and hands the failure on.
    pub fn connect(session: &mut Session, attempt: Result<Client, ConnectError>) -> (r: Result<
        (),
        ConnectError,
    >)
        ensures
            match attempt {
                Ok(client) => r is Ok && final(session).client == Some(client),
                Err(e) => r == Err::<(), ConnectError>(e) && *final(session) == *old(session),
            },
    {
        match attempt {
            Ok(client) => {
                session.client = Some(client);
                Ok(())
            },
            Err(e) => Err(e),
        }
    }
}

} // verus!
