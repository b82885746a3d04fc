//! Configuration of a locally signing client and the choice of its endpoint.

use vstd::prelude::*;
use vstd::string::*;
use crate::client::ConnectError;
use crate::primitives::Address;

verus! {

/// Transport over which a client reaches its node.
#[derive(Debug, Clone, Copy, PartialEq, Eq, Structural)]
pub enum EthClientTransport {
    WebSocket,
    Http,
}

/// Why no endpoint could be chosen.
#[derive(Debug, Clone, Copy, PartialEq, Eq, Structural)]
pub enum EndpointError {
    /// HTTP was selected and no HTTP endpoint is configured.
    NoHttpEndpoint,
    /// WebSocket was selected and no WebSocket endpoint is configured.
    NoWebSocketEndpoint,
}

impl EndpointError {
    /// The text shown for this error.
    pub open spec fn spec_message(self) -> Seq<char> {
        match self {
            EndpointError::NoHttpEndpoint => "no http endpoint"@,
            EndpointError::NoWebSocketEndpoint =>
                "Websocket is preferred transport, but endpoint was not provided"@,
        }
    }

    /// The text shown for this error.
    pub fn message(&self) -> (text: String)
        ensures
            text@ == self.spec_message(),
    {
        match self {
            EndpointError::NoHttpEndpoint => String::from_str("no http endpoint"),
            EndpointError::NoWebSocketEndpoint => String::from_str(
                "Websocket is preferred transport, but endpoint was not provided",
            ),
        }
    }
}

/// Endpoints and preferences of one client.
#[derive(Debug, PartialEq, Eq)]
pub struct EthClientConfig {
    pub ws_endpoint: Option<String>,
    pub http_endpoint: Option<String>,
    pub hd_index: Option<u32>,
    /// Preferred transport
    pub transport: Option<EthClientTransport>,
}

/// The transport that a preference and the presence of a WebSocket endpoint
/// select: HTTP when it is asked for, or when nothing is asked for and there
/// is no WebSocket endpoint; WebSocket otherwise.
pub open spec fn select_transport(
    preference: Option<EthClientTransport>,
    has_ws: bool,
) -> EthClientTransport {
    if preference == Some(EthClientTransport::Http) || (preference is None && !has_ws) {
        EthClientTransport::Http
    } else {
        EthClientTransport::WebSocket
    }
}

/// The endpoint that a configuration resolves to, over the views of its
/// endpoints.
pub open spec fn resolve(
    preference: Option<EthClientTransport>,
    ws: Option<Seq<char>>,
    http: Option<Seq<char>>,
) -> Result<Seq<char>, EndpointError> {
    match select_transport(preference, ws is Some) {
        EthClientTransport::Http => match http {
            Some(url) => Ok(url),
            None => Err(EndpointError::NoHttpEndpoint),
        },
        EthClientTransport::WebSocket => match ws {
            Some(url) => Ok(url),
            None => Err(EndpointError::NoWebSocketEndpoint),
        },
    }
}

/// View of an optional string as an optional sequence of characters.
pub open spec fn opt_view(s: Option<String>) -> Option<Seq<char>> {
    match s {
        Some(s) => Some(s@),
        None => None,
    }
}

/// View of a resolved endpoint.
pub open spec fn endpoint_view(r: Result<String, EndpointError>) -> Result<Seq<char>, EndpointError> {
    match r {
        Ok(s) => Ok(s@),
        Err(e) => Err(e),
    }
}

impl Clone for EthClientConfig {
    fn clone(&self) -> (r: Self)
        ensures
            r == *self,
    {
        EthClientConfig {
            ws_endpoint: match &self.ws_endpoint {
                Some(url) => Some(url.clone()),
                None => None,
            },
            http_endpoint: match &self.http_endpoint {
                Some(url) => Some(url.clone()),
                None => None,
            },
            hd_index: self.hd_index,
            transport: self.transport,
        }
    }
}

impl Default for EthClientConfig {
    /// No endpoint, no preference, no key index.
    fn default() -> (r: Self)
        ensures
            r == (EthClientConfig {
                ws_endpoint: None,
                http_endpoint: None,
                hd_index: None,
                transport: None,
            }),
    {
        EthClientConfig { ws_endpoint: None, http_endpoint: None, hd_index: None, transport: None }
    }
}

impl EthClientConfig {
    /// Resolves the one endpoint to connect to, or says which is missing.
    pub fn endpoint(&self) -> (r: Result<String, EndpointError>)
        ensures
            endpoint_view(r) == resolve(
                self.transport,
                opt_view(self.ws_endpoint),
                opt_view(self.http_endpoint),
            ),
    {
        let use_http = match (&self.transport, &self.ws_endpoint) {
            (Some(EthClientTransport::Http), _) => true,
            (None, None) => true,
            _ => false,
        };
        if use_http {
            match &self.http_endpoint {
                Some(url) => Ok(url.clone()),
                None => Err(EndpointError::NoHttpEndpoint),
            }
        } else {
            match &self.ws_endpoint {
                Some(url) => Ok(url.clone()),
                None => Err(EndpointError::NoWebSocketEndpoint),
            }
        }
    }
}

/// The error of `alloy-signer-local`, carried through unread.
#[verifier::external_type_specification]
#[verifier::external_body]
pub struct ExLocalSignerError(alloy_signer_local::LocalSignerError);

/// The address of the key that `alloy-signer-local` derives from an English
/// mnemonic phrase at the given index of the standard path, where it derives
/// one.
pub uninterp spec fn mnemonic_account(phrase: Seq<char>, index: u32) -> Option<Seq<u8>>;

/// Builds the signer with `MnemonicBuilder::<English>`, through `phrase`,
/// `index` and `build`, and takes its address. The outcome is a function of
/// the phrase and the index alone and is known here only by name.
#[verifier::external_body]
fn derive_account(phrase: &str, index: u32) -> (r: Result<
    Address,
    alloy_signer_local::LocalSignerError,
>)
    ensures
        match r {
            Ok(address) => mnemonic_account(phrase@, index) == Some(address.bytes@),
            Err(_) => mnemonic_account(phrase@, index) is None,
        },
{
    let builder = alloy_signer_local::MnemonicBuilder::<
        alloy_signer_local::coins_bip39::English,
    >::default().phrase(phrase).index(index)?;
    let signer = builder.build()?;
    Ok(Address { bytes: signer.address().0.0 })
}

/// The text of a signer error, through its `Display`. Nothing is claimed of
/// it.
#[verifier::external_body]
fn signer_error_text(e: &alloy_signer_local::LocalSignerError) -> String {
    e.to_string()
}

/// A client that signs in this process.
#[derive(Debug, PartialEq, Eq)]
pub struct LocalEthSigningClient {
    pub config: EthClientConfig,
    /// The endpoint that the configuration resolved to.
    pub endpoint: String,
    /// The phrase that the key was derived from.
    pub phrase: String,
    /// The address of the derived key.
    pub address: Address,
}

impl EthClientConfig {
    /// The index at which the key is derived: the configured one, else 0.
    pub open spec fn key_index(&self) -> u32 {
        match self.hd_index {
            Some(index) => index,
            None => 0,
        }
    }
}

/// Whether `r` is the outcome of making a local client from a configuration
/// and a phrase: a phrase that no key derives from is reported first, then a
/// missing endpoint; otherwise the client holds the configuration, the
/// endpoint it resolves to, the phrase, and the address of the phrase's key
/// at the configured index.
pub open spec fn is_local_client(
    config: EthClientConfig,
    phrase: String,
    r: Result<LocalEthSigningClient, ConnectError>,
) -> bool {
    match mnemonic_account(phrase@, config.key_index()) {
        None => r matches Err(ConnectError::Derivation(_)),
        Some(bytes) => match resolve(
            config.transport,
            opt_view(config.ws_endpoint),
            opt_view(config.http_endpoint),
        ) {
            Err(e) => r == Err::<LocalEthSigningClient, ConnectError>(ConnectError::Endpoint(e)),
            Ok(url) => r matches Ok(client) && client.config == config && client.endpoint@ == url
                && client.phrase == phrase && client.address.bytes@ == bytes,
        },
    }
}

impl LocalEthSigningClient {
    /// The client for a configuration, a phrase and the outcome of deriving
    /// the phrase's key. A failed derivation is reported before a missing
    /// endpoint.
    pub fn with_account(
        config: EthClientConfig,
        phrase: String,
        account: Result<Address, String>,
    ) -> (r: Result<Self, ConnectError>)
        ensures
            match account {
                Err(text) => r == Err::<Self, ConnectError>(ConnectError::Derivation(text)),
                Ok(address) => match resolve(
                    config.transport,
                    opt_view(config.ws_endpoint),
                    opt_view(config.http_endpoint),
                ) {
                    Err(e) => r == Err::<Self, ConnectError>(ConnectError::Endpoint(e)),
                    Ok(url) => r matches Ok(client) && client.config == config
                        && client.endpoint@ == url && client.phrase == phrase && client.address
                        == address,
                },
            },
    {
        let address = match account {
            Ok(address) => address,
            Err(text) => {
                return Err(ConnectError::Derivation(text));
            },
        };
        match config.endpoint() {
            Ok(endpoint) => Ok(LocalEthSigningClient { config, endpoint, phrase, address }),
            Err(e) => Err(ConnectError::Endpoint(e)),
        }
    }

    /// Derives the key of `mnemonic` at the configured index and resolves the
    /// endpoint.
    pub fn new(config: EthClientConfig, mnemonic: String) -> (r: Result<Self, ConnectError>)
        ensures
            is_local_client(config, mnemonic, r),
    {
        let index = match config.hd_index {
            Some(index) => index,
            None => 0,
        };
        let account = match derive_account(mnemonic.as_str(), index) {
            Ok(address) => Ok(address),
            Err(e) => Err(signer_error_text(&e)),
        };
        Self::with_account(config, mnemonic, account)
    }

    /// The address of the derived key.
    pub fn address(&self) -> (a: Address)
        ensures
            a == self.address,
    {
        self.address
    }
}

} // verus!
