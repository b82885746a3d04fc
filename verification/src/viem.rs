//! The injected-wallet back end: its provider, its chain descriptor and its
//! client.

use vstd::prelude::*;
use vstd::string::*;
use crate::bindings::JsWalletClient;
use crate::bridge::{
    bridged, bridged_view, is_hash_of, decode_tx_hash, tx_into_wallet_request, BridgeError,
    PendingTransaction, SendableTx, WalletRequest, WalletRequestView,
};
use crate::client::ConnectError;
use crate::config::EthereumChainConfig;
use crate::hex::text_bytes;
use crate::local::EndpointError;
use crate::primitives::{checksum_text, Address};
use crate::text::{parse_u32, parsed_u32};

verus! {

/// The accounts that the injected wallet gave, and the endpoint for reads.
#[derive(Debug, PartialEq, Eq)]
pub struct ViemProvider {
    pub accounts: Vec<Address>,
    pub endpoint: String,
}

impl Clone for ViemProvider {
    fn clone(&self) -> (r: Self)
        ensures
            r.accounts@ == self.accounts@,
            r.endpoint@ == self.endpoint@,
    {
        let mut accounts: Vec<Address> = Vec::new();
        let mut i: usize = 0;
        while i < self.accounts.len()
            invariant
                i <= self.accounts.len(),
                accounts@ == self.accounts@.take(i as int),
            decreases self.accounts.len() - i,
        {
            accounts.push(self.accounts[i]);
            i = i + 1;
        }
        ViemProvider { accounts, endpoint: self.endpoint.clone() }
    }
}

impl ViemProvider {
    /// The provider for the accounts that the wallet gave, reading from the
    /// chain's HTTP endpoint.
    pub fn new(accounts: Vec<Address>, chain: &EthereumChainConfig) -> (r: Result<
        Self,
        EndpointError,
    >)
        ensures
            match chain.http_endpoint {
                None => r == Err::<Self, EndpointError>(EndpointError::NoHttpEndpoint),
                Some(url) => r matches Ok(provider) && provider.accounts == accounts
                    && provider.endpoint@ == url@,
            },
    {
        match &chain.http_endpoint {
            Some(url) => Ok(ViemProvider { accounts, endpoint: url.clone() }),
            None => Err(EndpointError::NoHttpEndpoint),
        }
    }

    /// The account that transactions are sent from: the first one.
    pub fn sender(&self) -> (r: Result<Address, BridgeError>)
        ensures
            r == self.spec_sender(),
    {
        if self.accounts.len() > 0 {
            Ok(self.accounts[0])
        } else {
            Err(BridgeError::NoAccounts)
        }
    }

    /// The account that transactions are sent from: the first one.
    pub open spec fn spec_sender(&self) -> Result<Address, BridgeError> {
        if self.accounts@.len() > 0 {
            Ok(self.accounts@[0])
        } else {
            Err(BridgeError::NoAccounts)
        }
    }

    /// What is handed to the wallet for `tx`, or why nothing is: a signed
    /// envelope is refused as unsupported; a request needs an account to send
    /// from and an address to send to.
    pub open spec fn dispatch_of(&self, tx: SendableTx) -> Result<WalletRequestView, BridgeError> {
        match tx {
            SendableTx::Envelope(_) => Err(BridgeError::Unsupported),
            SendableTx::Builder(request) => match self.spec_sender() {
                Err(e) => Err(e),
                Ok(sender) => bridged(sender, request),
            },
        }
    }

    /// First half of sending: decides what is handed to the wallet. The host
    /// dispatches the request only where this returns one.
    pub fn prepare_send(&self, tx: SendableTx) -> (r: Result<WalletRequest, BridgeError>)
        ensures
            bridged_view(r) == self.dispatch_of(tx),
            tx is Envelope ==> r == Err::<WalletRequest, BridgeError>(BridgeError::Unsupported),
    {
        match tx {
            SendableTx::Builder(request) => {
                let sender = match self.sender() {
                    Ok(sender) => sender,
                    Err(e) => {
                        return Err(e);
                    },
                };
                tx_into_wallet_request(sender, request)
            },
            SendableTx::Envelope(_) => Err(BridgeError::Unsupported),
        }
    }

    /// Second half of sending: reads the wallet's reply. `Err` is a refusal
    /// with its text, `Ok(None)` an answer that is no text, `Ok(Some(..))` the
    /// text of the transaction hash. The handle is bound to this provider's
    /// endpoint.
    pub fn complete_send(&self, reply: Result<Option<String>, String>) -> (r: Result<
        PendingTransaction,
        BridgeError,
    >)
        ensures
            match reply {
                Err(text) => r == Err::<PendingTransaction, BridgeError>(
                    BridgeError::Rejected(text),
                ),
                Ok(None) => r == Err::<PendingTransaction, BridgeError>(BridgeError::MissingHash),
                Ok(Some(text)) => is_hash_of(
                    text_bytes(text@),
                    match r {
                        Ok(pending) => Ok(pending.tx_hash),
                        Err(e) => Err(e),
                    },
                ),
            },
            r matches Ok(pending) ==> pending.endpoint@ == self.endpoint@,
    {
        match reply {
            Err(text) => Err(BridgeError::Rejected(text)),
            Ok(None) => Err(BridgeError::MissingHash),
            Ok(Some(text)) => match decode_tx_hash(text.as_str()) {
                Ok(tx_hash) => Ok(PendingTransaction { tx_hash, endpoint: self.endpoint.clone() }),
                Err(e) => Err(e),
            },
        }
    }
}

/// The currency in which a chain's fees are paid.
#[derive(Debug, PartialEq, Eq)]
pub struct NativeCurrency {
    pub decimals: u32,
    pub name: String,
    pub symbol: String,
}

/// The endpoints of one group.
#[derive(Debug, PartialEq, Eq)]
pub struct RpcUrl {
    pub http: Vec<String>,
    pub web_socket: Vec<String>,
}

/// The endpoints of a chain, by group.
#[derive(Debug, PartialEq, Eq)]
pub struct RpcUrls {
    pub default: RpcUrl,
}

/// A chain as the injected wallet's library has it defined.
#[derive(Debug, PartialEq, Eq)]
pub struct ViemChainConfig {
    pub id: u32,
    pub name: String,
    pub native_currency: NativeCurrency,
    pub rpc_urls: RpcUrls,
}

/// Why a chain descriptor cannot be given to the injected wallet.
#[derive(Debug, Clone, Copy, PartialEq, Eq, Structural)]
pub enum ChainConfigError {
    /// The chain id is no number of 32 bits.
    BadChainId,
    NoHttpEndpoint,
    NoWebSocketEndpoint,
}

impl ChainConfigError {
    /// The text shown for this error.
    pub open spec fn spec_message(self) -> Seq<char> {
        match self {
            ChainConfigError::BadChainId => "chain id is not a number of 32 bits"@,
            ChainConfigError::NoHttpEndpoint => "no http endpoint"@,
            ChainConfigError::NoWebSocketEndpoint => "no websocket endpoint"@,
        }
    }

    /// The text shown for this error.
    pub fn message(&self) -> (text: String)
        ensures
            text@ == self.spec_message(),
    {
        match self {
            ChainConfigError::BadChainId => String::from_str(
                "chain id is not a number of 32 bits",
            ),
            ChainConfigError::NoHttpEndpoint => String::from_str("no http endpoint"),
            ChainConfigError::NoWebSocketEndpoint => String::from_str("no websocket endpoint"),
        }
    }
}

/// Whether `r` is the wallet's form of `chain`: its id as a number and as a
/// name, Ether with 18 decimals as currency, and its two endpoints, one in
/// each list. A bad id is reported before a missing HTTP endpoint, and that
/// before a missing WebSocket endpoint.
pub open spec fn is_viem_form(
    chain: EthereumChainConfig,
    r: Result<ViemChainConfig, ChainConfigError>,
) -> bool {
    match (parsed_u32(chain.chain_id@), chain.http_endpoint, chain.ws_endpoint) {
        (None, _, _) => r == Err::<ViemChainConfig, ChainConfigError>(
            ChainConfigError::BadChainId,
        ),
        (Some(_), None, _) => r == Err::<ViemChainConfig, ChainConfigError>(
            ChainConfigError::NoHttpEndpoint,
        ),
        (Some(_), Some(_), None) => r == Err::<ViemChainConfig, ChainConfigError>(
            ChainConfigError::NoWebSocketEndpoint,
        ),
        (Some(id), Some(http), Some(ws)) => {
            &&& r matches Ok(viem)
            &&& viem.id == id
            &&& viem.name@ == chain.chain_id@
            &&& viem.native_currency.decimals == 18
            &&& viem.native_currency.name@ == "Ether"@
            &&& viem.native_currency.symbol@ == "ETH"@
            &&& viem.rpc_urls.default.http@.len() == 1
            &&& viem.rpc_urls.default.http@[0]@ == http@
            &&& viem.rpc_urls.default.web_socket@.len() == 1
            &&& viem.rpc_urls.default.web_socket@[0]@ == ws@
        },
    }
}

impl EthereumChainConfig {
    /// The chain in the form that the injected wallet's library defines
    /// chains in.
    pub fn into_viem(self) -> (r: Result<ViemChainConfig, ChainConfigError>)
        ensures
            is_viem_form(self, r),
    {
        let id = match parse_u32(self.chain_id.as_str()) {
            Some(id) => id,
            None => {
                return Err(ChainConfigError::BadChainId);
            },
        };
        let http = match self.http_endpoint {
            Some(url) => url,
            None => {
                return Err(ChainConfigError::NoHttpEndpoint);
            },
        };
        let ws = match self.ws_endpoint {
            Some(url) => url,
            None => {
                return Err(ChainConfigError::NoWebSocketEndpoint);
            },
        };
        let mut http_urls: Vec<String> = Vec::new();
        http_urls.push(http);
        let mut ws_urls: Vec<String> = Vec::new();
        ws_urls.push(ws);
        Ok(
            ViemChainConfig {
                id,
                name: self.chain_id,
                native_currency: NativeCurrency {
                    decimals: 18,
                    name: String::from_str("Ether"),
                    symbol: String::from_str("ETH"),
                },
                rpc_urls: RpcUrls { default: RpcUrl { http: http_urls, web_socket: ws_urls } },
            },
        )
    }
}

/// A client that signs through the injected wallet.
#[derive(Debug, PartialEq, Eq)]
pub struct ViemEthSigningClient {
    pub provider: ViemProvider,
    /// What the wallet session is created from.
    pub wallet: JsWalletClient,
}

/// Whether `r` is the outcome of connecting through the injected wallet
/// with the accounts it gave: no account at all is reported first, then a
/// chain descriptor that the wallet cannot take; otherwise the first account
/// is the active one, the provider holds all accounts and reads from the
/// chain's HTTP endpoint, and the wallet session is for that chain.
pub open spec fn is_viem_client(
    accounts: Vec<Address>,
    chain: EthereumChainConfig,
    r: Result<ViemEthSigningClient, ConnectError>,
) -> bool {
    if accounts@.len() == 0 {
        r == Err::<ViemEthSigningClient, ConnectError>(ConnectError::NoAccounts)
    } else {
        match r {
            Ok(client) => {
                &&& client.provider.accounts == accounts
                &&& chain.http_endpoint matches Some(url) && client.provider.endpoint@ == url@
                &&& client.wallet.account == accounts@[0]
                &&& client.wallet.account_text@ == checksum_text(accounts@[0].bytes@)
                &&& is_viem_form(chain, Ok(client.wallet.chain))
            },
            Err(ConnectError::Chain(e)) => is_viem_form(
                chain,
                Err::<ViemChainConfig, ChainConfigError>(e),
            ),
            Err(_) => false,
        }
    }
}

impl ViemEthSigningClient {
    /// The client for the accounts that the wallet gave on request.
    pub fn connect(accounts: Vec<Address>, chain: EthereumChainConfig) -> (r: Result<
        Self,
        ConnectError,
    >)
        ensures
            is_viem_client(accounts, chain, r),
    {
        if accounts.len() == 0 {
            return Err(ConnectError::NoAccounts);
        }
        let account = accounts[0];
        let endpoint = match &chain.http_endpoint {
            Some(url) => Some(url.clone()),
            None => None,
        };
        let wallet = match JsWalletClient::new(account, chain) {
            Ok(wallet) => wallet,
            Err(e) => {
                return Err(ConnectError::Chain(e));
            },
        };
        match endpoint {
            Some(endpoint) => Ok(
                ViemEthSigningClient { provider: ViemProvider { accounts, endpoint }, wallet },
            ),
            None => Err(ConnectError::Chain(ChainConfigError::NoHttpEndpoint)),
        }
    }
}

} // verus!
