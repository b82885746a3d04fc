//! What is handed to the injected wallet and to its library, as plain
//! records. The host turns them into the objects that the browser takes.

use vstd::prelude::*;
use vstd::string::*;
use crate::config::EthereumChainConfig;
use crate::primitives::{address_to_string, checksum_text, Address};
use crate::viem::{is_viem_form, ChainConfigError, ViemChainConfig};

verus! {

/// A request to the injected wallet that names a method only.
#[derive(Debug, PartialEq, Eq)]
pub struct RequestParams {
    pub method: String,
}

/// The injected wallet, as far as requests to it are formed here.
#[derive(Debug, Clone, Copy, PartialEq, Eq, Structural)]
pub struct Metamask {}

impl Metamask {
    /// The request for `method`.
    pub fn request(method: &str) -> (p: RequestParams)
        ensures
            p.method@ == method@,
    {
        RequestParams { method: String::from_str(method) }
    }

    /// The request for access to the user's accounts.
    pub fn request_accounts() -> (p: RequestParams)
        ensures
            p.method@ == "eth_requestAccounts"@,
    {
        Self::request("eth_requestAccounts")
    }
}

/// A balance query.
#[derive(Debug, PartialEq, Eq)]
pub struct BalanceParams {
    pub address: String,
}

/// What a wallet session is created from: the chain, and the account that
/// it is scoped to. The transport is the injected wallet itself.
#[derive(Debug, PartialEq, Eq)]
pub struct JsWalletClient {
    pub chain: ViemChainConfig,
    pub account: Address,
    /// The account in checksummed text, as the wallet's library takes it.
    pub account_text: String,
}

impl JsWalletClient {
    /// The session parameters for an account on a chain.
    pub fn new(account: Address, chain: EthereumChainConfig) -> (r: Result<Self, ChainConfigError>)
        ensures
            match r {
                Ok(client) => {
                    &&& is_viem_form(chain, Ok(client.chain))
                    &&& client.account == account
                    &&& client.account_text@ == checksum_text(account.bytes@)
                },
                Err(e) => is_viem_form(chain, Err::<ViemChainConfig, ChainConfigError>(e)),
            },
    {
        match chain.into_viem() {
            Ok(viem) => Ok(
                JsWalletClient {
                    chain: viem,
                    account,
                    account_text: address_to_string(&account),
                },
            ),
            Err(e) => Err(e),
        }
    }

    /// The query for the balance of `address`.
    pub fn get_balance(&self, address: Address) -> (p: BalanceParams)
        ensures
            p.address@ == checksum_text(address.bytes@),
    {
        BalanceParams { address: address_to_string(&address) }
    }
}

} // verus!
