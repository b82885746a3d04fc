//! The bridging layer: an unsigned transaction request becomes the request
//! that an injected wallet takes, and the wallet's answer becomes the hash
//! under which the transaction is awaited.

use vstd::prelude::*;
use vstd::string::*;
use crate::hex::{decode, encode, hex_reading, hex_text, text_bytes, HexError};
use crate::primitives::{
    address_to_string, checksum_text, decimal_text, u128_to_decimal, u256_to_decimal, Address,
    B256, U256,
};

verus! {

/// The target of a transaction.
#[derive(Debug, Clone, Copy, PartialEq, Eq)]
pub enum TxKind {
    /// The transaction creates a contract.
    Create,
    /// The transaction calls a contract or pays an account.
    Call(Address),
}

impl TxKind {
    /// The address called or paid, if any.
    pub open spec fn spec_to(self) -> Option<Address> {
        match self {
            TxKind::Create => None,
            TxKind::Call(to) => Some(to),
        }
    }

    /// The address called or paid, if any.
    pub fn to(&self) -> (r: Option<Address>)
        ensures
            r == self.spec_to(),
    {
        match self {
            TxKind::Create => None,
            TxKind::Call(to) => Some(*to),
        }
    }
}

/// Call data, under either of the two names that nodes use for it.
#[derive(Debug, PartialEq, Eq)]
pub struct TransactionInput {
    pub input: Option<Vec<u8>>,
    pub data: Option<Vec<u8>>,
}

impl TransactionInput {
    /// The call data: `input` where it is set, else `data`.
    pub open spec fn spec_into_input(self) -> Option<Vec<u8>> {
        match self.input {
            Some(bytes) => Some(bytes),
            None => self.data,
        }
    }

    /// The call data: `input` where it is set, else `data`.
    pub fn into_input(self) -> (r: Option<Vec<u8>>)
        ensures
            r == self.spec_into_input(),
    {
        match self.input {
            Some(bytes) => Some(bytes),
            None => self.data,
        }
    }
}

/// One entry of an access list.
#[derive(Debug, PartialEq, Eq)]
pub struct AccessListItem {
    pub address: Address,
    pub storage_keys: Vec<B256>,
}

/// One signed authorization.
#[derive(Debug, Clone, Copy, PartialEq, Eq)]
pub struct SignedAuthorization {
    pub chain_id: U256,
    pub address: Address,
    pub nonce: u64,
    pub y_parity: u8,
    pub r: U256,
    pub s: U256,
}

/// An unsigned transaction as its builder leaves it: every field optional.
#[derive(Debug, PartialEq, Eq)]
pub struct TransactionRequest {
    pub from: Option<Address>,
    pub to: Option<TxKind>,
    pub gas_price: Option<u128>,
    pub max_fee_per_gas: Option<u128>,
    pub max_priority_fee_per_gas: Option<u128>,
    pub max_fee_per_blob_gas: Option<u128>,
    pub gas: Option<u64>,
    pub value: Option<U256>,
    pub input: TransactionInput,
    pub nonce: Option<u64>,
    pub chain_id: Option<u64>,
    pub access_list: Option<Vec<AccessListItem>>,
    pub authorization_list: Option<Vec<SignedAuthorization>>,
}

impl TransactionRequest {
    /// The address that the request is sent to, if it names one.
    pub open spec fn destination(self) -> Option<Address> {
        match self.to {
            Some(kind) => kind.spec_to(),
            None => None,
        }
    }
}

/// What a provider is asked to send.
#[derive(Debug, PartialEq, Eq)]
pub enum SendableTx {
    /// A request still to be signed.
    Builder(TransactionRequest),
    /// A signed transaction in its encoded envelope.
    Envelope(Vec<u8>),
}

/// The request in the shape that the injected wallet takes. A field that is
/// `None` is left out of what the wallet receives. The three amounts are
/// decimal texts for the wallet's own amount parser.
#[derive(Debug, PartialEq, Eq)]
pub struct WalletRequest {
    pub account: String,
    pub to: String,
    pub data: Option<String>,
    pub access_list: Option<Vec<AccessListItem>>,
    pub authorization_list: Option<Vec<SignedAuthorization>>,
    pub max_fee_per_gas: Option<String>,
    pub max_priority_fee_per_gas: Option<String>,
    pub value: Option<String>,
}

/// Mathematical form of a wallet request.
pub struct WalletRequestView {
    pub account: Seq<char>,
    pub to: Seq<char>,
    pub data: Option<Seq<char>>,
    pub access_list: Option<Vec<AccessListItem>>,
    pub authorization_list: Option<Vec<SignedAuthorization>>,
    pub max_fee_per_gas: Option<Seq<char>>,
    pub max_priority_fee_per_gas: Option<Seq<char>>,
    pub value: Option<Seq<char>>,
}

/// View of an optional text.
pub open spec fn text_view(text: Option<String>) -> Option<Seq<char>> {
    match text {
        Some(text) => Some(text@),
        None => None,
    }
}

impl View for WalletRequest {
    type V = WalletRequestView;

    open spec fn view(&self) -> WalletRequestView {
        WalletRequestView {
            account: self.account@,
            to: self.to@,
            data: text_view(self.data),
            access_list: self.access_list,
            authorization_list: self.authorization_list,
            max_fee_per_gas: text_view(self.max_fee_per_gas),
            max_priority_fee_per_gas: text_view(self.max_priority_fee_per_gas),
            value: text_view(self.value),
        }
    }
}

/// Why a request did not reach the chain through the injected wallet.
#[derive(Debug, PartialEq, Eq)]
pub enum BridgeError {
    /// The request is a signed envelope; only unsigned requests are bridged.
    Unsupported,
    /// The wallet gave no account to send from.
    NoAccounts,
    /// The request names no address to send to.
    NoDestination,
    /// The wallet refused the request; the text is its own.
    Rejected(String),
    /// The wallet's answer is no text.
    MissingHash,
    /// The wallet's answer is no hexadecimal text.
    MalformedHash(HexError),
    /// The wallet's answer stands for this many bytes, not thirty-two.
    WrongHashLength(usize),
}

/// The two kinds of failure that a provider tells apart.
#[derive(Debug, Clone, Copy, PartialEq, Eq, Structural)]
pub enum BridgeErrorKind {
    UnsupportedFeature,
    LocalUsage,
}

impl BridgeError {
    /// The text shown for this error.
    pub open spec fn spec_message(self) -> Seq<char> {
        match self {
            BridgeError::Unsupported => "ViemProvider does not support SendableTx::Envelope"@,
            BridgeError::NoAccounts => "No accounts"@,
            BridgeError::NoDestination => "No to address"@,
            BridgeError::Rejected(text) => text@,
            BridgeError::MissingHash => "Could not get Tx hash"@,
            BridgeError::MalformedHash(e) => e.spec_message(),
            BridgeError::WrongHashLength(n) => "Tx hash must have 32 bytes, but has "@
                + decimal_text(n as nat),
        }
    }

    /// The text shown for this error.
    pub fn message(&self) -> (text: String)
        ensures
            text@ == self.spec_message(),
    {
        match self {
            BridgeError::Unsupported => String::from_str(
                "ViemProvider does not support SendableTx::Envelope",
            ),
            BridgeError::NoAccounts => String::from_str("No accounts"),
            BridgeError::NoDestination => String::from_str("No to address"),
            BridgeError::Rejected(text) => text.clone(),
            BridgeError::MissingHash => String::from_str("Could not get Tx hash"),
            BridgeError::MalformedHash(e) => e.message(),
            BridgeError::WrongHashLength(n) => {
                let mut text = String::from_str("Tx hash must have 32 bytes, but has ");
                let count = u128_to_decimal(*n as u128);
                text.append(count.as_str());
                text
            },
        }
    }

    /// Everything but a signed envelope is an error of local usage.
    pub fn kind(&self) -> (k: BridgeErrorKind)
        ensures
            k == if *self is Unsupported {
                BridgeErrorKind::UnsupportedFeature
            } else {
                BridgeErrorKind::LocalUsage
            },
    {
        match self {
            BridgeError::Unsupported => BridgeErrorKind::UnsupportedFeature,
            _ => BridgeErrorKind::LocalUsage,
        }
    }
}

/// The decimal text of an optional fee.
pub open spec fn fee_text(fee: Option<u128>) -> Option<Seq<char>> {
    match fee {
        Some(n) => Some(decimal_text(n as nat)),
        None => None,
    }
}

/// The wallet request that is put together from the two addresses in text
/// and a transaction request: the call data, where there is any, in hex; the
/// two lists as they are; each amount that is set in decimal text.
pub open spec fn assembled(account: Seq<char>, to: Seq<char>, tx: TransactionRequest) -> WalletRequestView {
    WalletRequestView {
        account,
        to,
        data: match tx.input.spec_into_input() {
            Some(bytes) => Some(hex_text(bytes@)),
            None => None,
        },
        access_list: tx.access_list,
        authorization_list: tx.authorization_list,
        max_fee_per_gas: fee_text(tx.max_fee_per_gas),
        max_priority_fee_per_gas: fee_text(tx.max_priority_fee_per_gas),
        value: match tx.value {
            Some(amount) => Some(decimal_text(amount.value())),
            None => None,
        },
    }
}

/// The wallet request that a sender and a transaction request give: the
/// sender and the address sent to in checksummed text, and the rest as it is
/// put together from the request. Without an address to send to there is
/// none.
pub open spec fn bridged(sender: Address, tx: TransactionRequest) -> Result<
    WalletRequestView,
    BridgeError,
> {
    match tx.destination() {
        None => Err(BridgeError::NoDestination),
        Some(to) => Ok(assembled(checksum_text(sender.bytes@), checksum_text(to.bytes@), tx)),
    }
}

/// A bridging outcome with the request in its mathematical form.
pub open spec fn bridged_view(r: Result<WalletRequest, BridgeError>) -> Result<
    WalletRequestView,
    BridgeError,
> {
    match r {
        Ok(request) => Ok(request@),
        Err(e) => Err(e),
    }
}

fn fee_to_text(fee: Option<u128>) -> (text: Option<String>)
    ensures
        text_view(text) == fee_text(fee),
{
    match fee {
        Some(n) => Some(u128_to_decimal(n)),
        None => None,
    }
}

/// Puts the wallet request together from the two addresses, already in
/// text, and the transaction request.
pub fn assemble_request(account: String, to: String, tx: TransactionRequest) -> (r: WalletRequest)
    ensures
        r@ == assembled(account@, to@, tx),
{
    let max_fee_per_gas = fee_to_text(tx.max_fee_per_gas);
    let max_priority_fee_per_gas = fee_to_text(tx.max_priority_fee_per_gas);
    let value = match &tx.value {
        Some(amount) => Some(u256_to_decimal(amount)),
        None => None,
    };
    let data = match tx.input.into_input() {
        Some(bytes) => Some(encode(bytes.as_slice())),
        None => None,
    };
    WalletRequest {
        account,
        to,
        data,
        access_list: tx.access_list,
        authorization_list: tx.authorization_list,
        max_fee_per_gas,
        max_priority_fee_per_gas,
        value,
    }
}

/// Turns a transaction request into the request that the injected wallet
/// takes, for the given sender.
pub fn tx_into_wallet_request(sender: Address, tx: TransactionRequest) -> (r: Result<
    WalletRequest,
    BridgeError,
>)
    ensures
        bridged_view(r) == bridged(sender, tx),
{
    let to = match &tx.to {
        Some(kind) => match kind.to() {
            Some(to) => to,
            None => {
                return Err(BridgeError::NoDestination);
            },
        },
        None => {
            return Err(BridgeError::NoDestination);
        },
    };
    let account = address_to_string(&sender);
    let to_text = address_to_string(&to);
    Ok(assemble_request(account, to_text, tx))
}

/// Bridging keeps presence: where there is a wallet request at all, each of
/// its optional fields is set exactly when the transaction request sets the
/// field it comes from, and then holds that field's value in the wallet's
/// form. The wallet request has no other optional field, so none is made up.
pub proof fn bridging_preserves_presence(sender: Address, tx: TransactionRequest)
    requires
        bridged(sender, tx) is Ok,
    ensures
        ({
            let out = bridged(sender, tx)->Ok_0;
            &&& out.data is Some <==> (tx.input.input is Some || tx.input.data is Some)
            &&& tx.input.input matches Some(bytes) ==> out.data == Some(hex_text(bytes@))
            &&& (tx.input.input is None && tx.input.data is Some) ==> out.data == Some(
                hex_text(tx.input.data->Some_0@),
            )
            &&& out.access_list == tx.access_list
            &&& out.authorization_list == tx.authorization_list
            &&& out.max_fee_per_gas is Some <==> tx.max_fee_per_gas is Some
            &&& tx.max_fee_per_gas matches Some(n) ==> out.max_fee_per_gas == Some(
                decimal_text(n as nat),
            )
            &&& out.max_priority_fee_per_gas is Some <==> tx.max_priority_fee_per_gas is Some
            &&& tx.max_priority_fee_per_gas matches Some(n) ==> out.max_priority_fee_per_gas
                == Some(decimal_text(n as nat))
            &&& out.value is Some <==> tx.value is Some
            &&& tx.value matches Some(amount) ==> out.value == Some(decimal_text(amount.value()))
        }),
{
}

/// The handle under which a sent transaction is awaited: its hash, and the
/// endpoint of the provider that is asked for its confirmation.
#[derive(Debug, PartialEq, Eq)]
pub struct PendingTransaction {
    pub tx_hash: B256,
    pub endpoint: String,
}

/// Whether `r` is what the wallet's answer `text` gives as a transaction
/// hash: the bytes that the text stands for in hexadecimal, if they are
/// thirty-two.
pub open spec fn is_hash_of(text: Seq<u8>, r: Result<B256, BridgeError>) -> bool {
    match hex_reading(text) {
        Err(e) => r == Err::<B256, BridgeError>(BridgeError::MalformedHash(e)),
        Ok(bytes) => if bytes.len() == 32 {
            r matches Ok(hash) && hash.bytes@ == bytes
        } else {
            r == Err::<B256, BridgeError>(BridgeError::WrongHashLength(bytes.len() as usize))
        },
    }
}

/// Reads a transaction hash from hexadecimal text.
pub fn decode_tx_hash(text: &str) -> (r: Result<B256, BridgeError>)
    ensures
        is_hash_of(text_bytes(text@), r),
{
    let bytes = match decode(text.as_bytes()) {
        Ok(bytes) => bytes,
        Err(e) => {
            return Err(BridgeError::MalformedHash(e));
        },
    };
    if bytes.len() != 32 {
        return Err(BridgeError::WrongHashLength(bytes.len()));
    }
    let mut hash: [u8; 32] = [0u8; 32];
    let mut i: usize = 0;
    while i < 32
        invariant
            i <= 32,
            bytes@.len() == 32,
            forall|j: int| 0 <= j < i ==> hash@[j] == bytes@[j],
        decreases 32 - i,
    {
        hash[i] = bytes[i];
        i = i + 1;
    }
    assert(hash@ =~= bytes@);
    Ok(B256 { bytes: hash })
}

} // verus!
